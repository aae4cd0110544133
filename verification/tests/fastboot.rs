use flashthing::boot_image::info_sector;
use flashthing::config::{
    DataOrFile, FlashStep, MetaFile, ReadMemoryValue, RestorePartitionValue, StringOrFile, ValidatePartitionSizeValue,
    WaitValue, WriteBootPartitionValue, WriteLargeMemoryValue, WriteUserAreaValue,
};
use flashthing::error::{Error, Outcome};
use flashthing::fastboot::command::{encode_command, select_hwpart, Command, COMMAND_MILLIS, COMMIT_MILLIS};
use flashthing::fastboot::download::{check_ack, judge_ack, Download, DownloadAction, DownloadReply};
use flashthing::fastboot::env::{EnvAction, EnvReply, EnvWrite};
use flashthing::fastboot::reply::{
    expect_okay, max_download_size, packet_text, parse_size, unexpected_tag, FastbootReply, Packet, ReplyReader,
    ReplyStep, DEFAULT_MAX_DOWNLOAD_BYTES,
};
use flashthing::fastboot::steps::{StepAction, StepReply, StepRun};
use flashthing::fastboot::vendor::{complains, judge_console, translate_vendor_command};
use flashthing::partitions::{Partition, PartitionInfo};

#[test]
fn parses_both_max_download_size_spellings() {
    assert_eq!(parse_size("0x7000000"), Some(0x7000000));
    assert_eq!(parse_size("0X7000000"), Some(0x7000000));
    assert_eq!(parse_size("117440512"), Some(117440512));
    assert_eq!(parse_size("0"), None);
    assert_eq!(parse_size("nonsense"), None);
}

#[test]
fn download_limit_falls_back() {
    assert_eq!(max_download_size(Some(" 0x100000\n")), 0x100000);
    assert_eq!(max_download_size(Some("0")), DEFAULT_MAX_DOWNLOAD_BYTES);
    assert_eq!(max_download_size(Some("lots")), DEFAULT_MAX_DOWNLOAD_BYTES);
    assert_eq!(max_download_size(None), 0x7000000);
}

#[test]
fn drops_vendor_only_commands() {
    assert_eq!(translate_vendor_command("amlmmc key"), None);
    assert_eq!(translate_vendor_command("amlmmc part 1"), None);
    assert_eq!(translate_vendor_command("disk_initial 0"), None);
}

#[test]
fn remaps_the_vendor_emmc_device_number() {
    assert_eq!(translate_vendor_command("mmc dev 1").as_deref(), Some("mmc dev 0 0"));
    assert_eq!(translate_vendor_command("amlmmc dev 1").as_deref(), Some("mmc dev 0 0"));
}

#[test]
fn rewrites_amlmmc_to_mmc_and_passes_everything_else_through() {
    assert_eq!(
        translate_vendor_command("amlmmc write bootloader 0x1080000 0x0 0x1000").as_deref(),
        Some("mmc write bootloader 0x1080000 0x0 0x1000")
    );
    assert_eq!(translate_vendor_command("  saveenv  ").as_deref(), Some("saveenv"));
}

#[test]
fn vendor_commands_are_told_in_any_case() {
    assert_eq!(translate_vendor_command("AMLMMC KEY"), None);
    assert_eq!(translate_vendor_command("MMC Dev 1").as_deref(), Some("mmc dev 0 0"));
    // only the lower-case spelling of the prefix is rewritten
    assert_eq!(translate_vendor_command("AMLMMC read x").as_deref(), Some("AMLMMC read x"));
}

#[test]
fn only_the_vendor_device_is_renumbered() {
    assert_eq!(translate_vendor_command("mmc dev 10").as_deref(), Some("mmc dev 10"));
    for command in ["mmc dev 1 2", "mmc dev 1\t0", "mmc dev 1;mmc part", "MMC Dev 1", "amlmmc dev 1\t"] {
        assert_eq!(translate_vendor_command(command).as_deref(), Some("mmc dev 0 0"));
    }
    assert_eq!(translate_vendor_command("amlmmc dev 1 0").as_deref(), Some("mmc dev 0 0"));
    assert_eq!(translate_vendor_command("amlmmc dev 12").as_deref(), Some("mmc dev 12"));
}

#[test]
fn vendor_only_commands_are_dropped_in_any_case() {
    for command in ["AMLMMC Key", "Disk_Initial 0", " amlmmc partition", "amlmmc \u{212a}ey"] {
        assert_eq!(translate_vendor_command(command), None);
    }
}

#[test]
fn rewritten_commands_stay_as_they_are() {
    let ascii = [" amlmmc dev 1 ", "amlmmc read x", "amlmmc", "AMLMMC read x", "mmc dev 10", " saveenv", ""];
    let others = ["amlmmc \u{c9}\u{3a3}", "\u{a0}amlmmc dev \u{ff11}", "\u{c9}cho \u{1e9e}", "mmc dev \u{130}"];
    for command in ascii.into_iter().chain(others) {
        let line = translate_vendor_command(command).unwrap();
        assert_eq!(translate_vendor_command(&line).as_deref(), Some(line.as_str()));
        assert_eq!(translate_vendor_command(command.trim()).as_deref(), Some(line.as_str()));
        assert_eq!(line.trim(), line);
        assert!(!line.starts_with("amlmmc"));
    }
}

#[test]
fn console_output_is_checked_for_complaints() {
    assert!(complains("Unknown command 'env' - try 'help'"));
    assert!(complains("## Error: failed to import"));
    assert!(!complains("Saving Environment to FAT... OK"));
}

#[test]
fn console_commands_have_to_be_known() {
    assert!(judge_console("mmc part", "Partition Map for MMC device 0").is_ok());
    match judge_console("say \"hi\"", "UNKNOWN Command 'say'") {
        Err(Error::InvalidOperation(text)) => {
            assert_eq!(text, "the bootloader does not understand \"say \\\"hi\\\"\"")
        }
        _ => panic!("expected a complaint"),
    }
    for output in ["## Error: failed to import\n", " write FAILED "] {
        match judge_console("saveenv", output) {
            Err(Error::InvalidOperation(text)) => {
                assert_eq!(text, format!("the bootloader complained: {}", output.trim()))
            }
            _ => panic!("expected a complaint"),
        }
    }
}

fn s(text: &str) -> String {
    text.to_owned()
}

#[test]
fn commands_are_spelled_out() {
    assert_eq!(Command::GetVar { name: s("product") }.render(), "getvar:product");
    assert_eq!(Command::Download { size: 0x1234 }.render(), "download:00001234");
    assert_eq!(Command::Flash { partition: s("ft") }.render(), "flash:ft");
    assert_eq!(Command::Erase { partition: s("ft") }.render(), "erase:ft");
    assert_eq!(Command::Console { line: s("mmc part") }.render(), "oem console mmc part");
    assert_eq!(Command::DrainConsole.render(), "oem console");
    assert_eq!(
        Command::SetRawTarget { alias: s("ft"), start_lba: 3256496, sectors: 4476752 }.render(),
        "oem console setenv fastboot_raw_partition_ft 3256496 4476752"
    );
    assert_eq!(
        Command::ClearRawTarget { alias: s("ft") }.render(),
        "oem console setenv fastboot_raw_partition_ft"
    );
    assert_eq!(Command::ImportEnv { size: 12 }.render(), "oem console env import -t 0x6000000 12");
    assert_eq!(Command::SaveEnv.render(), "oem console saveenv");
    assert_eq!(Command::Reboot.render(), "reboot");
    assert_eq!(Command::RebootBootloader.render(), "reboot-bootloader");
    assert_eq!(Command::RebootMaskrom.render(), "oem maskrom");
    assert_eq!(Command::Continue.render(), "continue");
    assert_eq!(Command::SetActive { slot: s("a") }.render(), "set_active:a");
    assert_eq!(Command::Flash { partition: s("ft") }.reply_millis(), COMMIT_MILLIS);
    assert_eq!(Command::GetVar { name: s("x") }.reply_millis(), COMMAND_MILLIS);
}

#[test]
fn raw_targets_fit_the_command_limit() {
    let widest = Command::SetRawTarget { alias: s("ft"), start_lba: 9999999999, sectors: 99999999 }.render();
    assert_eq!(widest.len(), 64);
    assert_eq!(encode_command(&widest).unwrap(), widest.as_bytes());
}

#[test]
fn long_commands_are_refused() {
    let line = "x".repeat(65);
    match encode_command(&line) {
        Err(Error::Fastboot { command, reason }) => {
            assert_eq!(command, line);
            assert_eq!(reason, "command is 65 bytes, over the 64-byte fastboot limit");
        }
        _ => panic!("expected a refusal"),
    }
}

#[test]
fn hwpart_selection_is_bounded() {
    assert_eq!(select_hwpart(2).unwrap().render(), "oem console mmc dev 0 2");
    match select_hwpart(3) {
        Err(Error::InvalidOperation(text)) => assert_eq!(text, "eMMC hwpart must be 0, 1 or 2, got 3"),
        _ => panic!("expected a refusal"),
    }
}

fn feed(packets: &[&[u8]]) -> Result<FastbootReply, Error> {
    let mut reader = ReplyReader::new();
    for packet in packets {
        match reader.accept("cmd", packet_text(packet)) {
            ReplyStep::More(next) => reader = next,
            ReplyStep::Complete(reply) => return Ok(reply),
            ReplyStep::Failed(e) => return Err(e),
        }
    }
    panic!("the reply did not end")
}

#[test]
fn replies_collect_their_lines() {
    let reply = feed(&[b"INFOone", b"TEXT and more", b"INFOtwo", b"OKAYdone"]).unwrap();
    assert!(reply.ok);
    assert_eq!(reply.info, ["one and more", "two"]);
    assert_eq!(reply.text(), "one and more\ntwo");
    assert_eq!(reply.response, "done");
    assert_eq!(expect_okay("cmd", reply).unwrap().response, "done");

    let reply = feed(&[b"TEXTalone", b"FAILnope"]).unwrap();
    assert!(!reply.ok);
    assert_eq!(reply.text(), "alone");
    match expect_okay("cmd", reply) {
        Err(Error::Fastboot { command, reason }) => assert_eq!((command.as_str(), reason.as_str()), ("cmd", "nope")),
        _ => panic!("expected a failure"),
    }
}

#[test]
fn odd_replies_are_errors() {
    match feed(&[b"OKA"]) {
        Err(Error::Fastboot { reason, .. }) => assert_eq!(reason, "device sent a truncated reply"),
        _ => panic!("expected a failure"),
    }
    match feed(&[b"NO\"Pe"]) {
        Err(Error::Fastboot { reason, .. }) => assert_eq!(reason, "unexpected reply tag \"NO\\\"P\""),
        _ => panic!("expected a failure"),
    }
    match unexpected_tag("cmd", "\"WHAT\"") {
        Error::Fastboot { command, reason } => {
            assert_eq!((command.as_str(), reason.as_str()), ("cmd", "unexpected reply tag \"WHAT\""))
        }
        _ => panic!("expected a failure"),
    }
    // two replacement characters take six bytes, so the fourth byte falls into the second one
    assert!(matches!(packet_text(b"\xff\xff\xff\xff"), Packet::Garbled));
    assert!(matches!(packet_text(b"OKAY\xff"), Packet::Text(text) if text == "OKAY\u{fffd}"));
}

#[test]
fn unintelligible_replies_are_errors() {
    for packet in [packet_text(b"\xff\xff\xff\xff"), Packet::Text(s("OKA\u{e9}"))] {
        match ReplyReader::new().accept("reboot", packet) {
            ReplyStep::Failed(Error::Fastboot { command, reason }) => {
                assert_eq!(command, "reboot");
                assert_eq!(reason, "device sent an unintelligible reply");
            }
            _ => panic!("expected a failure"),
        }
    }
    for packet in [packet_text(b"\xff\xff\xff\xff"), Packet::Text(s("DATA0000000\u{e9}"))] {
        let (mut run, _) = Download::download(4).unwrap();
        run.resume(DownloadReply::Done);
        match run.resume(DownloadReply::Packet(packet)) {
            DownloadAction::Finish(Outcome::Failed(Error::Fastboot { command, reason })) => {
                assert_eq!(command, "download:00000004");
                assert_eq!(reason, "device sent an unintelligible reply");
            }
            _ => panic!("expected a failure"),
        }
    }
    let (mut run, _) = Download::download(1).unwrap();
    run.resume(DownloadReply::Done);
    run.resume(text_packet("DATA00000001"));
    run.resume(DownloadReply::Done);
    run.resume(DownloadReply::Done);
    assert!(matches!(
        run.resume(DownloadReply::Packet(Packet::Garbled)),
        DownloadAction::Finish(Outcome::Failed(Error::Fastboot { .. }))
    ));
}

#[test]
fn download_answers_have_to_match() {
    assert!(judge_ack("DATA00001000", "", 0x1000, "download:00001000").is_ok());
    assert!(judge_ack("DATA1000 \n", "", 0x1000, "c").is_ok());
    let reason = |ack: &str, quoted: &str| match judge_ack(ack, quoted, 16, "c") {
        Err(Error::Fastboot { reason, .. }) => reason,
        _ => panic!("expected a failure"),
    };
    assert_eq!(reason("DATA00000011", ""), "device accepted 17 bytes but we offered 16");
    assert_eq!(reason("DATAzz", "\"DATAzz\""), "could not parse the DATA reply \"DATAzz\"");
    assert_eq!(reason("FAILtoo large", ""), "too large");
    assert!(check_ack("DATA00001000 trailing"));
    assert!(!check_ack("DATA0000000\u{e9}"));
}

fn text_packet(text: &str) -> DownloadReply {
    DownloadReply::Packet(packet_text(text.as_bytes()))
}

#[test]
fn downloads_go_out_in_slices() {
    let size = 2 * 1048576 + 5;
    let (mut run, action) = Download::download(size).unwrap();
    assert!(matches!(action, DownloadAction::Send { line } if line == "download:00200005"));
    assert!(matches!(run.resume(DownloadReply::Done), DownloadAction::ReadPacket));
    let mut action = run.resume(text_packet("DATA00200005"));
    let mut seen = 0;
    let mut reports = Vec::new();
    loop {
        match action {
            DownloadAction::Slice { from, to } => {
                assert_eq!(from, seen);
                assert!(to > from && to - from <= 1048576);
                seen = to;
                action = run.resume(DownloadReply::Done);
            }
            DownloadAction::Report { sent } => {
                reports.push(sent);
                action = run.resume(DownloadReply::Done);
            }
            DownloadAction::ReadPacket => break,
            _ => panic!("unexpected action"),
        }
    }
    assert_eq!(seen, size);
    assert_eq!(reports, [1048576, 2097152, size]);
    assert!(matches!(run.resume(text_packet("INFOhm")), DownloadAction::ReadPacket));
    assert!(matches!(run.resume(text_packet("OKAY")), DownloadAction::Finish(Outcome::Done)));
}

#[test]
fn downloads_fail_as_they_should() {
    match Download::download(0) {
        Err(Error::InvalidOperation(text)) => assert_eq!(text, "refusing to download an empty image"),
        _ => panic!("expected a refusal"),
    }
    let (mut run, _) = Download::download(4).unwrap();
    run.resume(DownloadReply::Done);
    match run.resume(text_packet("DATAq")) {
        DownloadAction::Finish(Outcome::Failed(Error::Fastboot { command, reason })) => {
            assert_eq!(command, "download:00000004");
            assert_eq!(reason, "could not parse the DATA reply \"DATAq\"");
        }
        _ => panic!("expected a failure"),
    }
    let (mut run, _) = Download::download(4).unwrap();
    assert!(matches!(run.resume(DownloadReply::Failed), DownloadAction::Finish(Outcome::Rethrow)));
}

#[test]
fn environments_are_imported_and_saved() {
    let (mut run, action) = EnvWrite::write_env("a=1", true).unwrap();
    assert!(matches!(action, EnvAction::Download { data } if data == b"a=1\n"));
    let line = |action: EnvAction| match action {
        EnvAction::Console(command) => command.render(),
        _ => panic!("expected a command"),
    };
    assert_eq!(line(run.resume(EnvReply::Done)), "oem console env import -t 0x6000000 4");
    assert_eq!(line(run.resume(EnvReply::Output(s("")))), "oem console saveenv");
    assert!(matches!(run.resume(EnvReply::Output(s("OK"))), EnvAction::Finish(Outcome::Done)));

    let (_, action) = EnvWrite::write_env("a=1\n", false).unwrap();
    assert!(matches!(action, EnvAction::Download { data } if data == b"a=1\n"));
}

#[test]
fn environment_complaints_are_errors() {
    assert!(matches!(
        EnvWrite::write_env("caf\u{e9}=1", true),
        Err(Error::InvalidOperation(text)) if text == "env data must be ascii"
    ));
    let (mut run, _) = EnvWrite::write_env("a=1", true).unwrap();
    run.resume(EnvReply::Done);
    let mut saving = run;
    match run.resume(EnvReply::Output(s(" ## Error: bad \n"))) {
        EnvAction::Finish(Outcome::Failed(Error::InvalidOperation(text))) => {
            assert_eq!(text, "the bootloader rejected the environment: ## Error: bad")
        }
        _ => panic!("expected a failure"),
    }
    saving.resume(EnvReply::Output(s("")));
    match saving.resume(EnvReply::Output(s("Saving... FAILED"))) {
        EnvAction::Finish(Outcome::Failed(Error::InvalidOperation(text))) => {
            assert_eq!(text, "saving the environment failed: Saving... FAILED")
        }
        _ => panic!("expected a failure"),
    }
}

fn table() -> Vec<Partition> {
    vec![
        Partition { name: s("boot_a"), info: PartitionInfo { offset: 1000, size: 4, size_alt: None } },
        Partition { name: s("any"), info: PartitionInfo { offset: 2000, size: 0, size_alt: None } },
    ]
}

fn inline() -> DataOrFile {
    DataOrFile::Data(vec![1, 2, 3])
}

fn start(step: FlashStep) -> (StepRun, StepAction) {
    match StepRun::run_step(step, false, &table()) {
        Ok(started) => started,
        Err(_) => panic!("the step was refused"),
    }
}

#[test]
fn bootloader_restores_write_all_three_copies() {
    let (run, action) =
        start(FlashStep::RestorePartition { value: RestorePartitionValue { name: s("bootloader"), data: inline() } });
    assert!(matches!(action, StepAction::ReadAll { .. }));
    let (run, action) = run.resume(StepReply::Bytes(vec![9; 100]));
    let image = match action {
        StepAction::WriteBytes { start_lba: 0, data, sparse: false } => data,
        _ => panic!("expected the user area"),
    };
    assert_eq!(image.len(), 612);
    let (run, action) = run.resume(StepReply::Done);
    assert!(matches!(action, StepAction::WriteHwpart { hwpart: 1, image: sent } if sent == image));
    let (run, action) = run.resume(StepReply::Done);
    assert!(matches!(action, StepAction::WriteHwpart { hwpart: 2, image: sent } if sent == image));
    let (_, action) = run.resume(StepReply::Done);
    assert!(matches!(action, StepAction::Finish(Outcome::Done)));
}

#[test]
fn stock_restores_are_bounded_by_the_table() {
    let step = |name: &str| FlashStep::RestorePartition {
        value: RestorePartitionValue { name: s(name), data: inline() },
    };
    let (run, _) = start(step("boot_a"));
    let (_, action) = run.resume(StepReply::Opened { size: 2048 });
    assert!(matches!(action, StepAction::WriteOpen { start_lba: 1000, size: 2048, sparse: false, .. }));
    let (run, _) = start(step("boot_a"));
    match run.resume(StepReply::Opened { size: 2049 }).1 {
        StepAction::Finish(Outcome::Failed(Error::InvalidOperation(text))) => {
            assert_eq!(text, "boot_a image is 2049 bytes but the partition only holds 2048")
        }
        _ => panic!("expected a refusal"),
    }
    let (run, _) = start(step("any"));
    assert!(matches!(
        run.resume(StepReply::Opened { size: 99999 }).1,
        StepAction::WriteOpen { start_lba: 2000, size: 99999, .. }
    ));
    let (run, _) = start(step("rootfs"));
    assert!(matches!(
        run.resume(StepReply::Opened { size: 7 }).1,
        StepAction::WriteNamed { name, size: 7 } if name == "rootfs"
    ));
}

#[test]
fn user_area_writes_are_classified_at_lba_0() {
    let step = |lba: u32, sparse| FlashStep::WriteUserArea { value: WriteUserAreaValue { lba, data: inline(), sparse } };
    let (run, _) = start(step(0, Some(true)));
    let (run, action) = run.resume(StepReply::Opened { size: 4096 });
    assert!(matches!(action, StepAction::ReadHead { length: 512 }));
    match run.resume(StepReply::Bytes(vec![5; 512])).1 {
        StepAction::WriteOpen { start_lba: 0, lead, size, sparse: true } => {
            assert_eq!(lead.len(), 1024);
            assert_eq!(size, 4608);
        }
        _ => panic!("expected a write"),
    }
    let (run, _) = start(step(0, None));
    let (run, action) = run.resume(StepReply::Opened { size: 100 });
    assert!(matches!(action, StepAction::ReadHead { length: 100 }));
    match run.resume(StepReply::Bytes(vec![0x5a; 100])).1 {
        StepAction::WriteOpen { start_lba: 0, lead, size: 612, sparse: false } => {
            assert_eq!(&lead[..512], &info_sector());
            assert_eq!(&lead[512..], &[0x5a; 100]);
        }
        _ => panic!("expected a write"),
    }
    let (run, _) = start(step(5, None));
    assert!(matches!(
        run.resume(StepReply::Opened { size: 4096 }).1,
        StepAction::WriteOpen { start_lba: 5, size: 4096, sparse: false, .. }
    ));
    let forced = StepRun::run_step(step(5, Some(false)), true, &table());
    assert!(matches!(forced, Ok((StepRun::OpenUserArea { lba: 5, sparse: true }, _))));
}

#[test]
fn disk_addresses_have_to_be_sectors() {
    let step = |address| FlashStep::WriteLargeMemory {
        value: WriteLargeMemoryValue { address, data: inline(), block_length: 4096, append_zeros: None },
    };
    let (run, _) = start(step(1024));
    assert!(matches!(run.resume(StepReply::Opened { size: 9 }).1, StepAction::WriteOpen { start_lba: 2, .. }));
    match StepRun::run_step(step(0x201), false, &table()) {
        Err(Error::InvalidOperation(text)) => {
            assert_eq!(text, "writeLargeMemory address 0x201 is not a multiple of the 512-byte sector size")
        }
        _ => panic!("expected a refusal"),
    }
}

#[test]
fn boot_partition_steps_prepare_their_image() {
    let (run, _) =
        start(FlashStep::WriteBootPartition { value: WriteBootPartitionValue { hwpart: 2, data: inline() } });
    assert!(matches!(
        run.resume(StepReply::Bytes(vec![1; 8])).1,
        StepAction::WriteHwpart { hwpart: 2, image } if image.len() == 520
    ));
}

#[test]
fn vendor_commands_run_on_the_console() {
    let (run, action) = start(FlashStep::Bulkcmd { value: s("amlmmc erase x") });
    assert!(matches!(action, StepAction::Console { line } if line == "mmc erase x"));
    assert!(matches!(run.resume(StepReply::Text(s("fine"))).1, StepAction::Finish(Outcome::Done)));
    let (run, _) = start(FlashStep::BulkcmdStat { value: s("wat"), variable: None });
    match run.resume(StepReply::Text(s("Unknown command 'wat'"))).1 {
        StepAction::Finish(Outcome::Failed(Error::InvalidOperation(text))) => {
            assert_eq!(text, "the bootloader does not understand \"wat\"")
        }
        _ => panic!("expected a failure"),
    }
    let (run, _) = start(FlashStep::Bulkcmd { value: s("saveenv") });
    match run.resume(StepReply::Text(s("## Error: failed to import"))).1 {
        StepAction::Finish(Outcome::Failed(Error::InvalidOperation(text))) => {
            assert_eq!(text, "the bootloader complained: ## Error: failed to import")
        }
        _ => panic!("expected a failure"),
    }
    let (_, action) = start(FlashStep::Bulkcmd { value: s("amlmmc key") });
    assert!(matches!(action, StepAction::Finish(Outcome::Done)));
}

#[test]
fn identification_survives_a_silent_device() {
    let (run, action) = start(FlashStep::Identify { variable: None });
    assert!(matches!(action, StepAction::GetVar { name } if name == "version-bootloader"));
    let (run, action) = run.resume(StepReply::Text(s("2026.07\n")));
    assert!(matches!(action, StepAction::GetVar { name } if name == "product"));
    let (_, action) = run.resume(StepReply::Failed);
    assert!(matches!(action, StepAction::Note { text } if text == "device: unknown, bootloader 2026.07"));
}

#[test]
fn partition_sizes_come_from_the_table_or_the_device() {
    let step = |name: &str| FlashStep::ValidatePartitionSize {
        value: ValidatePartitionSizeValue { name: s(name) },
        variable: None,
    };
    assert!(matches!(start(step("boot_a")).1, StepAction::Note { text } if text == "boot_a: 4 sectors"));
    let (run, action) = start(step("rootfs"));
    assert!(matches!(action, StepAction::GetVar { name } if name == "partition-size:rootfs"));
    assert!(matches!(
        run.resume(StepReply::Text(s(" 0x1000 "))).1,
        StepAction::Note { text } if text == "rootfs: 0x1000"
    ));
}

#[test]
fn other_steps_are_run_skipped_or_refused() {
    assert!(matches!(start(FlashStep::Log { value: s("hi") }).1, StepAction::Note { text } if text == ">> \"hi\""));
    assert!(matches!(
        start(FlashStep::Wait { value: WaitValue::Time { time: 5 } }).1,
        StepAction::Sleep { millis: 5 }
    ));
    assert!(matches!(
        start(FlashStep::GetBootAMLC { variable: None }).1,
        StepAction::Finish(Outcome::Done)
    ));
    let (run, action) = start(FlashStep::WriteEnv {
        value: StringOrFile::File(MetaFile { file_path: s("env.txt"), encoding: None }),
    });
    assert!(matches!(action, StepAction::ReadText { .. }));
    assert!(matches!(run.resume(StepReply::Text(s("a=1"))).1, StepAction::WriteEnv { env } if env == "a=1"));
    let waiting = FlashStep::Wait { value: WaitValue::UserInput { message: s("press") } };
    assert!(matches!(
        StepRun::run_step(waiting, false, &table()),
        Err(Error::UnsupportedFeature(FlashStep::Wait { .. }))
    ));
    let reading = FlashStep::ReadLargeMemory { value: ReadMemoryValue { address: 0, length: 1 }, variable: None };
    assert!(matches!(
        StepRun::run_step(reading, false, &table()),
        Err(Error::UnsupportedFeature(FlashStep::ReadLargeMemory { .. }))
    ));
    let (run, _) = start(FlashStep::Log { value: s("hi") });
    assert!(matches!(run.resume(StepReply::Failed).1, StepAction::Finish(Outcome::Rethrow)));
}

/// CRC-32/ISO-HDLC, as U-Boot computes it.
fn crc32(input: &[u8]) -> u32 {
    let mut crc = 0xffff_ffffu32;
    for &byte in input {
        crc ^= byte as u32;
        for _ in 0..8 {
            crc = if crc & 1 != 0 { (crc >> 1) ^ 0xedb8_8320 } else { crc >> 1 };
        }
    }
    !crc
}

#[test]
fn crc32_matches_the_known_vectors() {
    assert_eq!(crc32(b""), 0x0000_0000);
    assert_eq!(crc32(b"123456789"), 0xcbf4_3926);
    assert_eq!(crc32(b"The quick brown fox jumps over the lazy dog"), 0x414f_a339);
}

#[test]
fn crc32_matches_what_the_device_computed() {
    let payload: Vec<u8> = (0..256u32).map(|i| (i % 251) as u8).collect();
    assert_eq!(crc32(&payload), 0x5708_a3cc);
}
