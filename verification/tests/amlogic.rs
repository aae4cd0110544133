use flashthing::amlogic::amlc::{
    amlc_ack, amlc_checksum, build_amls_block, get_boot_amlc, get_boot_amlc_reply, AmlcPacket, AmlcPacketAction,
    AmlcRequest, AmlcWrite, AmlcWriteAction, AmlcWriteReply,
};
use flashthing::amlogic::bootstrap::{Bl2Action, Bl2Reply, Bl2Stream, ADDR_BL2};
use flashthing::amlogic::command::{bulkcmd, bulkcmd_reply, judge_response, Command};
use flashthing::amlogic::memory::{
    identify, identify_reply, read_simple_memory, read_simple_memory_reply, run, write_memory, write_simple_memory,
    LargeWrite, MemoryRead,
};
use flashthing::amlogic::partition::{write_boot_partition, ScriptItem, ValidateAction, ValidateSize};
use flashthing::amlogic::steps::{
    conclude, lead_user_area, open_user_area, plan_step, restore_size, write_env, write_hwpart_step, BootloaderAction,
    BootloaderRestore, Operation, StepResult, UserAreaAction,
};
use flashthing::amlogic::stream::{StreamAction, StreamReply, StreamWrite, TRANSFER_SIZE_THRESHOLD};
use flashthing::amlogic::Reply;
use flashthing::boot_image::{info_sector, to_boot_image, BOOT_HWPART_BYTES, BOOT_IMAGE_BYTES};
use flashthing::config::{
    check_meta_version, DataOrFile, FlashStep, RestorePartitionValue, ValidatePartitionSizeValue, WaitValue,
    WriteLargeMemoryValue, WriteUserAreaValue,
};
use flashthing::error::{Error, Outcome};
use flashthing::flash::{FlashOutcome, FlashSession};
use flashthing::partitions::{find_partition, Partition, PartitionInfo};

fn refusal<T>(result: Result<T, Error>) -> String {
    match result {
        Err(Error::InvalidOperation(text)) => text,
        _ => panic!("expected a refusal"),
    }
}

#[test]
fn small_writes_carry_their_address() {
    let sent = write_simple_memory(0xd9000123, &[1, 2, 3]).unwrap();
    assert_eq!((sent.request, sent.value, sent.index), (0x01, 0xd900, 0x0123));
    assert_eq!(sent.data, [1, 2, 3]);
    assert!(write_simple_memory(0, &[0; 64]).is_ok());
    assert_eq!(refusal(write_simple_memory(0, &[0; 65])), "Maximum size of 64 bytes");
}

#[test]
fn memory_writes_are_cut_into_pieces() {
    let data: Vec<u8> = (0..150u8).collect();
    let pieces = write_memory(0xfff0, &data);
    assert_eq!(pieces.len(), 3);
    assert_eq!((pieces[0].value, pieces[0].index), (0, 0xfff0));
    assert_eq!((pieces[1].value, pieces[1].index), (1, 0x30));
    let joined: Vec<u8> = pieces.iter().flat_map(|piece| piece.data.clone()).collect();
    assert_eq!(joined, data);
    assert!(write_memory(5, &[]).is_empty());
}

#[test]
fn memory_reads_are_cut_into_pieces() {
    let wanted: Vec<u8> = (0..130u8).collect();
    let mut read = MemoryRead::read_memory(0x1000, 130);
    let mut lengths = Vec::new();
    while let Some(piece) = read.next() {
        lengths.push(piece.length);
        let at = (piece.address - 0x1000) as usize;
        read.accept(&wanted[at..at + piece.length]);
    }
    assert_eq!(lengths, [64, 64, 2]);
    assert_eq!(read.data, wanted);
}

#[test]
fn small_reads_have_to_be_complete() {
    assert!(read_simple_memory(0, 0).unwrap().is_none());
    let asked = read_simple_memory(0x12345678, 8).unwrap().unwrap();
    assert_eq!((asked.request, asked.value, asked.index, asked.length), (0x02, 0x1234, 0x5678, 8));
    assert_eq!(refusal(read_simple_memory(0, 65)), "Maximum size of 64 bytes");
    assert_eq!(read_simple_memory_reply(vec![1, 2], 2).unwrap(), [1, 2]);
    assert_eq!(refusal(read_simple_memory_reply(vec![1, 2], 1)), "Incomplete read");
}

#[test]
fn runs_keep_the_power_on() {
    assert_eq!(run(0xfffa0000, None).data, [0x10, 0x00, 0xfa, 0xff]);
    assert_eq!(run(0xfffa0000, Some(true)).data, [0x10, 0x00, 0xfa, 0xff]);
    let plain = run(0xfffa0000, Some(false));
    assert_eq!((plain.request, plain.value, plain.index), (0x05, 0xfffa, 0));
    assert_eq!(plain.data, [0, 0, 0xfa, 0xff]);
}

#[test]
fn identification_is_eight_bytes_of_text() {
    assert_eq!((identify().request, identify().length), (0x20, 8));
    assert_eq!(identify_reply(b"GX-CHIP!".to_vec(), 8).unwrap(), "GX-CHIP!");
    assert_eq!(refusal(identify_reply(vec![0; 8], 7)), "Failed to read identify data");
    assert!(matches!(identify_reply(vec![0xff; 8], 8), Err(Error::Utf8Error(_))));
}

#[test]
fn large_writes_are_padded_to_blocks() {
    let plan = LargeWrite::write_large_memory(0x1080000, &[9; 5000], 4096, true).unwrap();
    assert_eq!((plan.header.request, plan.header.value, plan.header.index), (0x11, 4096, 2));
    assert_eq!(plan.header.data, [0, 0, 8, 1, 0, 0x20, 0, 0, 0, 0, 0, 0, 0, 0, 0, 0]);
    assert_eq!(plan.body.len(), 8192);
    assert_eq!(&plan.body[..5000], &[9; 5000][..]);
    assert!(plan.body[5000..].iter().all(|&byte| byte == 0));
    assert_eq!(plan.block(0).unwrap(), &plan.body[..4096]);
    assert_eq!(plan.block(4096).unwrap(), &plan.body[4096..]);
    assert!(plan.block(8192).is_none());
    assert_eq!(
        refusal(LargeWrite::write_large_memory(0, &[9; 5000], 4096, false)),
        "Large Data must be a multiple of block length"
    );
    assert_eq!(LargeWrite::write_large_memory(0, &[9; 4096], 4096, false).unwrap().body.len(), 4096);
}

#[test]
fn checksums_add_up_words() {
    assert_eq!(amlc_checksum(&[]), 0);
    assert_eq!(amlc_checksum(&[1, 0, 0, 0, 2, 0, 0, 0]), 3);
    assert_eq!(amlc_checksum(&[0xff, 0xff, 0xff, 0xff, 2, 0, 0, 0]), 1);
    assert_eq!(amlc_checksum(&[1, 2, 3, 4, 5]), 0x04030206);
    assert_eq!(amlc_checksum(&[1, 2, 3, 4, 5, 6]), 0x04030806);
    assert_eq!(amlc_checksum(&[1, 2, 3, 4, 5, 6, 7]), 0x040a0806);
}

#[test]
fn closing_blocks_carry_sequence_and_checksum() {
    let data: Vec<u8> = (0..=255u8).cycle().take(600).collect();
    let block = build_amls_block(7, &data);
    assert_eq!(block.len(), 512);
    assert_eq!(&block[..8], b"AMLS\x07\0\0\0");
    assert_eq!(&block[8..12], &amlc_checksum(&data).to_le_bytes());
    assert_eq!(&block[12..16], &[0; 4]);
    assert_eq!(&block[16..], &data[16..512]);
    let short = build_amls_block(0, &[1; 20]);
    assert_eq!(&short[16..20], &[1; 4]);
    assert!(short[20..].iter().all(|&byte| byte == 0));
}

#[test]
fn requests_are_tagged() {
    assert_eq!((get_boot_amlc().request, get_boot_amlc().value), (0x50, 512));
    let mut reply = vec![0u8; 512];
    reply[..4].copy_from_slice(b"AMLC");
    reply[8..12].copy_from_slice(&0x4000u32.to_le_bytes());
    reply[12..16].copy_from_slice(&0x10000u32.to_le_bytes());
    let request = get_boot_amlc_reply(&reply).unwrap();
    assert_eq!((request.length, request.offset), (0x4000, 0x10000));
    assert_eq!(refusal(get_boot_amlc_reply(&reply[..511])), "No amlc data received");
    reply[0] = b'X';
    assert_eq!(refusal(get_boot_amlc_reply(&reply)), "invalid amlc request: XMLC");
    reply[0] = 0xff;
    assert!(matches!(get_boot_amlc_reply(&reply), Err(Error::Utf8Error(_))));
    assert_eq!(amlc_ack(), b"OKAY\0\0\0\0\0\0\0\0\0\0\0\0");
}

#[test]
fn data_writes_go_out_in_chunks() {
    let (mut run, action) = AmlcWrite::write_amlc_data(0x10000, 0x5000);
    match action {
        AmlcWriteAction::Announce(sent) => {
            assert_eq!((sent.request, sent.value, sent.index), (0x60, 0x80, 0x4fff));
            assert!(sent.data.is_empty());
        }
        _ => panic!("expected an announcement"),
    }
    assert!(matches!(run.resume(AmlcWriteReply::Done), AmlcWriteAction::Send { from: 0, to: 0x4000 }));
    assert!(matches!(run.resume(AmlcWriteReply::Sent(0x4000)), AmlcWriteAction::Sleep { millis: 10 }));
    assert!(matches!(run.resume(AmlcWriteReply::Done), AmlcWriteAction::Send { from: 0x4000, to: 0x5000 }));
    // a short transfer is tried again
    assert!(matches!(run.resume(AmlcWriteReply::Sent(5)), AmlcWriteAction::Sleep { millis: 100 }));
    assert!(matches!(run.resume(AmlcWriteReply::Done), AmlcWriteAction::Send { from: 0x4000, to: 0x5000 }));
    assert!(matches!(run.resume(AmlcWriteReply::Sent(0x1000)), AmlcWriteAction::Sleep { millis: 10 }));
    assert!(matches!(run.resume(AmlcWriteReply::Done), AmlcWriteAction::ReadAck));
    assert!(matches!(run.resume(AmlcWriteReply::Failed), AmlcWriteAction::Sleep { millis: 100 }));
    assert!(matches!(run.resume(AmlcWriteReply::Done), AmlcWriteAction::ReadAck));
    assert!(matches!(
        run.resume(AmlcWriteReply::Ack(b"OKAYxx".to_vec())),
        AmlcWriteAction::Finish(Outcome::Done)
    ));
}

#[test]
fn data_writes_fail_after_three_tries() {
    let (mut run, _) = AmlcWrite::write_amlc_data(0, 4);
    run.resume(AmlcWriteReply::Done);
    for _ in 0..2 {
        assert!(matches!(run.resume(AmlcWriteReply::Failed), AmlcWriteAction::Sleep { millis: 100 }));
        assert!(matches!(run.resume(AmlcWriteReply::Done), AmlcWriteAction::Send { .. }));
    }
    let mut short = run;
    assert!(matches!(run.resume(AmlcWriteReply::Failed), AmlcWriteAction::Sleep { millis: 100 }));
    assert!(matches!(run.resume(AmlcWriteReply::Done), AmlcWriteAction::Finish(Outcome::Rethrow)));
    // a third short transfer counts as sent
    assert!(matches!(short.resume(AmlcWriteReply::Sent(1)), AmlcWriteAction::Sleep { millis: 100 }));
    assert!(matches!(short.resume(AmlcWriteReply::Done), AmlcWriteAction::Sleep { millis: 10 }));
    assert!(matches!(short.resume(AmlcWriteReply::Done), AmlcWriteAction::ReadAck));
    let mut silent = short;
    for _ in 0..2 {
        silent.resume(AmlcWriteReply::Ack(vec![1]));
        assert!(matches!(silent.resume(AmlcWriteReply::Done), AmlcWriteAction::ReadAck));
    }
    silent.resume(AmlcWriteReply::Failed);
    match silent.resume(AmlcWriteReply::Done) {
        AmlcWriteAction::Finish(Outcome::Failed(Error::InvalidOperation(text))) => {
            assert_eq!(text, "no acknowledgment received")
        }
        _ => panic!("expected a failure"),
    }
    match short.resume(AmlcWriteReply::Ack(b"NOPE".to_vec())) {
        AmlcWriteAction::Finish(Outcome::Failed(Error::InvalidOperation(text))) => {
            assert_eq!(text, "invalid amlc data write ack: NOPE")
        }
        _ => panic!("expected a failure"),
    }
}

#[test]
fn packets_end_with_their_block() {
    let data: Vec<u8> = vec![3; 65536 + 10];
    let (mut packet, action) = AmlcPacket::write_amlc_data_packet(2, 0x20000, data.clone());
    assert!(matches!(action, AmlcPacketAction::Write { offset: 0, from: 0, to: 65536 }));
    assert!(matches!(packet.resume(Reply::Done), AmlcPacketAction::Sleep { millis: 50 }));
    assert!(matches!(
        packet.resume(Reply::Done),
        AmlcPacketAction::Write { offset: 65536, from: 65536, to: 65546 }
    ));
    packet.resume(Reply::Done);
    match packet.resume(Reply::Done) {
        AmlcPacketAction::Close { offset, block } => {
            assert_eq!(offset, 0x20000);
            assert_eq!(block, build_amls_block(2, &data));
        }
        _ => panic!("expected the closing block"),
    }
    assert!(matches!(packet.resume(Reply::Done), AmlcPacketAction::Finish(Outcome::Done)));
    let (mut packet, action) = AmlcPacket::write_amlc_data_packet(0, 5, Vec::new());
    assert!(matches!(action, AmlcPacketAction::Close { offset: 5, .. }));
    assert!(matches!(packet.resume(Reply::Failed), AmlcPacketAction::Finish(Outcome::Rethrow)));
}

fn started_stream(length: usize) -> Bl2Stream {
    let (mut stream, action) = Bl2Stream::bl2_stream(length);
    assert!(matches!(action, Bl2Action::Announce));
    assert!(matches!(stream.resume(Bl2Reply::Done), Bl2Action::Load { address: ADDR_BL2, block_length: 4096 }));
    assert!(matches!(stream.resume(Bl2Reply::Done), Bl2Action::Run { address: ADDR_BL2 }));
    assert!(matches!(stream.resume(Bl2Reply::Done), Bl2Action::Sleep { millis: 2000 }));
    assert!(matches!(stream.resume(Bl2Reply::Done), Bl2Action::Ask));
    stream
}

#[test]
fn boots_serve_requests_until_one_repeats() {
    let mut stream = started_stream(1000);
    let request = |length, offset| Bl2Reply::Request(AmlcRequest { length, offset });
    assert!(matches!(
        stream.resume(request(512, 256)),
        Bl2Action::Send { seq: 0, offset: 256, from: 256, to: 768 }
    ));
    assert!(matches!(stream.resume(Bl2Reply::Done), Bl2Action::Sleep { millis: 100 }));
    assert!(matches!(stream.resume(Bl2Reply::Done), Bl2Action::Ask));
    assert!(matches!(
        stream.resume(request(512, 768)),
        Bl2Action::Send { seq: 1, offset: 768, from: 768, to: 1000 }
    ));
    stream.resume(Bl2Reply::Done);
    stream.resume(Bl2Reply::Done);
    assert!(matches!(
        stream.resume(request(512, 2000)),
        Bl2Action::Send { seq: 2, offset: 2000, from: 0, to: 0 }
    ));
    stream.resume(Bl2Reply::Done);
    stream.resume(Bl2Reply::Done);
    assert!(matches!(stream.resume(request(512, 2000)), Bl2Action::Finish(Outcome::Done)));
}

#[test]
fn boots_give_up() {
    let mut stream = started_stream(1000);
    for _ in 0..2 {
        assert!(matches!(stream.resume(Bl2Reply::Failed), Bl2Action::Sleep { millis: 500 }));
        assert!(matches!(stream.resume(Bl2Reply::Done), Bl2Action::Ask));
    }
    assert!(matches!(stream.resume(Bl2Reply::Failed), Bl2Action::Finish(Outcome::Rethrow)));

    let mut stream = started_stream(1000);
    for i in 0..50u32 {
        stream.resume(Bl2Reply::Request(AmlcRequest { length: 1, offset: i }));
        stream.resume(Bl2Reply::Done);
        let action = stream.resume(Bl2Reply::Done);
        if i < 49 {
            assert!(matches!(action, Bl2Action::Ask));
        } else {
            match action {
                Bl2Action::Finish(Outcome::Failed(Error::InvalidOperation(text))) => {
                    assert_eq!(text, "maximum iterations reached in bl2_boot")
                }
                _ => panic!("expected a failure"),
            }
        }
    }
}

#[test]
fn vendor_commands_are_spelled_out() {
    let name = || "boot_a".to_owned();
    assert_eq!(Command::SelectDevice.render(), "mmc dev 1");
    assert_eq!(Command::SelectHwpart { hwpart: 2 }.render(), "mmc dev 1 2");
    assert_eq!(Command::UnlockKey.render(), "amlmmc key");
    assert_eq!(Command::WriteSectors { lba: 0xab, sectors: 0x4000 }.render(), "mmc write 0x1080000 0xAB 0x4000");
    assert_eq!(Command::WriteBoot { sectors: 0x1f }.render(), "mmc write 0x1080000 0 0x1F");
    assert_eq!(Command::EraseSectors { lba: 0, sectors: 0x2000 }.render(), "mmc erase 0x0 0x2000");
    assert_eq!(
        Command::ReadPartition { name: name(), offset: 0xab00, length: 512 }.render(),
        "amlmmc read boot_a 0x1080000 0xab00 0x200"
    );
    assert_eq!(
        Command::WritePartition { name: name(), offset: 0, length: 0xabc }.render(),
        "amlmmc write boot_a 0x1080000 0x0 0xabc"
    );
    assert_eq!(Command::InitEnv.render(), "amlmmc env");
    assert_eq!(Command::ImportEnv { size: 0xff }.render(), "env import -t 0x1080000 0xFF");
    let sent = bulkcmd("mmc dev 1");
    assert_eq!((sent.request, sent.value, sent.index), (0x34, 0, 0));
    assert_eq!(sent.data, b"mmc dev 1\0");
}

#[test]
fn responses_have_to_report_success() {
    assert_eq!(bulkcmd_reply(b"\0\0[Success] ok\0\0\0").unwrap(), "[Success] ok");
    assert_eq!(refusal(bulkcmd_reply(b"")), "No response received for bulk command");
    assert_eq!(
        refusal(bulkcmd_reply(b"failed:\0")),
        "Bulk command failed, response did not contain 'success': failed:"
    );
    assert_eq!(
        refusal(bulkcmd_reply(&[0; 8])),
        "Bulk command failed, response did not contain 'success': "
    );
    assert!(matches!(bulkcmd_reply(b"\xffsuccess"), Err(Error::Utf8Error(_))));
    assert_eq!(judge_response("A".to_owned(), "success").unwrap(), "A");
    assert!(judge_response("success".to_owned(), "other").is_err());
}

/// A device whose commands work on a disk and a staging area.
struct Device {
    disk: Vec<u8>,
    staged: Vec<u8>,
    failures: usize,
    slow: bool,
    lines: Vec<String>,
    slept: Vec<u64>,
}

impl Device {
    fn new(size: usize) -> Device {
        Device {
            disk: vec![0xee; size],
            staged: Vec::new(),
            failures: 0,
            slow: false,
            lines: Vec::new(),
            slept: Vec::new(),
        }
    }

    fn run(&mut self, command: Command) -> StreamReply {
        self.lines.push(command.render());
        match command {
            Command::WriteSectors { lba, sectors } => {
                if self.failures > 0 {
                    self.failures -= 1;
                    return StreamReply::Failed;
                }
                let (at, count) = (lba as usize * 512, sectors as usize * 512);
                self.disk[at..at + count].copy_from_slice(&self.staged[..count]);
            }
            Command::EraseSectors { lba, sectors } => {
                self.disk[lba as usize * 512..(lba + sectors) as usize * 512].fill(0);
            }
            Command::WritePartition { offset, length, .. } => {
                if self.failures > 0 {
                    self.failures -= 1;
                    return StreamReply::Failed;
                }
                let (at, count) = (offset as usize, length as usize);
                self.disk[at..at + count].copy_from_slice(&self.staged[..count]);
            }
            _ => {}
        }
        StreamReply::Ran { nanos: if self.slow { 3000000001 } else { 3000000000 } }
    }

    fn stream(&mut self, started: (StreamWrite, StreamAction), payload: &[u8]) -> Outcome {
        let (mut run, mut action) = started;
        let mut at = 0;
        loop {
            let reply = match action {
                StreamAction::Run(command) => self.run(command),
                StreamAction::Read { length } => {
                    let data = payload[at..at + length].to_vec();
                    at += length;
                    StreamReply::Payload(data)
                }
                StreamAction::Stage { data, block_length, append_zeros } => {
                    match LargeWrite::write_large_memory(0x1080000, &data, block_length, append_zeros) {
                        Ok(plan) => {
                            self.staged = plan.body;
                            StreamReply::Done
                        }
                        Err(_) => StreamReply::Failed,
                    }
                }
                StreamAction::Sleep { millis } => {
                    self.slept.push(millis);
                    StreamReply::Done
                }
                StreamAction::Report { .. } => StreamReply::Done,
                StreamAction::Finish(outcome) => return outcome,
            };
            action = run.resume(reply);
        }
    }
}

#[test]
fn user_area_streams_lay_down_the_payload() {
    let size = 2 * TRANSFER_SIZE_THRESHOLD + 4096;
    let mut payload = vec![0u8; size];
    payload[5] = 1;
    payload[size - 1] = 2;
    let mut wanted = vec![0xee; size + 4096];
    wanted[1024..1024 + size].copy_from_slice(&payload);
    for sparse in [false, true] {
        let mut device = Device::new(size + 4096);
        let outcome = device.stream(StreamWrite::write_user_area(2, size, sparse), &payload);
        assert!(matches!(outcome, Outcome::Done));
        assert!(device.disk == wanted);
        assert_eq!(&device.lines[..2], ["mmc dev 1 0", "amlmmc key"]);
        let writes = device.lines.iter().filter(|line| line.starts_with("mmc write")).count();
        assert_eq!(writes, 3);
        assert_eq!(device.lines.iter().any(|line| line == "mmc erase 0x2000 0x6000"), sparse);
    }
}

#[test]
fn sparse_streams_skip_erased_zeros() {
    let size = 3 * TRANSFER_SIZE_THRESHOLD;
    let payload = vec![0u8; size];
    let mut device = Device::new(size);
    assert!(matches!(device.stream(StreamWrite::write_user_area(0, size, true), &payload), Outcome::Done));
    assert!(device.disk == payload);
    assert_eq!(device.lines, ["mmc dev 1 0", "amlmmc key", "mmc erase 0x0 0xC000"]);
}

/// The last sector is inside the erased group although the payload fills it only in part.
#[test]
fn sparse_and_plain_streams_agree_in_the_last_sector() {
    let size = 8192 * 512 - 212;
    let payload = vec![3u8; size];
    let disks: Vec<Vec<u8>> = [false, true]
        .into_iter()
        .map(|sparse| {
            let mut device = Device::new(8193 * 512);
            assert!(matches!(device.stream(StreamWrite::write_user_area(0, size, sparse), &payload), Outcome::Done));
            assert_eq!(device.lines.iter().any(|line| line == "mmc erase 0x0 0x2000"), sparse);
            device.disk
        })
        .collect();
    assert!(disks[0] == disks[1]);
    assert!(disks[0][..size] == payload[..]);
}

#[test]
fn a_partial_last_sector_is_written() {
    let payload = vec![7u8; 1000];
    for block_length in [4096, 100] {
        let mut device = Device::new(2048);
        let started = StreamWrite::write_large_memory_to_disk(0, 1000, block_length, true);
        assert!(matches!(device.stream(started, &payload), Outcome::Done));
        assert_eq!(device.lines, ["mmc dev 1", "amlmmc key", "mmc write 0x1080000 0x0 0x2"]);
        assert_eq!(&device.disk[..1000], &payload[..]);
        assert_eq!(&device.disk[1000..1024], &[0; 24]);
        assert_eq!(&device.disk[1024..], &[0xee; 1024]);
    }
    let mut device = Device::new(2048);
    assert!(matches!(device.stream(StreamWrite::write_user_area(1, 513, false), &[7; 513]), Outcome::Done));
    assert_eq!(device.lines[2], "mmc write 0x1080000 0x1 0x2");
    assert_eq!(&device.disk[512..1025], &[7; 513]);
    assert_eq!(&device.disk[1025..1536], &[0; 511]);
}

#[test]
fn whole_blocks_need_no_padding() {
    let mut device = Device::new(2048);
    let started = StreamWrite::write_large_memory_to_disk(0, 1000, 100, false);
    assert!(matches!(device.stream(started, &[7; 1000]), Outcome::Done));
    assert_eq!(device.lines, ["mmc dev 1", "amlmmc key", "mmc write 0x1080000 0x0 0x2"]);
    assert_eq!(&device.disk[..1000], &[7; 1000]);
    assert_eq!(&device.disk[1000..1024], &[0; 24]);
    assert_eq!(&device.disk[1024..], &[0xee; 1024]);

    let started = StreamWrite::write_large_memory_to_disk(0, 1000, 512, false);
    assert!(matches!(device.stream(started, &[7; 1000]), Outcome::Rethrow));
    let started = StreamWrite::write_large_memory_to_disk(0, 1024, 512, false);
    assert!(matches!(device.stream(started, &[9; 1024]), Outcome::Done));
    assert_eq!(&device.disk[..1024], &[9; 1024]);
}

#[test]
fn failed_writes_are_tried_three_times() {
    let payload = vec![7u8; 512];
    let mut device = Device::new(1024);
    device.failures = 2;
    assert!(matches!(device.stream(StreamWrite::write_user_area(0, 512, false), &payload), Outcome::Done));
    assert_eq!(device.slept, [5000, 5000]);
    device.failures = 3;
    assert!(matches!(device.stream(StreamWrite::write_user_area(0, 512, false), &payload), Outcome::Rethrow));
    assert_eq!(device.slept, [5000, 5000, 5000, 5000]);
    device.slow = true;
    device.slept.clear();
    assert!(matches!(device.stream(StreamWrite::write_user_area(0, 512, false), &payload), Outcome::Done));
    assert_eq!(device.slept, [5000]);
}

#[test]
fn partitions_have_to_hold_their_image() {
    let payload = vec![7u8; 700];
    let mut device = Device::new(1024);
    let started = StreamWrite::restore_partition("boot_a", 700, 700).unwrap();
    assert!(matches!(device.stream(started, &payload), Outcome::Done));
    assert_eq!(device.lines, ["amlmmc key", "amlmmc write boot_a 0x1080000 0x0 0x2bc"]);
    assert_eq!(&device.disk[..700], &payload[..]);
    assert_eq!(
        refusal(StreamWrite::restore_partition("boot_a", 700, 701)),
        "file is larger than target partition: 701 bytes vs 700 bytes"
    );
}

#[test]
fn bootloader_restores_expect_no_answer() {
    let payload = vec![7u8; 700];
    let mut device = Device::new(1024);
    device.failures = 1;
    let started = StreamWrite::restore_partition("bootloader", 0, 700).unwrap();
    assert!(matches!(device.stream(started, &payload), Outcome::Done));
    assert_eq!(device.lines.len(), 2);
    assert_eq!(device.slept, [2000]);
}

#[test]
fn unbricking_starts_at_zero() {
    let mut device = Device::new(1024);
    assert!(matches!(device.stream(StreamWrite::unbrick_from(1024), &[1; 1024]), Outcome::Done));
    assert_eq!(device.disk, [1; 1024]);
    let mut device = Device::new(1024);
    let started = StreamWrite::write_large_memory_to_disk(0, 100, 64, false);
    assert!(matches!(device.stream(started, &[1; 100]), Outcome::Rethrow));
}

fn info(size: usize, size_alt: Option<usize>) -> PartitionInfo {
    PartitionInfo { offset: 77, size, size_alt }
}

#[test]
fn partition_sizes_are_checked_by_their_last_sector() {
    let (mut check, command) = ValidateSize::validate_partition_size("boot_a", &info(16, Some(8))).unwrap();
    assert_eq!(command.render(), "amlmmc read boot_a 0x1080000 0x1e00 0x200");
    assert!(matches!(check.resume(Reply::Done), ValidateAction::Sized(8192)));
    let (mut check, _) = ValidateSize::validate_partition_size("boot_a", &info(16, Some(8))).unwrap();
    assert!(matches!(check.resume(Reply::Failed), ValidateAction::Rethrow));
    let (mut check, _) = ValidateSize::validate_partition_size("data", &info(16, Some(8))).unwrap();
    match check.resume(Reply::Failed) {
        ValidateAction::Run(command) => assert_eq!(command.render(), "amlmmc read data 0x1080000 0xe00 0x200"),
        _ => panic!("expected another try"),
    }
    let mut lost = ValidateSize { name: check.name.clone(), size: 16, size_alt: Some(8), state: check.state };
    assert!(matches!(check.resume(Reply::Done), ValidateAction::Sized(4096)));
    assert!(matches!(lost.resume(Reply::Failed), ValidateAction::Rethrow));
    assert_eq!(
        refusal(ValidateSize::validate_partition_size("cache", &info(0, None))),
        "Cache partition is zero-length"
    );
    assert_eq!(
        refusal(ValidateSize::validate_partition_size("reserved", &info(1, None))),
        "Reserved partition cannot be accessed"
    );
}

fn lines(items: &[ScriptItem]) -> Vec<String> {
    items
        .iter()
        .map(|item| match item {
            ScriptItem::Run(command) => command.render(),
            ScriptItem::Stage { data, block_length } => format!("stage {} by {}", data.len(), block_length),
        })
        .collect()
}

#[test]
fn boot_partitions_are_written_and_left() {
    let items = write_boot_partition(1, vec![1; 1025]).unwrap();
    assert_eq!(
        lines(&items),
        ["mmc dev 1 1", "amlmmc key", "stage 1025 by 4096", "mmc write 0x1080000 0 0x3", "mmc dev 1 0"]
    );
    assert_eq!(refusal(write_boot_partition(0, Vec::new())), "boot hwpart must be 1 or 2, got 0");
    assert_eq!(
        refusal(write_boot_partition(1, vec![0; TRANSFER_SIZE_THRESHOLD + 1])),
        "boot partition payload 8388609 bytes exceeds single-transfer cap 8388608"
    );
}

#[test]
fn burn_mode_boot_partition_steps_prepare_their_image() {
    let staged = |items: Vec<ScriptItem>| {
        items.into_iter().find_map(|item| match item {
            ScriptItem::Stage { data, .. } => Some(data),
            _ => None,
        })
    };
    let items = write_hwpart_step(2, &[0x5a; 1000]).unwrap();
    assert_eq!(
        lines(&items),
        ["mmc dev 1 2", "amlmmc key", "stage 2097152 by 4096", "mmc write 0x1080000 0 0x1000", "mmc dev 1 0"]
    );
    let sized = staged(items).unwrap();
    assert_eq!(&sized[..512], &info_sector());
    assert_eq!(&sized[512..1512], &[0x5a; 1000]);
    assert!(sized[1512..].iter().all(|&byte| byte == 0));
    assert_eq!(staged(write_hwpart_step(1, &sized).unwrap()).unwrap(), sized);
    let mut dump = vec![0x5a; 1000];
    dump.resize(BOOT_IMAGE_BYTES, 0);
    assert_eq!(staged(write_hwpart_step(1, &dump).unwrap()).unwrap(), sized);
    dump[BOOT_HWPART_BYTES] = 1;
    assert_eq!(
        refusal(write_hwpart_step(1, &dump)),
        "boot image carries content past 2097152 bytes and will not fit a 2 MiB boot hwpart"
    );
    assert_eq!(refusal(write_hwpart_step(0, &dump)), "boot hwpart must be 1 or 2, got 0");
}

#[test]
fn user_area_steps_prepare_a_bootloader() {
    assert!(matches!(open_user_area(0, 4096, true), UserAreaAction::ReadHead { length: 512 }));
    match lead_user_area(0, 4096, true, vec![0x5a; 512]) {
        UserAreaAction::Write { lba: 0, lead, size: 4608, sparse: true } => {
            assert_eq!(&lead[..512], &info_sector());
            assert_eq!(&lead[512..], &[0x5a; 512]);
        }
        _ => panic!("expected a write"),
    }
    match lead_user_area(0, 4096, false, info_sector().to_vec()) {
        UserAreaAction::Write { lba: 0, lead, size: 4096, sparse: false } => assert_eq!(lead, info_sector()),
        _ => panic!("expected a write"),
    }
    for (lba, size) in [(1, 4096), (0, BOOT_IMAGE_BYTES + 1)] {
        match open_user_area(lba, size, false) {
            UserAreaAction::Write { lba: first, lead, size: total, .. } => {
                assert_eq!((first, lead.len(), total), (lba, 0, size))
            }
            _ => panic!("expected a write"),
        }
    }
}

#[test]
fn bootloader_restores_go_to_all_three_places() {
    let restore = |name: &str| FlashStep::RestorePartition {
        value: RestorePartitionValue { name: name.to_owned(), data: DataOrFile::Data(vec![1]) },
    };
    assert!(matches!(plan_step(&restore("bootloader")), Operation::RestoreBootloader { .. }));
    assert!(matches!(plan_step(&restore("boot_a")), Operation::RestorePartition { name, .. } if name == "boot_a"));

    let (run, action) = BootloaderRestore::restore_bootloader(&[0x5a; 1000]);
    let image = to_boot_image(&[0x5a; 1000]);
    assert!(matches!(
        action,
        BootloaderAction::WriteUserArea { lba: 0, data, sparse: false } if data == image
    ));
    let (run, action) = run.resume(Reply::Done);
    assert!(matches!(action, BootloaderAction::Perform { items } if lines(&items)[0] == "mmc dev 1 1"));
    let (run, action) = run.resume(Reply::Done);
    assert!(matches!(action, BootloaderAction::Perform { items } if lines(&items)[0] == "mmc dev 1 2"));
    assert!(matches!(run.resume(Reply::Done).1, BootloaderAction::Finish(Outcome::Done)));

    let (run, _) = BootloaderRestore::restore_bootloader(&[0x5a; BOOT_HWPART_BYTES]);
    assert!(matches!(run.resume(Reply::Done).1, BootloaderAction::Finish(Outcome::Failed(_))));

    let (run, _) = BootloaderRestore::restore_bootloader(&[0x5a; 1000]);
    assert!(matches!(run.resume(Reply::Failed).1, BootloaderAction::Finish(Outcome::Rethrow)));
}

#[test]
fn environments_are_staged_and_imported() {
    assert_eq!(
        lines(&write_env("a=1\n").unwrap()),
        ["amlmmc env", "stage 4 by 4096", "env import -t 0x1080000 0x4"]
    );
    assert_eq!(refusal(write_env("\u{e9}")), "env data must be ascii");
}

#[test]
fn steps_get_their_defaults() {
    let data = || DataOrFile::Data(vec![1]);
    let step = FlashStep::WriteLargeMemory {
        value: WriteLargeMemoryValue { address: 5, data: data(), block_length: 6, append_zeros: None },
    };
    assert!(matches!(
        plan_step(&step),
        Operation::WriteToDisk { address: 5, block_length: 6, append_zeros: true, .. }
    ));
    let step = FlashStep::WriteUserArea { value: WriteUserAreaValue { lba: 9, data: data(), sparse: None } };
    assert!(matches!(plan_step(&step), Operation::WriteUserArea { lba: 9, sparse: false, .. }));
    let step = FlashStep::Wait { value: WaitValue::Time { time: 12 } };
    assert!(matches!(plan_step(&step), Operation::Sleep { millis: 12 }));
}

#[test]
fn outcomes_follow_the_step() {
    let named = |text: &str| StepResult::Text(text.to_owned());
    let identify = FlashStep::Identify { variable: None };
    assert!(matches!(conclude(&identify, named("GX")), FlashOutcome::IdentifyResult(text) if text == "GX"));
    let stat = FlashStep::BulkcmdStat { value: "x".to_owned(), variable: None };
    assert!(matches!(conclude(&stat, named("ok")), FlashOutcome::BulkcmdStatResult(text) if text == "ok"));
    let plain = FlashStep::Bulkcmd { value: "x".to_owned() };
    assert!(matches!(conclude(&plain, named("ok")), FlashOutcome::Normal));
    let validate = FlashStep::ValidatePartitionSize {
        value: ValidatePartitionSizeValue { name: "boot_a".to_owned() },
        variable: None,
    };
    assert!(matches!(
        conclude(&validate, StepResult::Partition(Some((512, 7)))),
        FlashOutcome::ValidatePartitionResult(Some(512), Some(7))
    ));
    assert!(matches!(
        conclude(&validate, StepResult::Partition(None)),
        FlashOutcome::ValidatePartitionResult(None, None)
    ));
    assert_eq!(restore_size(Some((512, 7))).unwrap(), 512);
    assert_eq!(refusal(restore_size(None)), "Failed to validate partition size!");
}

#[test]
fn sessions_count_their_steps() {
    let mut session = FlashSession::new(3);
    assert_eq!((session.num_steps(), session.current_step()), (3, 1));
    assert_eq!(session.begin_step(), 1);
    assert_eq!(session.begin_step(), 2);
    assert_eq!(session.current_step(), 3);
}

#[test]
fn partitions_are_found_by_name() {
    let table = vec![
        Partition { name: "a".to_owned(), info: info(1, None) },
        Partition { name: "b".to_owned(), info: info(2, Some(3)) },
    ];
    assert!(find_partition(&table, "b") == Some(info(2, Some(3))));
    assert!(find_partition(&table, "c").is_none());
}

#[test]
fn meta_versions_are_bounded() {
    assert!(check_meta_version(1).is_ok());
    assert!(check_meta_version(2).is_ok());
    assert!(matches!(check_meta_version(0), Err(Error::UnsupportedVersion(0))));
    assert!(matches!(check_meta_version(3), Err(Error::UnsupportedVersion(3))));
}
