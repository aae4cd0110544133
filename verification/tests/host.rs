use std::io::Write;

use flashthing::archive::{archive_name, unbrick_image};
use flashthing::bindings;
use flashthing::cli::{classify, pick, Options, Source, Task};
use flashthing::config;
use flashthing::connect::{Connect, ConnectAction, ConnectReply, Goal};
use flashthing::error::{Error, Outcome};
use flashthing::usb::{
    find_device, find_target, interface_for, mode_of, retries_chooser, Acquire, AcquireAction, AcquireReply, Claim,
    DeviceMode, Endpoint, GestureReason, Identity, Interface, Search, SearchAction, SearchReply, UsbTarget,
};

#[test]
fn targets_have_their_ids() {
    assert_eq!(UsbTarget::Maskrom.ids(), (0x1b8e, 0xc003));
    assert_eq!(UsbTarget::Fastboot.ids(), (0x18d1, 0xfada));
    assert_eq!(GestureReason::Initial.as_str(), "initial");
    assert_eq!(GestureReason::Reconnect.as_str(), "reconnect");
    assert_eq!(GestureReason::of(true), GestureReason::Reconnect);
    assert_eq!(GestureReason::of(false), GestureReason::Initial);
}

#[test]
fn the_first_known_device_counts() {
    let ids = vec![(1, 2), (0x18d1, 0xfada), (0x1b8e, 0xc003)];
    assert_eq!(find_device(&ids), Some(1));
    assert_eq!(find_device(&vec![(1, 2)]), None);
    assert_eq!(find_target(&ids, UsbTarget::Maskrom).unwrap(), 2);
    assert!(matches!(
        find_target(&vec![(1, 2)], UsbTarget::Maskrom),
        Err(Error::InvalidOperation(text)) if text == "Device not found"
    ));
}

#[test]
fn the_product_string_tells_the_boot_rom() {
    assert_eq!(mode_of(Identity::Amlogic, Some("GX-CHIP")), DeviceMode::Usb);
    assert_eq!(mode_of(Identity::Amlogic, Some("other")), DeviceMode::UsbBurn);
    assert_eq!(mode_of(Identity::Amlogic, None), DeviceMode::UsbBurn);
    assert_eq!(mode_of(Identity::Normal, None), DeviceMode::Normal);
    assert_eq!(mode_of(Identity::Fastboot, None), DeviceMode::Fastboot);
    assert_eq!(mode_of(Identity::Other, None), DeviceMode::NotFound);
}

fn interface(number: u8, fastboot: bool, endpoints: &[(u8, bool)]) -> Interface {
    Interface {
        number,
        class: 0xff,
        subclass: 0x42,
        protocol: if fastboot { 3 } else { 1 },
        endpoints: endpoints.iter().map(|&(address, inward)| Endpoint { address, inward }).collect(),
    }
}

#[test]
fn fastboot_is_told_from_adb() {
    let interfaces = vec![
        interface(0, false, &[(0x81, true), (0x01, false)]),
        interface(1, true, &[(0x82, true)]),
        interface(2, true, &[(0x03, false), (0x83, true), (0x84, true)]),
    ];
    assert!(
        interface_for(&interfaces, UsbTarget::Fastboot).unwrap()
            == Claim { interface: 2, endpoint_in: 0x83, endpoint_out: 0x03 }
    );
    assert!(
        interface_for(&interfaces, UsbTarget::Maskrom).unwrap()
            == Claim { interface: 0, endpoint_in: 0x81, endpoint_out: 0x01 }
    );
    assert!(matches!(
        interface_for(&vec![interface(1, true, &[])], UsbTarget::Fastboot),
        Err(Error::InvalidOperation(text)) if text == "no usable Fastboot interface on this device"
    ));
    assert!(matches!(
        interface_for(&Vec::new(), UsbTarget::Maskrom),
        Err(Error::InvalidOperation(text)) if text == "no usable Maskrom interface on this device"
    ));
}

#[test]
fn claiming_is_tried_four_times() {
    let (mut run, mut action) = Acquire::acquire();
    let mut opens = 0;
    let mut rests = 0;
    loop {
        action = match action {
            AcquireAction::Open => {
                opens += 1;
                run.resume(AcquireReply::Failed)
            }
            AcquireAction::Sleep { millis } => {
                assert_eq!(millis, 1000);
                rests += 1;
                run.resume(AcquireReply::Done)
            }
            AcquireAction::Finish(outcome) => {
                assert!(matches!(outcome, Outcome::Rethrow));
                break;
            }
        };
    }
    assert_eq!((opens, rests), (4, 3));
    let (mut run, _) = Acquire::acquire();
    assert!(matches!(run.resume(AcquireReply::Done), AcquireAction::Finish(Outcome::Done)));
}

#[test]
fn a_reset_device_is_looked_for_again() {
    let (mut search, mut action) = Search::next_device(GestureReason::Reconnect);
    let mut looks = 0;
    loop {
        action = match action {
            SearchAction::Look => {
                looks += 1;
                search.resume(SearchReply::Missing)
            }
            SearchAction::Sleep { millis } => {
                assert_eq!(millis, 250);
                search.resume(SearchReply::Rested)
            }
            _ => break,
        };
    }
    assert_eq!(looks, 9);
    assert!(action == SearchAction::Prompt);
    let (mut search, _) = Search::next_device(GestureReason::Initial);
    assert!(search.resume(SearchReply::Missing) == SearchAction::Prompt);
    let (mut search, _) = Search::next_device(GestureReason::Initial);
    assert!(search.resume(SearchReply::Found) == SearchAction::Take);
    assert!(retries_chooser(Some("NotFoundError")));
    assert!(!retries_chooser(Some("SecurityError")));
    assert!(!retries_chooser(None));
}

fn connect(goal: Goal, mode: DeviceMode) -> (Vec<String>, Outcome) {
    let (mut run, mut action) = Connect::init(goal);
    let mut seen = Vec::new();
    loop {
        let reply = match &action {
            ConnectAction::AnnounceFinding => {
                seen.push("finding".to_owned());
                ConnectReply::Done
            }
            ConnectAction::Probe => ConnectReply::Mode(mode),
            ConnectAction::AnnounceMode(found) => {
                seen.push(format!("{found:?}"));
                ConnectReply::Done
            }
            ConnectAction::Acquire(target) => {
                seen.push(format!("acquire {target:?}"));
                ConnectReply::Done
            }
            ConnectAction::Bootstrap => {
                seen.push("boot".to_owned());
                ConnectReply::Done
            }
            ConnectAction::AnnounceResetting => {
                seen.push("resetting".to_owned());
                ConnectReply::Done
            }
            ConnectAction::Sleep { millis } => {
                seen.push(format!("sleep {millis}"));
                ConnectReply::Done
            }
            ConnectAction::Greet => {
                seen.push("greet".to_owned());
                ConnectReply::Failed
            }
            ConnectAction::Finish(_) => break,
        };
        action = run.resume(reply);
    }
    match action {
        ConnectAction::Finish(outcome) => (seen, outcome),
        _ => unreachable!(),
    }
}

#[test]
fn fastboot_is_reached_from_usb_mode() {
    let (seen, outcome) = connect(Goal::Fastboot, DeviceMode::Usb);
    assert!(matches!(outcome, Outcome::Done));
    assert_eq!(
        seen,
        ["finding", "Usb", "acquire Maskrom", "boot", "resetting", "sleep 5000", "acquire Fastboot", "greet"]
    );
    let (seen, outcome) = connect(Goal::Fastboot, DeviceMode::Fastboot);
    assert!(matches!(outcome, Outcome::Done));
    assert_eq!(seen, ["finding", "Fastboot", "acquire Fastboot", "greet"]);
    for mode in [DeviceMode::UsbBurn, DeviceMode::Normal] {
        assert!(matches!(connect(Goal::Fastboot, mode).1, Outcome::Failed(Error::WrongMode)));
    }
    assert!(matches!(connect(Goal::Fastboot, DeviceMode::NotFound).1, Outcome::Failed(Error::NotFound)));
}

#[test]
fn burn_mode_is_reached_from_usb_mode() {
    let (seen, outcome) = connect(Goal::Burn, DeviceMode::Usb);
    assert!(matches!(outcome, Outcome::Done));
    assert_eq!(
        seen,
        ["finding", "Usb", "acquire Maskrom", "boot", "resetting", "sleep 5000", "acquire Maskrom"]
    );
    let (seen, _) = connect(Goal::Burn, DeviceMode::UsbBurn);
    assert_eq!(seen, ["finding", "UsbBurn", "acquire Maskrom"]);
    for mode in [DeviceMode::Fastboot, DeviceMode::Normal] {
        assert!(matches!(connect(Goal::Burn, mode).1, Outcome::Failed(Error::WrongMode)));
    }
    assert!(matches!(connect(Goal::Burn, DeviceMode::NotFound).1, Outcome::Failed(Error::NotFound)));
}

#[test]
fn connections_pass_failures_on() {
    let (mut run, _) = Connect::init(Goal::Burn);
    run.resume(ConnectReply::Done);
    run.resume(ConnectReply::Mode(DeviceMode::UsbBurn));
    run.resume(ConnectReply::Done);
    assert!(matches!(run.resume(ConnectReply::Failed), ConnectAction::Finish(Outcome::Rethrow)));
}

fn options() -> Options {
    Options { setup: false, unbrick: false, console: None, bulkcmd: None, fastboot: false, stock: false, sparse: false }
}

#[test]
fn switches_have_their_order() {
    assert!(matches!(pick(Options { setup: true, unbrick: true, ..options() }), Task::Setup));
    assert!(matches!(
        pick(Options { unbrick: true, fastboot: true, console: Some("x".to_owned()), ..options() }),
        Task::Unbrick { fastboot: true }
    ));
    assert!(matches!(
        pick(Options { console: Some("x".to_owned()), bulkcmd: Some("y".to_owned()), ..options() }),
        Task::Console { line } if line == "x"
    ));
    assert!(matches!(
        pick(Options { bulkcmd: Some("y".to_owned()), ..options() }),
        Task::Bulkcmd { line } if line == "y"
    ));
    assert!(matches!(
        pick(Options { fastboot: true, sparse: true, ..options() }),
        Task::FlashFastboot { stock: false, sparse: true }
    ));
    assert!(matches!(pick(Options { stock: true, ..options() }), Task::FlashAmlogic { stock: true }));
}

#[test]
fn paths_are_archives_or_directories() {
    assert!(classify(true, false, true) == Some(Source::Archive));
    assert!(classify(false, true, true) == Some(Source::Directory));
    assert!(classify(true, false, false).is_none());
    assert!(classify(false, false, true).is_none());
}

fn archive(name: &str, payload: &[u8]) -> Vec<u8> {
    let mut writer = zip::ZipWriter::new(std::io::Cursor::new(Vec::new()));
    writer.start_file(name, zip::write::SimpleFileOptions::default()).unwrap();
    writer.write_all(payload).unwrap();
    writer.finish().unwrap().into_inner()
}

#[test]
fn unbrick_images_are_unpacked() {
    let payload: Vec<u8> = (0..4096u32).map(|i| (i % 251) as u8).collect();
    assert_eq!(unbrick_image(&archive("unbrick.bin", &payload)).unwrap(), payload);
    assert!(matches!(unbrick_image(&archive("nope.bin", &payload)), Err(Error::Zip(_))));
    assert!(matches!(unbrick_image(b"not an archive"), Err(Error::Zip(_))));
}

#[test]
fn archive_names_lose_their_dot() {
    assert_eq!(archive_name("./payload.bin"), "payload.bin");
    assert_eq!(archive_name("payload.bin"), "payload.bin");
    assert_eq!(archive_name("././x"), "./x");
}

#[test]
fn modes_have_names() {
    let names: Vec<&str> =
        [DeviceMode::Normal, DeviceMode::Usb, DeviceMode::UsbBurn, DeviceMode::Fastboot, DeviceMode::NotFound]
            .into_iter()
            .map(|mode| bindings::DeviceMode::from(mode).name())
            .collect();
    assert_eq!(names, ["normal", "usb", "usbBurn", "fastboot", "notFound"]);
}

#[test]
fn steps_are_shown_to_callers() {
    let step = config::FlashStep::WriteLargeMemory {
        value: config::WriteLargeMemoryValue {
            address: 7,
            data: config::DataOrFile::Data(vec![1, 2, 3]),
            block_length: 4096,
            append_zeros: Some(false),
        },
    };
    match bindings::FlashStep::from(step) {
        bindings::FlashStep::WriteLargeMemory { value } => {
            assert_eq!((value.address, value.block_length, value.append_zeros), (7, 4096, Some(false)));
            assert!(matches!(value.data, bindings::DataOrFile::Data));
        }
        _ => panic!("the step changed its kind"),
    }
    let step = config::FlashStep::Wait { value: config::WaitValue::Time { time: 0x1_0000_0005 } };
    assert!(matches!(
        bindings::FlashStep::from(step),
        bindings::FlashStep::Wait { value: bindings::WaitValue::Time { time: 5 } }
    ));
    let step = config::FlashStep::GetBootAMLC { variable: Some("v".to_owned()) };
    assert!(matches!(
        bindings::FlashStep::from(step),
        bindings::FlashStep::GetBootAmlc { variable: Some(name) } if name == "v"
    ));
    let step = config::FlashStep::WriteEnv {
        value: config::StringOrFile::File(config::MetaFile { file_path: "env".to_owned(), encoding: None }),
    };
    assert!(matches!(
        bindings::FlashStep::from(step),
        bindings::FlashStep::WriteEnv { value: bindings::StringOrFile::File { file } } if file.file_path == "env"
    ));
}

#[test]
fn files_of_text_have_to_be_utf8() {
    assert_eq!(config::decode_text(b"bootdelay=1".to_vec()).unwrap(), "bootdelay=1");
    assert_eq!(config::decode_text("h\u{e9}".as_bytes().to_vec()).unwrap(), "h\u{e9}");
    assert!(matches!(config::decode_text(vec![0x62, 0xff]), Err(Error::Utf8Error(_))));
}
