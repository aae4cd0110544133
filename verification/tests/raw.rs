use flashthing::error::Outcome;
use flashthing::fastboot::command::Command;
use flashthing::fastboot::raw::{RawAction, RawReply, RawState, RawWrite, MAX_CHUNK_BYTES};
use flashthing::storage::{erase_span, EraseSpan, ERASE_GROUP_SECTORS};

/// A device with a disk, a download buffer and an alias.
struct Device {
    disk: Vec<u8>,
    buffer: Vec<u8>,
    alias: Option<(usize, usize)>,
    fail_erase: bool,
    fail_flash_at: Option<usize>,
    flashes: usize,
}

impl Device {
    fn new(sectors: usize) -> Device {
        Device {
            disk: vec![0xee; sectors * 512],
            buffer: Vec::new(),
            alias: None,
            fail_erase: false,
            fail_flash_at: None,
            flashes: 0,
        }
    }

    fn run(&mut self, command: Command) -> bool {
        match command {
            Command::SetRawTarget { alias, start_lba, sectors } => {
                assert_eq!(alias, "ft");
                self.alias = Some((start_lba as usize, sectors as usize));
                true
            }
            Command::ClearRawTarget { alias } => {
                assert_eq!(alias, "ft");
                self.alias = None;
                true
            }
            Command::Erase { partition } => {
                assert_eq!(partition, "ft");
                if self.fail_erase {
                    return false;
                }
                let (lba, count) = self.alias.unwrap();
                self.disk[lba * 512..(lba + count) * 512].fill(0);
                true
            }
            Command::Flash { partition } => {
                assert_eq!(partition, "ft");
                self.flashes += 1;
                if self.fail_flash_at == Some(self.flashes) {
                    return false;
                }
                let (lba, count) = self.alias.unwrap();
                assert!(self.buffer.len() <= count * 512);
                self.disk[lba * 512..lba * 512 + self.buffer.len()].copy_from_slice(&self.buffer);
                true
            }
            _ => panic!("unexpected command"),
        }
    }
}

fn write(device: &mut Device, lba: u64, payload: &[u8], limit: usize, sparse: bool) -> bool {
    let (mut run, mut action) = RawWrite::write_raw(lba, payload.len(), limit, sparse);
    let mut at = 0;
    let mut reported = 0;
    loop {
        let reply = match action {
            RawAction::Run(command) => {
                if device.run(command) {
                    RawReply::Done
                } else {
                    RawReply::Failed
                }
            }
            RawAction::RunAnyway(command) => {
                device.run(command);
                RawReply::Done
            }
            RawAction::Read { length } => {
                let data = payload[at..at + length].to_vec();
                at += length;
                RawReply::Payload(data)
            }
            RawAction::Download { data } => {
                assert!(data.len() <= limit.clamp(512, MAX_CHUNK_BYTES));
                device.buffer = data;
                RawReply::Done
            }
            RawAction::Report { length } => {
                reported += length;
                RawReply::Done
            }
            RawAction::Finish(Outcome::Done) => {
                assert_eq!(reported, payload.len());
                return true;
            }
            RawAction::Finish(_) => return false,
        };
        action = run.resume(reply);
    }
}

fn expected(sectors: usize, lba: usize, payload: &[u8]) -> Vec<u8> {
    let mut disk = vec![0xee; sectors * 512];
    let whole = payload.len().div_ceil(512) * 512;
    disk[lba * 512..lba * 512 + whole].fill(0);
    disk[lba * 512..lba * 512 + payload.len()].copy_from_slice(payload);
    disk
}

#[test]
fn sparse_and_plain_writes_leave_the_same_disk() {
    let group = ERASE_GROUP_SECTORS as usize;
    let sectors = 4 * group;
    // mostly zero, with data at both ends and in the middle, and a last sector that is not full
    let mut payload = vec![0u8; 3 * group * 512 - 300];
    payload[0] = 1;
    let middle = payload.len() / 2;
    payload[middle] = 2;
    let last = payload.len() - 1;
    payload[last] = 3;
    let wanted = expected(sectors, 100, &payload);
    for limit in [1usize << 20, usize::MAX] {
        for sparse in [false, true] {
            let mut device = Device::new(sectors);
            assert!(write(&mut device, 100, &payload, limit, sparse));
            assert!(device.disk == wanted);
            assert!(device.alias.is_none());
        }
    }
}

#[test]
fn sparse_writes_move_less_data() {
    let group = ERASE_GROUP_SECTORS as usize;
    let payload = vec![0u8; 2 * group * 512];
    let mut plain = Device::new(2 * group);
    assert!(write(&mut plain, 0, &payload, 1 << 20, false));
    let mut sparse = Device::new(2 * group);
    assert!(write(&mut sparse, 0, &payload, 1 << 20, true));
    assert_eq!(plain.flashes, 8);
    assert_eq!(sparse.flashes, 0);
    assert!(plain.disk == sparse.disk);
}

#[test]
fn a_failed_erase_writes_every_chunk() {
    let group = ERASE_GROUP_SECTORS as usize;
    let payload = vec![0u8; 2 * group * 512];
    let mut device = Device::new(2 * group);
    device.fail_erase = true;
    assert!(write(&mut device, 0, &payload, 1 << 20, true));
    assert_eq!(device.flashes, 8);
    assert!(device.disk == payload);
}

#[test]
fn a_failed_flash_still_drops_the_alias() {
    let payload = vec![7u8; 4096];
    let mut device = Device::new(64);
    device.fail_flash_at = Some(2);
    assert!(!write(&mut device, 8, &payload, 1024, false));
    assert!(device.alias.is_none());
    assert_eq!(&device.disk[..8 * 512], &[0xee; 8 * 512][..]);
    assert_eq!(&device.disk[16 * 512..], &vec![0xee; 48 * 512][..]);
}

#[test]
fn chunks_are_whole_sectors() {
    assert_eq!(RawWrite::write_raw(0, 1, 10, false).0.chunk_bytes, 512);
    assert_eq!(RawWrite::write_raw(0, 1, 1025, false).0.chunk_bytes, 1024);
    assert_eq!(RawWrite::write_raw(0, 1, 0x7000000, false).0.chunk_bytes, 8 * 1024 * 1024);
}

#[test]
fn nothing_to_write_only_drops_the_alias() {
    let (run, action) = RawWrite::write_raw(9, 0, 4096, true);
    assert!(run.state == RawState::Clear);
    assert!(matches!(action, RawAction::RunAnyway(Command::ClearRawTarget { .. })));
}

#[test]
fn unbricking_is_sparse_and_starts_at_zero() {
    let (run, action) = RawWrite::unbrick_from(64 << 20, 0x7000000);
    assert_eq!(run.start_lba, 0);
    assert!(run.span == Some(EraseSpan { lba: 0, sectors: 131072 }));
    assert!(matches!(
        action,
        RawAction::Run(Command::SetRawTarget { start_lba: 0, sectors: 131072, .. })
    ));
}

#[test]
fn only_whole_groups_are_erased() {
    let group = ERASE_GROUP_SECTORS;
    assert!(erase_span(0, 512).is_none());
    assert!(erase_span(1, group as usize * 512).is_none());
    assert!(erase_span(0, group as usize * 512) == Some(EraseSpan { lba: 0, sectors: group }));
    assert!(erase_span(1, 2 * group as usize * 512) == Some(EraseSpan { lba: group, sectors: group }));
    // a last sector that is only begun counts as a sector
    assert!(erase_span(0, group as usize * 512 - 511) == Some(EraseSpan { lba: 0, sectors: group }));
}
