use flashthing::boot_image::{
    bootloader_lead, has_info_sector, head_to_read, info_sector, lead_payload, needs_info_sector, to_boot_image,
    BOOT_HWPART_BYTES, BOOT_IMAGE_BYTES, INFO_SECTOR_BYTES, STOCK_BL2_PREFIX,
};
use flashthing::error::Error;
use flashthing::fastboot::boot::{check_by_name, write_boot_hwpart, write_by_name, ScriptItem};
use flashthing::fastboot::command::Command;
use flashthing::payload::PrefixedSource;

/// The values of a Car Thing that boots.
#[test]
fn info_sector_matches_hardware() {
    let sector = info_sector();
    assert_eq!(&sector[0x000..0x004], &1u32.to_le_bytes());
    assert_eq!(&sector[0x004..0x008], &0x12000u32.to_le_bytes());
    assert_eq!(&sector[0x010..0x014], &0x4000u32.to_le_bytes());
    assert_eq!(&sector[0x014..0x018], &4u32.to_le_bytes());
    // checksum = 1 + 0x12000 + 0x4000 + 4
    assert_eq!(&sector[0x1fc..0x200], &0x16005u32.to_le_bytes());
    assert!(sector[0x018..0x1fc].iter().all(|&b| b == 0));
}

/// A bare image is anything that does not open with an info sector, whatever its leading bytes happen to be.
#[test]
fn bare_images_get_an_info_sector() {
    let mut bare = STOCK_BL2_PREFIX.to_vec();
    bare.extend_from_slice(&[0xab; 1024]);

    let image = to_boot_image(&bare);
    assert_eq!(&image[..INFO_SECTOR_BYTES], &info_sector());
    assert_eq!(&image[INFO_SECTOR_BYTES..], &bare[..]);
}

/// A bootloader signed with a different key shares none of the stock BL2's leading bytes.
#[test]
fn differently_signed_bootloaders_are_still_bare() {
    // Ciphertext from byte 0, no recognisable header anywhere.
    let bare: Vec<u8> = (0..4096u32).map(|i| i.wrapping_mul(2654435761).to_le_bytes()[0]).collect();
    assert!(!bare.starts_with(&STOCK_BL2_PREFIX));
    assert!(needs_info_sector(&bare));

    let image = to_boot_image(&bare);
    assert_eq!(&image[..INFO_SECTOR_BYTES], &info_sector());
    assert_eq!(&image[INFO_SECTOR_BYTES..], &bare[..]);
}

#[test]
fn prepared_images_are_left_alone() {
    let mut prepared = info_sector().to_vec();
    prepared.extend_from_slice(&STOCK_BL2_PREFIX);

    assert_eq!(to_boot_image(&prepared), prepared);
}

/// An all-zero sector satisfies the same shape test, so it reads as prepared.
#[test]
fn an_all_zero_info_sector_counts_as_prepared() {
    let mut prepared = vec![0u8; INFO_SECTOR_BYTES];
    prepared.extend_from_slice(&STOCK_BL2_PREFIX);

    assert!(!needs_info_sector(&prepared));
    assert_eq!(to_boot_image(&prepared), prepared);
}

/// A payload too short to contain a sector cannot be carrying one.
#[test]
fn short_payloads_are_bare() {
    assert!(needs_info_sector(&[0u8; INFO_SECTOR_BYTES - 1]));
}

/// A sector-shaped block whose checksum does not add up is not an info sector.
#[test]
fn a_bad_checksum_is_not_an_info_sector() {
    let mut sector = info_sector();
    sector[0x1fc] ^= 0xff;

    assert!(needs_info_sector(&sector));
}

#[test]
fn oversized_images_are_capped() {
    let mut bare = STOCK_BL2_PREFIX.to_vec();
    bare.resize(BOOT_IMAGE_BYTES, 0);

    // Zero padding after a non-zero header still fails the checksum, so this stays bare.
    assert!(needs_info_sector(&bare));
    assert_eq!(to_boot_image(&bare).len(), BOOT_IMAGE_BYTES);
}

/// Preparing an image twice is the same as preparing it once.
#[test]
fn preparing_is_idempotent() {
    let bare: Vec<u8> = (0..2000u32).map(|i| (i % 253) as u8).collect();
    let once = to_boot_image(&bare);
    assert!(has_info_sector(&once));
    assert_eq!(to_boot_image(&once), once);
}

/// What a user-area write is led by, when it is looked at.
fn lead_for(lba: u32, payload: &[u8]) -> Option<Vec<u8>> {
    head_to_read(lba, payload.len()).map(|length| bootloader_lead(payload[..length].to_vec()))
}

/// A bare dump written straight to LBA 0 has to gain an info sector.
#[test]
fn a_bare_bootloader_at_lba_0_gains_an_info_sector() {
    let payload = vec![0x5a; BOOT_IMAGE_BYTES];
    let lead = lead_for(0, &payload).expect("should be classified");

    assert_eq!(lead.len(), 2 * INFO_SECTOR_BYTES);
    assert_eq!(&lead[..INFO_SECTOR_BYTES], &info_sector());
    // the sector consumed to classify it is handed back intact
    assert_eq!(&lead[INFO_SECTOR_BYTES..], &payload[..INFO_SECTOR_BYTES]);
}

/// A whole-disk image also lands at LBA 0 and also lacks an info sector, so the size bound has to keep it out.
#[test]
fn a_whole_disk_image_at_lba_0_is_left_alone() {
    let payload = vec![0x5a; BOOT_IMAGE_BYTES + 1];
    assert!(lead_for(0, &payload).is_none());
}

/// An image that already carries an info sector keeps its byte count unchanged.
#[test]
fn a_prepared_bootloader_at_lba_0_is_not_shifted() {
    let mut payload = info_sector().to_vec();
    payload.resize(BOOT_IMAGE_BYTES, 0x5a);

    let lead = lead_for(0, &payload).expect("should be classified");
    assert_eq!(lead.len(), INFO_SECTOR_BYTES);
    assert_eq!(&lead[..], &payload[..INFO_SECTOR_BYTES]);
}

/// Anywhere but LBA 0 is a normal partition write and must never be touched.
#[test]
fn writes_away_from_lba_0_are_never_reshaped() {
    let payload = vec![0x5a; 4096];
    assert!(lead_for(1, &payload).is_none());
    assert!(lead_for(438272, &payload).is_none());
}

/// A payload of less than a sector carries no info sector, so it gains one too.
#[test]
fn short_payloads_at_lba_0_gain_an_info_sector() {
    assert_eq!(head_to_read(0, 0), None);
    assert_eq!(head_to_read(0, 100), Some(100));
    assert_eq!(head_to_read(0, 511), Some(511));
    assert_eq!(head_to_read(0, 513), Some(512));

    let (lead, size) = lead_payload(vec![0x5a; 100], 100);
    assert_eq!(&lead[..INFO_SECTOR_BYTES], &info_sector());
    assert_eq!(&lead[INFO_SECTOR_BYTES..], &[0x5a; 100]);
    assert_eq!(size, 612);
}

/// The lead and the rest of a payload are what preparing the payload gives.
#[test]
fn leads_complete_their_payloads() {
    for payload in [vec![0x5a; 1], vec![0x5a; 5000], to_boot_image(&[0x5a; 5000])] {
        let length = head_to_read(0, payload.len()).unwrap();
        let (mut whole, size) = lead_payload(payload[..length].to_vec(), payload.len());
        whole.extend_from_slice(&payload[length..]);
        assert_eq!(whole, to_boot_image(&payload));
        assert_eq!(size, whole.len());
    }
}

/// Reading a `PrefixedSource` in odd-sized bites must not lose or duplicate the boundary.
#[test]
fn prefixed_source_splices_across_the_boundary() {
    let rest: Vec<u8> = (0..32u8).collect();
    let mut at = 0;
    let mut source = PrefixedSource::new(vec![0xaa; 8]);

    let mut out = Vec::new();
    for wanted in [3usize, 9, 28] {
        let taken = source.take(wanted);
        let missing = wanted - taken.len();
        out.extend_from_slice(&taken);
        out.extend_from_slice(&rest[at..at + missing]);
        at += missing;
    }

    assert_eq!(out.len(), 40);
    assert_eq!(&out[..8], &[0xaa; 8]);
    assert_eq!(&out[8..], &rest[..]);
}

fn command_line(item: &ScriptItem) -> String {
    match item {
        ScriptItem::Run(command) => command.render(),
        _ => panic!("not a command"),
    }
}

#[test]
fn boot_hwpart_writes_restore_the_user_area() {
    let image = vec![7u8; 1024];
    let mut filled = image.clone();
    filled.resize(2097152, 0);
    let items = write_boot_hwpart(2, &image).unwrap();
    assert_eq!(items.len(), 4);
    assert!(matches!(&items[0], ScriptItem::Download { data } if *data == filled));
    assert_eq!(command_line(&items[1]), "flash:mmc0boot1");
    assert!(matches!(items[2], ScriptItem::Report));
    assert_eq!(command_line(&items[3]), "oem console mmc dev 0 0");
    assert_eq!(command_line(&write_boot_hwpart(1, &image).unwrap()[1]), "flash:mmc0boot0");
}

#[test]
fn boot_hwpart_writes_are_cut_to_what_fits() {
    let mut image = vec![1u8; BOOT_HWPART_BYTES];
    image.resize(BOOT_IMAGE_BYTES, 0);
    let items = write_boot_hwpart(1, &image).unwrap();
    assert!(matches!(&items[0], ScriptItem::Download { data } if data.len() == BOOT_HWPART_BYTES));

    image[BOOT_IMAGE_BYTES - 1] = 1;
    match write_boot_hwpart(1, &image) {
        Err(Error::InvalidOperation(text)) => assert_eq!(
            text,
            "boot image carries content past 2097152 bytes and will not fit a 2 MiB boot hwpart"
        ),
        _ => panic!("expected a refusal"),
    }
}

#[test]
fn boot_hwparts_are_one_or_two() {
    for hwpart in [0u8, 3] {
        match write_boot_hwpart(hwpart, &[1]) {
            Err(Error::InvalidOperation(text)) => {
                assert_eq!(text, format!("boot hwpart must be 1 or 2, got {hwpart}"))
            }
            _ => panic!("expected a refusal"),
        }
    }
}

#[test]
fn named_partitions_have_to_fit_one_download() {
    assert!(check_by_name("rootfs", 100, 100).is_ok());
    match check_by_name("rootfs", 101, 100) {
        Err(Error::InvalidOperation(text)) => assert_eq!(
            text,
            "rootfs is 101 bytes, larger than the device's 100-byte download buffer; it needs to be a sparse image"
        ),
        _ => panic!("expected a refusal"),
    }
    let items = write_by_name("rootfs", vec![1, 2, 3]);
    assert!(matches!(&items[0], ScriptItem::Download { data } if *data == [1, 2, 3]));
    assert!(matches!(&items[1], ScriptItem::Run(Command::Flash { partition }) if partition == "rootfs"));
    assert!(matches!(items[2], ScriptItem::Report));
}
