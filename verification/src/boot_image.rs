//! The on-disk form of the amlogic bootloader.
//!
//! On eMMC a bootloader is preceded by a 512-byte info sector, so BL2 starts at LBA 1, where the mask ROM reads it. A
//! stock `bootloader.dump` is bare; vendor u-boot builds the sector itself, nothing else does.
use vstd::prelude::*;

use crate::bytes;
use crate::error;
use crate::error::Error;
use crate::text;

verus! {

/// Size of the info sector, and therefore the offset the bootloader image itself sits at.
pub const INFO_SECTOR_BYTES: usize = 512;

/// Largest a bootloader image is taken to be, and the cap on what [`to_boot_image`] returns.
///
/// This is the size of a stock `bootloader.dump`, so it is the right bound for "is this payload a bootloader or a
/// whole-disk image?". It is *not* what gets written to a boot hwpart: see [`BOOT_HWPART_BYTES`].
pub const BOOT_IMAGE_BYTES: usize = 4 * 1024 * 1024;

/// How much of a boot image is written to an eMMC boot hwpart.
///
/// Devices exist with both 4 MiB and 2 MiB boot hwparts, and a write past the end of the smaller one is rejected, so
/// everything is sized for it. Content past this bound is an error rather than a silent truncation.
pub const BOOT_HWPART_BYTES: usize = 2 * 1024 * 1024;

/// First bytes of the *stock* Car Thing BL2.
///
/// A landmark when reading hex dumps, and **not** usable as an "is this bare?" test: BL2 is encrypted, so this is one
/// build's first ciphertext block.
pub const STOCK_BL2_PREFIX: [u8; 8] = [0x0c, 0x62, 0x7a, 0x15, 0xbe, 0x94, 0x07, 0xb2];

/// Offset past the info sector's defined fields; everything from here to the checksum is reserved.
const INFO_SECTOR_RESERVED_FROM: usize = 0x18;

/// The info sector of a Car Thing: version 1, the reserved region at sector 0x12000, no device tree, DDR parameters at
/// sector 0x4000 of the reserved region and 4 sectors long, then zeros up to the checksum in the last word.
pub open spec fn info_sector_bytes() -> Seq<u8> {
    bytes::word_bytes(1) + bytes::word_bytes(0x12000) + bytes::word_bytes(0) + bytes::word_bytes(0)
        + bytes::word_bytes(0x4000) + bytes::word_bytes(4) + bytes::zeros(0x1e4) + bytes::word_bytes(0x16005)
}

/// Whether data opens with an info sector: zero between the header fields and the checksum, and a last word that is
/// the sum of the words ahead of it.
pub open spec fn opens_with_info_sector(data: Seq<u8>) -> bool {
    &&& data.len() >= 512
    &&& bytes::all_zero(data.subrange(0x18, 0x1fc))
    &&& bytes::word_at(data, 0x1fc) == bytes::words_total(data, 127) % (bytes::WORD_SPAN as nat)
}

/// The form a bootloader takes on disk: as it is if it opens with an info sector, else behind one; 4 MiB at most.
pub open spec fn boot_image(data: Seq<u8>) -> Seq<u8> {
    let whole = if opens_with_info_sector(data) {
        data
    } else {
        info_sector_bytes() + data
    };
    if whole.len() > BOOT_IMAGE_BYTES {
        whole.take(BOOT_IMAGE_BYTES as int)
    } else {
        whole
    }
}

/// The bytes of the six header words stand where the header says.
proof fn lemma_info_sector_words()
    ensures
        info_sector_bytes().len() == 512,
        bytes::word_at(info_sector_bytes(), 0) == 1,
        bytes::word_at(info_sector_bytes(), 4) == 0x12000,
        bytes::word_at(info_sector_bytes(), 8) == 0,
        bytes::word_at(info_sector_bytes(), 12) == 0,
        bytes::word_at(info_sector_bytes(), 16) == 0x4000,
        bytes::word_at(info_sector_bytes(), 20) == 4,
        bytes::word_at(info_sector_bytes(), 0x1fc) == 0x16005,
        forall|i: int| 0x18 <= i < 0x1fc ==> info_sector_bytes()[i] == 0,
{
    let s = info_sector_bytes();
    assert(s.subrange(0, 4) =~= bytes::word_bytes(1));
    assert(s.subrange(4, 8) =~= bytes::word_bytes(0x12000));
    assert(s.subrange(8, 12) =~= bytes::word_bytes(0));
    assert(s.subrange(12, 16) =~= bytes::word_bytes(0));
    assert(s.subrange(16, 20) =~= bytes::word_bytes(0x4000));
    assert(s.subrange(20, 24) =~= bytes::word_bytes(4));
    assert(s.subrange(0x1fc, 0x200) =~= bytes::word_bytes(0x16005));
    assert forall|w: int| 0 <= w <= 508 implies #[trigger] bytes::word_at(s, w) == bytes::word_at(
        s.subrange(w, w + 4),
        0,
    ) by {}
}

/// From the sixth word on, the sum of the info sector's words is its checksum.
proof fn lemma_info_sector_total(count: nat)
    requires
        6 <= count <= 127,
    ensures
        bytes::words_total(info_sector_bytes(), count) == 0x16005,
    decreases count,
{
    lemma_info_sector_words();
    let s = info_sector_bytes();
    if count == 6 {
        reveal_with_fuel(bytes::words_total, 7);
    } else {
        lemma_info_sector_total((count - 1) as nat);
        assert(bytes::word_at(s, 4 * (count - 1)) == 0);
    }
}

/// The info sector that the library builds is one that it recognises.
pub proof fn info_sector_is_recognised(rest: Seq<u8>)
    ensures
        info_sector_bytes().len() == 512,
        opens_with_info_sector(info_sector_bytes() + rest),
{
    let s = info_sector_bytes();
    let whole = s + rest;
    lemma_info_sector_words();
    lemma_info_sector_total(127);
    bytes::lemma_words_total_prefix(s, whole, 127);
    assert(bytes::word_at(whole, 0x1fc) == bytes::word_at(s, 0x1fc));
}

/// What a sector says of being an info sector depends on its 512 bytes alone.
pub proof fn lemma_info_sector_prefix(a: Seq<u8>, b: Seq<u8>)
    requires
        a.len() >= 512,
        b.len() >= 512,
        a.take(512) == b.take(512),
    ensures
        opens_with_info_sector(a) == opens_with_info_sector(b),
{
    assert forall|i: int| 0 <= i < 512 implies a[i] == b[i] by {
        assert(a[i] == a.take(512)[i]);
        assert(b[i] == b.take(512)[i]);
    }
    bytes::lemma_words_total_prefix(a, b, 127);
    assert(a.subrange(0x18, 0x1fc) =~= b.subrange(0x18, 0x1fc));
}

/// An all-zero sector passes for an info sector.
pub proof fn zero_sector_counts_as_prepared(data: Seq<u8>)
    requires
        data.len() >= 512,
        bytes::all_zero(data.take(512)),
    ensures
        opens_with_info_sector(data),
        data.len() <= BOOT_IMAGE_BYTES ==> boot_image(data) == data,
{
    assert forall|i: int| 0 <= i < 512 implies data[i] == 0 by {
        assert(data.take(512)[i] == 0);
    }
    lemma_zero_words(data, 127);
}

proof fn lemma_zero_words(data: Seq<u8>, count: nat)
    requires
        4 * count <= data.len(),
        forall|i: int| 0 <= i < 4 * count ==> data[i] == 0,
    ensures
        bytes::words_total(data, count) == 0,
    decreases count,
{
    if count > 0 {
        lemma_zero_words(data, (count - 1) as nat);
    }
}

/// Preparing an image that is already prepared changes nothing, so a caller need not know which form it has.
pub proof fn boot_image_is_idempotent(data: Seq<u8>)
    ensures
        boot_image(boot_image(data)) == boot_image(data),
        opens_with_info_sector(boot_image(data)),
{
    let image = boot_image(data);
    if opens_with_info_sector(data) {
        assert(image.take(512) =~= data.take(512));
        lemma_info_sector_prefix(image, data);
    } else {
        let whole = info_sector_bytes() + data;
        info_sector_is_recognised(data);
        assert(image.take(512) =~= whole.take(512));
        lemma_info_sector_prefix(image, whole);
    }
}

/// A bare image that fits comes out whole, one sector in: its first byte lands at LBA 1.
pub proof fn bare_image_starts_at_lba_1(data: Seq<u8>)
    requires
        !opens_with_info_sector(data),
        data.len() + 512 <= BOOT_IMAGE_BYTES,
    ensures
        boot_image(data).len() == data.len() + 512,
        boot_image(data).take(512) == info_sector_bytes(),
        boot_image(data).skip(512) == data,
{
    lemma_info_sector_words();
    assert(boot_image(data).take(512) =~= info_sector_bytes());
    assert(boot_image(data).skip(512) =~= data);
}

/// Build the info sector for a Car Thing.
///
/// This is amlogic's `storage_emmc_boot_info`. BL2 never reads it, its only job is to occupy LBA 0, but a well-formed
/// one is free and keeps the image byte-compatible with vendor tooling.
pub fn info_sector() -> (sector: [u8; INFO_SECTOR_BYTES])
    ensures
        sector@ == info_sector_bytes(),
{
    let mut head: Vec<u8> = Vec::new();
    bytes::push_word(&mut head, 1);
    bytes::push_word(&mut head, 0x12000);
    bytes::push_word(&mut head, 0);
    bytes::push_word(&mut head, 0);
    bytes::push_word(&mut head, 0x4000);
    bytes::push_word(&mut head, 4);
    bytes::push_zeros(&mut head, INFO_SECTOR_BYTES - 4 - INFO_SECTOR_RESERVED_FROM);
    let checksum: u32 = bytes::wrapping_total(&head, 127);
    proof {
        let s = info_sector_bytes();
        lemma_info_sector_words();
        lemma_info_sector_total(127);
        bytes::lemma_words_total_prefix(head@, s, 127);
    }
    bytes::push_word(&mut head, checksum);
    let mut sector: [u8; INFO_SECTOR_BYTES] = [0; 512];
    let mut i: usize = 0;
    while i < 512
        invariant
            i <= 512,
            head@ == info_sector_bytes(),
            head@.len() == 512,
            forall|j: int| 0 <= j < i ==> sector@[j] == head@[j],
        decreases 512 - i,
    {
        sector[i] = head[i];
        i = i + 1;
    }
    assert(sector@ =~= head@);
    sector
}

/// Whether `data` already opens with an info sector.
///
/// The sector is a fixed shape, small header fields, zero padding and a checksum of everything ahead of it, so it can
/// be recognised where the encrypted BL2 behind it cannot. An all-zero sector passes the same test.
pub fn has_info_sector(data: &[u8]) -> (found: bool)
    ensures
        found == opens_with_info_sector(data@),
{
    if data.len() < INFO_SECTOR_BYTES {
        return false;
    }
    if !bytes::zero_between(data, INFO_SECTOR_RESERVED_FROM, INFO_SECTOR_BYTES - 4) {
        return false;
    }
    bytes::wrapping_total(data, 127) == bytes::read_word(data, INFO_SECTOR_BYTES - 4)
}

/// Whether `data` is a bare bootloader image that still needs an info sector in front of it, i.e. anything not already
/// carrying one.
///
/// Defaulting to "bare" is deliberate: a spurious sector is visible immediately, while a bootloader one sector early
/// reads back correct and the device simply never boots.
pub fn needs_info_sector(data: &[u8]) -> (bare: bool)
    ensures
        bare == !opens_with_info_sector(data@),
{
    !has_info_sector(data)
}

/// Put a bootloader image into the form the SoC expects to find on eMMC.
///
/// A bare image gets an info sector prepended; one that already has it is passed through untouched. The result is
/// capped at [`BOOT_IMAGE_BYTES`].
pub fn to_boot_image(data: &[u8]) -> (image: Vec<u8>)
    ensures
        image@ == boot_image(data@),
{
    if !needs_info_sector(data) {
        let kept: usize = if data.len() < BOOT_IMAGE_BYTES {
            data.len()
        } else {
            BOOT_IMAGE_BYTES
        };
        let image: Vec<u8> = bytes::copy_between(data, 0, kept);
        assert(image@ =~= boot_image(data@));
        return image;
    }
    let sector: [u8; INFO_SECTOR_BYTES] = info_sector();
    let mut image: Vec<u8> = bytes::copy_between(&sector, 0, INFO_SECTOR_BYTES);
    assert(image@ =~= info_sector_bytes());
    image.extend_from_slice(data);
    assert(image@ =~= info_sector_bytes() + data@);
    image.truncate(BOOT_IMAGE_BYTES);
    assert(image@ =~= boot_image(data@));
    image
}

/// What a boot hwpart is given of an image: always as much as the smaller ones hold, cut off or with zeros behind it.
pub open spec fn hwpart_part(image: Seq<u8>) -> Seq<u8> {
    if image.len() < BOOT_HWPART_BYTES {
        image + bytes::zeros((BOOT_HWPART_BYTES - image.len()) as nat)
    } else {
        image.take(BOOT_HWPART_BYTES as int)
    }
}

/// Whether an image fits a boot hwpart: it has nothing but zeros past that size.
pub open spec fn fits_hwpart(image: Seq<u8>) -> bool {
    image.len() > BOOT_HWPART_BYTES ==> bytes::all_zero(image.skip(BOOT_HWPART_BYTES as int))
}

/// What is said of an image that does not fit a boot hwpart.
pub open spec fn overflow_text() -> Seq<char> {
    "boot image carries content past "@ + text::decimal(BOOT_HWPART_BYTES as nat)
        + " bytes and will not fit a 2 MiB boot hwpart"@
}

/// Size an image for a boot hwpart. One with content past what the smaller ones hold is refused.
pub fn for_hwpart(image: &[u8]) -> (sized: Result<Vec<u8>, Error>)
    ensures
        sized is Ok <==> fits_hwpart(image@),
        sized matches Ok(data) ==> data@ == hwpart_part(image@),
        sized matches Err(e) ==> error::is_invalid(e, overflow_text()),
{
    let length: usize = image.len();
    let mut end: usize = length;
    if length >= BOOT_HWPART_BYTES {
        assert(image@.subrange(BOOT_HWPART_BYTES as int, length as int) =~= image@.skip(BOOT_HWPART_BYTES as int));
        if !bytes::zero_between(image, BOOT_HWPART_BYTES, length) {
            let mut shown = "boot image carries content past ".to_owned();
            text::push_decimal(&mut shown, BOOT_HWPART_BYTES as u64);
            shown.append(" bytes and will not fit a 2 MiB boot hwpart");
            return Err(Error::InvalidOperation(shown));
        }
        end = BOOT_HWPART_BYTES;
    }
    let mut data = bytes::copy_between(image, 0, end);
    bytes::push_zeros(&mut data, BOOT_HWPART_BYTES - end);
    assert(data@ =~= hwpart_part(image@));
    Ok(data)
}

/// A boot hwpart is always given its full size, and of an image that fits it is given everything: what is cut off or
/// put behind the image is zero.
pub proof fn only_zeros_are_cut_off(image: Seq<u8>)
    requires
        fits_hwpart(image),
    ensures
        hwpart_part(image).len() == BOOT_HWPART_BYTES,
        forall|i: int|
            0 <= i < image.len() && i < BOOT_HWPART_BYTES ==> #[trigger] hwpart_part(image)[i] == image[i],
        forall|i: int| BOOT_HWPART_BYTES <= i < image.len() ==> image[i] == 0,
        forall|i: int| image.len() <= i < BOOT_HWPART_BYTES ==> hwpart_part(image)[i] == 0,
{
    assert forall|i: int| BOOT_HWPART_BYTES <= i < image.len() implies image[i] == 0 by {
        assert(image[i] == image.skip(BOOT_HWPART_BYTES as int)[i - BOOT_HWPART_BYTES]);
    }
}

/// A prepared image that is sized for a boot hwpart is still a prepared one.
pub proof fn sizing_keeps_the_info_sector(data: Seq<u8>)
    ensures
        boot_image(hwpart_part(boot_image(data))) == hwpart_part(boot_image(data)),
{
    let image = boot_image(data);
    let sized = hwpart_part(image);
    boot_image_is_idempotent(data);
    assert(sized.take(512) =~= image.take(512));
    lemma_info_sector_prefix(sized, image);
}

/// Whether a write to the user area could be that of a bootloader: at the start of the disk, and no larger than a
/// bootloader. A whole-disk image is larger.
pub open spec fn may_be_bootloader(lba: u32, size: usize) -> bool {
    lba == 0 && 1 <= size <= BOOT_IMAGE_BYTES
}

/// How many bytes tell a bare bootloader of `size` bytes from a prepared one: a sector, or all there are.
pub open spec fn head_bytes(size: nat) -> nat {
    if size < INFO_SECTOR_BYTES {
        size
    } else {
        INFO_SECTOR_BYTES as nat
    }
}

/// How many bytes of the payload of a write to the user area have to be looked at before it is made, if any.
pub fn head_to_read(lba: u32, size: usize) -> (length: Option<usize>)
    ensures
        length is Some <==> may_be_bootloader(lba, size),
        length matches Some(n) ==> n == head_bytes(size as nat),
{
    if lba != 0 || size == 0 || size > BOOT_IMAGE_BYTES {
        return None;
    }
    Some(if size < INFO_SECTOR_BYTES { size } else { INFO_SECTOR_BYTES })
}

/// What is written ahead of the rest of a payload that starts with `head`: the head, behind an info sector when it is
/// not one itself.
pub open spec fn lead(head: Seq<u8>) -> Seq<u8> {
    if opens_with_info_sector(head) {
        head
    } else {
        info_sector_bytes() + head
    }
}

/// Builds what is written ahead of the rest of a payload, from its head.
pub fn bootloader_lead(head: Vec<u8>) -> (led: Vec<u8>)
    requires
        head@.len() <= INFO_SECTOR_BYTES,
    ensures
        led@ == lead(head@),
{
    if !needs_info_sector(head.as_slice()) {
        return head;
    }
    let sector: [u8; INFO_SECTOR_BYTES] = info_sector();
    let mut led = bytes::copy_between(&sector, 0, INFO_SECTOR_BYTES);
    assert(led@ =~= info_sector_bytes());
    led.extend_from_slice(head.as_slice());
    assert(led@ =~= lead(head@));
    led
}

/// How many bytes a payload of `size` bytes takes once its head is replaced by the lead.
pub open spec fn led_size(size: nat, head: Seq<u8>) -> int {
    size - head.len() + lead(head).len()
}

/// Builds the lead of a payload of `size` bytes from its head, and counts the bytes of the lead and the rest.
pub fn lead_payload(head: Vec<u8>, size: usize) -> (led: (Vec<u8>, usize))
    requires
        size <= BOOT_IMAGE_BYTES,
        head@.len() == head_bytes(size as nat),
    ensures
        led.0@ == lead(head@),
        led.1 == led_size(size as nat, head@),
{
    let rest: usize = size - head.len();
    let lead = bootloader_lead(head);
    proof {
        info_sector_is_recognised(Seq::empty());
    }
    let total: usize = rest + lead.len();
    (lead, total)
}

/// The lead and the rest of a payload make up the payload, behind an info sector when it has none of its own; so a
/// bare bootloader starts at the second sector of the disk, and a prepared one is not shifted.
pub proof fn lead_completes_the_payload(payload: Seq<u8>)
    ensures
        ({
            let head = payload.take(head_bytes(payload.len()) as int);
            let rest = payload.skip(head_bytes(payload.len()) as int);
            &&& lead(head) + rest == if opens_with_info_sector(payload) {
                payload
            } else {
                info_sector_bytes() + payload
            }
            &&& led_size(payload.len(), head) == (lead(head) + rest).len()
            &&& payload.len() + INFO_SECTOR_BYTES <= BOOT_IMAGE_BYTES ==> lead(head) + rest == boot_image(payload)
        }),
{
    let head = payload.take(head_bytes(payload.len()) as int);
    let rest = payload.skip(head_bytes(payload.len()) as int);
    if payload.len() >= 512 {
        assert(head.take(512) =~= payload.take(512));
        lemma_info_sector_prefix(head, payload);
    }
    info_sector_is_recognised(payload);
    assert(head + rest =~= payload);
    assert(info_sector_bytes() + head + rest =~= info_sector_bytes() + payload);
}

/// The info sector byte by byte: version 1, the reserved region at sector 0x12000, DDR parameters at sector 0x4000 of
/// it and 4 sectors long, the checksum 0x16005 in the last four bytes, and nothing else.
pub proof fn info_sector_has_its_fields(at: int)
    requires
        0 <= at < 512,
    ensures
        info_sector_bytes().len() == 512,
        at == 0x000 ==> info_sector_bytes()[at] == 0x01,
        at == 0x005 ==> info_sector_bytes()[at] == 0x20,
        at == 0x006 ==> info_sector_bytes()[at] == 0x01,
        at == 0x011 ==> info_sector_bytes()[at] == 0x40,
        at == 0x014 ==> info_sector_bytes()[at] == 0x04,
        at == 0x1fc ==> info_sector_bytes()[at] == 0x05,
        at == 0x1fd ==> info_sector_bytes()[at] == 0x60,
        at == 0x1fe ==> info_sector_bytes()[at] == 0x01,
        at != 0x000 && at != 0x005 && at != 0x006 && at != 0x011 && at != 0x014 && at != 0x1fc && at != 0x1fd && at
            != 0x1fe ==> info_sector_bytes()[at] == 0,
{
    lemma_info_sector_words();
}

/// With zeros behind the header, the sum of the words is that of the header.
proof fn lemma_sum_of_header(data: Seq<u8>, count: nat)
    requires
        data.len() >= 512,
        6 <= count <= 127,
        forall|i: int| 0x18 <= i < 0x1fc ==> data[i] == 0,
    ensures
        bytes::words_total(data, count) == bytes::word_at(data, 0) + bytes::word_at(data, 4) + bytes::word_at(data, 8)
            + bytes::word_at(data, 12) + bytes::word_at(data, 16) + bytes::word_at(data, 20),
    decreases count,
{
    if count == 6 {
        reveal_with_fuel(bytes::words_total, 7);
    } else {
        lemma_sum_of_header(data, (count - 1) as nat);
        assert(bytes::word_at(data, 4 * (count - 1)) == 0);
    }
}

/// Data counts as prepared exactly when it has a sector whose bytes from 0x18 up to the last four are zero, and whose
/// last four bytes spell the sum of the six words ahead of the zeros, cut to 32 bits.
pub proof fn info_sectors_are_told_by_their_checksum(data: Seq<u8>)
    ensures
        opens_with_info_sector(data) <==> {
            &&& data.len() >= 512
            &&& forall|i: int| 0x18 <= i < 0x1fc ==> data[i] == 0
            &&& data[0x1fc] + 0x100 * data[0x1fd] + 0x1_0000 * data[0x1fe] + 0x100_0000 * data[0x1ff] == ((data[0]
                + data[4] + data[8] + data[12] + data[16] + data[20]) + 0x100 * (data[1] + data[5] + data[9]
                + data[13] + data[17] + data[21]) + 0x1_0000 * (data[2] + data[6] + data[10] + data[14] + data[18]
                + data[22]) + 0x100_0000 * (data[3] + data[7] + data[11] + data[15] + data[19] + data[23]))
                % 0x1_0000_0000
        },
{
    if data.len() >= 512 {
        let middle = data.subrange(0x18, 0x1fc);
        if bytes::all_zero(middle) {
            assert forall|i: int| 0x18 <= i < 0x1fc implies data[i] == 0 by {
                assert(middle[i - 0x18] == data[i]);
            }
        }
        if forall|i: int| 0x18 <= i < 0x1fc ==> data[i] == 0 {
            lemma_sum_of_header(data, 127);
        }
    }
}

/// A bare image, however long, comes out as the info sector and then itself, from its first byte on, up to 4 MiB in
/// all. No byte is changed, left out or moved.
pub proof fn bare_image_follows_the_info_sector(data: Seq<u8>)
    requires
        !opens_with_info_sector(data),
    ensures
        boot_image(data).len() == (if 512 + data.len() < 4194304 {
            512 + data.len()
        } else {
            4194304
        }),
        forall|i: int| 0 <= i < 512 ==> boot_image(data)[i] == info_sector_bytes()[i],
        forall|i: int| 0 <= i && 512 + i < boot_image(data).len() ==> boot_image(data)[512 + i] == #[trigger] data[i],
{
    lemma_info_sector_words();
}

/// An image that is prepared comes out as it is, up to 4 MiB.
pub proof fn prepared_image_is_left_alone(data: Seq<u8>)
    requires
        opens_with_info_sector(data),
    ensures
        boot_image(data).len() == (if data.len() < 4194304 {
            data.len()
        } else {
            4194304
        }),
        forall|i: int| 0 <= i < boot_image(data).len() ==> boot_image(data)[i] == data[i],
{
}

/// A boot hwpart is given 2 MiB: the image as far as that goes, and zeros behind it.
pub proof fn hwparts_get_two_mebibytes(image: Seq<u8>)
    ensures
        hwpart_part(image).len() == 2097152,
        forall|i: int| 0 <= i < 2097152 && i < image.len() ==> hwpart_part(image)[i] == image[i],
        forall|i: int| image.len() <= i < 2097152 ==> hwpart_part(image)[i] == 0,
        fits_hwpart(image) <==> forall|i: int| 2097152 <= i < image.len() ==> image[i] == 0,
{
    if image.len() > 2097152 {
        let tail = image.skip(2097152);
        if bytes::all_zero(tail) {
            assert forall|i: int| 2097152 <= i < image.len() implies image[i] == 0 by {
                assert(tail[i - 2097152] == image[i]);
            }
        }
    }
}

/// A write is looked at exactly when it starts the disk, is not empty and is 4 MiB at most; a sector of it is read, or
/// all there is.
pub proof fn small_writes_at_the_start_are_looked_at(lba: u32, size: usize)
    ensures
        may_be_bootloader(lba, size) <==> lba == 0 && 0 < size && size <= 4194304,
        head_bytes(size as nat) <= 512 && head_bytes(size as nat) <= size,
        head_bytes(size as nat) == 512 || head_bytes(size as nat) == size,
{
}

/// Leading a payload moves all of it by the 512 bytes of the info sector, or by nothing when it has one.
pub proof fn leading_moves_the_payload(payload: Seq<u8>)
    ensures
        ({
            let head = payload.take(head_bytes(payload.len()) as int);
            let written = lead(head) + payload.skip(head_bytes(payload.len()) as int);
            let moved: int = if opens_with_info_sector(payload) {
                0
            } else {
                512
            };
            &&& written.len() == payload.len() + moved
            &&& led_size(payload.len(), head) == payload.len() + moved
            &&& forall|i: int| 0 <= i < payload.len() ==> written[i + moved] == #[trigger] payload[i]
            &&& forall|i: int| 0 <= i < moved ==> written[i] == info_sector_bytes()[i]
        }),
{
    lead_completes_the_payload(payload);
    lemma_info_sector_words();
}

/// What is said of an image that does not fit names the 2 MiB in bytes.
pub proof fn overflow_is_told_in_bytes()
    ensures
        overflow_text()
            == "boot image carries content past 2097152 bytes and will not fit a 2 MiB boot hwpart"@,
{
    reveal_strlit("boot image carries content past ");
    reveal_strlit(" bytes and will not fit a 2 MiB boot hwpart");
    reveal_strlit("boot image carries content past 2097152 bytes and will not fit a 2 MiB boot hwpart");
    reveal_with_fuel(text::digits, 8);
    assert(text::decimal(2097152) =~= seq!['2', '0', '9', '7', '1', '5', '2']);
    assert(overflow_text()
        =~= "boot image carries content past 2097152 bytes and will not fit a 2 MiB boot hwpart"@);
}

/// The bytes that a stock second-stage bootloader starts with.
pub proof fn stock_bootloaders_start_alike()
    ensures
        STOCK_BL2_PREFIX@ == seq![0x0cu8, 0x62u8, 0x7au8, 0x15u8, 0xbeu8, 0x94u8, 0x07u8, 0xb2u8],
{
}

} // verus!
