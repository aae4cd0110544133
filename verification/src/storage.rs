//! The eMMC as the flashing logic sees it: sectors, erase groups, and what writing and erasing do to its bytes.
use vstd::prelude::*;

use crate::bytes;

verus! {

/// Bytes of a sector.
pub const PART_SECTOR_SIZE: usize = 512;

/// Sectors of an erase group: the smallest range that an erase command clears and nothing else.
pub const ERASE_GROUP_SECTORS: u64 = 8192;

/// Sectors to erase.
#[derive(Clone, Copy, PartialEq, Eq, Structural)]
pub struct EraseSpan {
    pub lba: u64,
    pub sectors: u64,
}

/// Sectors that hold `length` bytes.
pub open spec fn sectors_of(length: int) -> int {
    bytes::div_up(length as nat, PART_SECTOR_SIZE as nat) as int
}

/// The data with zeros behind it, up to a whole sector.
pub open spec fn in_sectors(data: Seq<u8>) -> Seq<u8> {
    data + bytes::zeros((sectors_of(data.len() as int) * 512 - data.len()) as nat)
}

/// Puts zeros behind the data, up to a whole sector.
pub fn fill_sector(data: Vec<u8>) -> (filled: Vec<u8>)
    ensures
        filled@ == in_sectors(data@),
{
    let rest: usize = data.len() % PART_SECTOR_SIZE;
    let mut filled = data;
    if rest != 0 {
        bytes::push_zeros(&mut filled, PART_SECTOR_SIZE - rest);
    }
    assert(filled@ =~= in_sectors(data@));
    filled
}

/// The sectors of a chunk are the sectors of the payload at its place.
pub proof fn lemma_chunk(payload: Seq<u8>, offset: int, length: int)
    requires
        0 <= offset,
        0 < length,
        offset + length <= payload.len(),
        offset % 512 == 0,
        length % 512 == 0 || offset + length == payload.len(),
    ensures
        ({
            let end = offset + sectors_of(length) * 512;
            let chunk = in_sectors(payload.subrange(offset, offset + length));
            &&& chunk.len() == sectors_of(length) * 512
            &&& end <= in_sectors(payload).len()
            &&& offset + length == payload.len() ==> end == in_sectors(payload).len()
            &&& offset + length < payload.len() ==> end == offset + length
            &&& forall|k: int| offset <= k < end ==> chunk[k - offset] == #[trigger] in_sectors(payload)[k]
        }),
{
    let part = payload.subrange(offset, offset + length);
    assert(sectors_of(length) * 512 >= length);
    assert(sectors_of(payload.len() as int) * 512 >= payload.len());
    assert(offset + length == payload.len() ==> offset + sectors_of(length) * 512 == sectors_of(
        payload.len() as int,
    ) * 512);
}

/// Where the first whole erase group at or after `first` starts.
pub open spec fn group_start(first: int) -> int {
    bytes::div_up(first as nat, ERASE_GROUP_SECTORS as nat) * ERASE_GROUP_SECTORS
}

/// Where the last whole erase group at or before `end` ends.
pub open spec fn group_end(end: int) -> int {
    end / ERASE_GROUP_SECTORS as int * ERASE_GROUP_SECTORS
}

/// Where a write of `size` bytes from sector `first` on ends, in sectors.
pub open spec fn write_end(first: int, size: nat) -> int {
    first + bytes::div_up(size, PART_SECTOR_SIZE as nat)
}

/// The whole erase groups inside a write of `size` bytes from sector `first` on, if there are any.
pub fn erase_span(first: u64, size: usize) -> (span: Option<EraseSpan>)
    requires
        group_start(first as int) <= u64::MAX,
        write_end(first as int, size as nat) <= u64::MAX,
    ensures
        span is Some <==> group_start(first as int) < group_end(write_end(first as int, size as nat)),
        span matches Some(s) ==> {
            &&& s.lba == group_start(first as int)
            &&& s.lba + s.sectors == group_end(write_end(first as int, size as nat))
        },
{
    let sectors: u64 = bytes::sectors_for(size) as u64;
    let groups: u64 = if first % ERASE_GROUP_SECTORS == 0 {
        first / ERASE_GROUP_SECTORS
    } else {
        first / ERASE_GROUP_SECTORS + 1
    };
    let start: u64 = groups * ERASE_GROUP_SECTORS;
    let end: u64 = (first + sectors) / ERASE_GROUP_SECTORS * ERASE_GROUP_SECTORS;
    if end > start {
        Some(EraseSpan { lba: start, sectors: end - start })
    } else {
        None
    }
}

/// The erased sectors lie inside the write, start and end at group borders, and leave less than a group of it on
/// either side.
pub proof fn erase_stays_inside_the_write(first: int, size: nat)
    requires
        0 <= first,
        group_start(first) < group_end(write_end(first, size)),
    ensures
        ({
            let start = group_start(first);
            let end = group_end(write_end(first, size));
            &&& first <= start < first + ERASE_GROUP_SECTORS
            &&& write_end(first, size) - ERASE_GROUP_SECTORS < end <= write_end(first, size)
            &&& start % ERASE_GROUP_SECTORS as int == 0
            &&& end % ERASE_GROUP_SECTORS as int == 0
        }),
{
}

/// A disk after `data` was written over it from byte `at` on.
pub open spec fn overwritten(disk: Seq<u8>, at: int, data: Seq<u8>) -> Seq<u8> {
    Seq::new(
        disk.len(),
        |b: int|
            if at <= b < at + data.len() {
                data[b - at]
            } else {
                disk[b]
            },
    )
}

/// Whether two disks differ at most between the bytes `from` and `to`.
pub open spec fn same_outside(a: Seq<u8>, b: Seq<u8>, from: int, to: int) -> bool {
    &&& a.len() == b.len()
    &&& forall|i: int| 0 <= i < a.len() && !(from <= i < to) ==> a[i] == b[i]
}

/// Data is brought up to whole sectors of 512 bytes with less than a sector of zeros behind it.
pub proof fn sectors_are_filled_with_zeros(data: Seq<u8>)
    ensures
        in_sectors(data).len() % 512 == 0,
        data.len() <= in_sectors(data).len() < data.len() + 512,
        in_sectors(data).len() == 512 * sectors_of(data.len() as int),
        forall|i: int| 0 <= i < data.len() ==> in_sectors(data)[i] == data[i],
        forall|i: int| data.len() <= i < in_sectors(data).len() ==> in_sectors(data)[i] == 0,
{
    bytes::rounding_up_is_tight(data.len(), 512);
}

/// An erase starts at the first border of a group of 8192 sectors that is not before the write, and ends at the last
/// one that is not behind it.
pub proof fn erase_borders_are_the_nearest(first: int, size: nat)
    requires
        0 <= first,
    ensures
        group_start(first) % 8192 == 0,
        first <= group_start(first) < first + 8192,
        group_end(first) % 8192 == 0,
        first - 8192 < group_end(first) <= first,
        512 * (write_end(first, size) - first) >= size,
        512 * (write_end(first, size) - first) < size + 512,
{
    bytes::rounding_up_is_tight(size, 512);
    bytes::rounding_up_is_tight(first as nat, 8192);
}

/// Writing over a disk changes the bytes from `at` on into the data and leaves every other byte.
pub proof fn writing_changes_only_its_place(disk: Seq<u8>, at: int, data: Seq<u8>)
    requires
        0 <= at,
        at + data.len() <= disk.len(),
    ensures
        overwritten(disk, at, data) == disk.take(at) + data + disk.skip(at + data.len()),
        same_outside(disk, overwritten(disk, at, data), at, at + data.len()),
{
    assert(overwritten(disk, at, data) =~= disk.take(at) + data + disk.skip(at + data.len()));
}

/// Two disks that are the same outside a range agree byte for byte before it and behind it.
pub proof fn same_outside_means_same_ends(a: Seq<u8>, b: Seq<u8>, from: int, to: int)
    requires
        0 <= from <= to <= a.len(),
    ensures
        same_outside(a, b, from, to) <==> a.len() == b.len() && a.take(from) == b.take(from)
            && a.skip(to) == b.skip(to),
{
    if a.len() == b.len() && a.take(from) == b.take(from) && a.skip(to) == b.skip(to) {
        assert forall|i: int| 0 <= i < a.len() && !(from <= i < to) implies a[i] == b[i] by {
            if i < from {
                assert(a.take(from)[i] == b.take(from)[i]);
            } else {
                assert(a.skip(to)[i - to] == b.skip(to)[i - to]);
            }
        }
    }
    if same_outside(a, b, from, to) {
        assert(a.take(from) =~= b.take(from));
        assert(a.skip(to) =~= b.skip(to));
    }
}

} // verus!
