//! The partition table of the device.
use vstd::prelude::*;

use crate::text;

verus! {

/// Where a partition lies and how large it is, in sectors.
#[derive(Debug, Clone, Copy, PartialEq, Eq, Structural)]
pub struct PartitionInfo {
    pub offset: usize,
    pub size: usize,
    /// The size that some devices have instead.
    pub size_alt: Option<usize>,
}

/// A named entry of the partition table.
#[derive(Debug, Clone)]
pub struct Partition {
    pub name: String,
    pub info: PartitionInfo,
}

/// Whether entry `i` is the first one with the given name.
pub open spec fn is_first(table: Seq<Partition>, name: Seq<char>, i: int) -> bool {
    &&& 0 <= i < table.len()
    &&& table[i].name@ == name
    &&& forall|j: int| 0 <= j < i ==> (#[trigger] table[j]).name@ != name
}

/// Whether the table has an entry with the given name.
pub open spec fn is_listed(table: Seq<Partition>, name: Seq<char>) -> bool {
    exists|i: int| 0 <= i < table.len() && (#[trigger] table[i]).name@ == name
}

/// Looks a partition up by its name.
pub fn find_partition(table: &Vec<Partition>, name: &str) -> (found: Option<PartitionInfo>)
    ensures
        found is Some <==> is_listed(table@, name@),
        found matches Some(info) ==> exists|i: int| #[trigger] is_first(table@, name@, i) && table@[i].info == info,
        found is None <==> forall|i: int| 0 <= i < table@.len() ==> (#[trigger] table@[i]).name@ != name@,
        found matches Some(info) ==> exists|i: int|
            0 <= i < table@.len() && (#[trigger] table@[i]).name@ == name@ && table@[i].info == info && forall|j: int|
                0 <= j < i ==> (#[trigger] table@[j]).name@ != name@,
{
    let mut i: usize = 0;
    while i < table.len()
        invariant
            i <= table@.len(),
            forall|j: int| 0 <= j < i ==> (#[trigger] table@[j]).name@ != name@,
        decreases table@.len() - i,
    {
        if text::same_text(table[i].name.as_str(), name) {
            assert(is_first(table@, name@, i as int));
            return Some(table[i].info);
        }
        i = i + 1;
    }
    None
}

/// A name has one first entry: no entry before it has that name, it is there exactly for the names that are listed,
/// and no other entry is first.
pub proof fn first_entries_are_unique(table: Seq<Partition>, name: Seq<char>, i: int, k: int)
    requires
        is_first(table, name, i),
    ensures
        is_listed(table, name),
        0 <= k < i ==> table[k].name@ != name,
        is_first(table, name, k) ==> k == i,
        table[i].name@ == name,
{
}

} // verus!
