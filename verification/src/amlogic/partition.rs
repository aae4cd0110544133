//! Partitions and boot hardware partitions, through vendor U-Boot.
use vstd::prelude::*;

use super::command::Command;
use super::stream::{TRANSFER_BLOCK_SIZE, TRANSFER_SIZE_THRESHOLD};
use super::{memory, Reply};
use crate::bytes;
use crate::error;
use crate::error::Error;
use crate::partitions::PartitionInfo;
use crate::text;

verus! {

/// Where a size check stands.
#[derive(Clone, Copy, PartialEq, Eq, Structural)]
pub enum ValidateState {
    /// The last sector is being read.
    Size,
    /// The last sector of the alternate size is being read.
    Alternate,
    Finished,
}

/// What a size check wants done.
pub enum ValidateAction {
    Run(Command),
    /// The partition has so many bytes.
    Sized(usize),
    /// The error of the last command is that of the check.
    Rethrow,
}

/// A check of a partition's size, by reading its last sector.
pub struct ValidateSize {
    pub name: String,
    pub size: usize,
    pub size_alt: Option<usize>,
    pub state: ValidateState,
}

/// Whether a size in sectors is one that can be checked: at least one sector, and a number of bytes that fits.
pub open spec fn checkable(sectors: usize) -> bool {
    0 < sectors && sectors * 512 <= usize::MAX
}

/// Whether a command reads the last sector of a partition of the given size.
pub open spec fn reads_last_sector(command: Command, partition: Seq<char>, sectors: usize) -> bool {
    command matches Command::ReadPartition { name, offset, length } && {
        &&& name@ == partition
        &&& offset == sectors * 512 - 512
        &&& length == 512
    }
}

/// Whether a partition takes its alternate size when the first one fails: only `data` does.
pub open spec fn has_alternate(name: Seq<char>, size_alt: Option<usize>) -> bool {
    name == "data"@ && size_alt is Some
}

/// The command that reads the last sector of a partition.
fn read_last_sector(name: &str, sectors: usize) -> (command: Command)
    requires
        checkable(sectors),
    ensures
        reads_last_sector(command, name@, sectors),
{
    Command::ReadPartition { name: name.to_owned(), offset: (sectors * 512 - 512) as u64, length: 512 }
}

impl ValidateSize {
    /// Whether the size that is being read is checkable.
    pub open spec fn wf(self) -> bool {
        &&& checkable(self.size)
        &&& self.state == ValidateState::Alternate ==> has_alternate(self.name@, self.size_alt) && checkable(
            self.size_alt->0,
        )
    }

    /// Whether a reply can be taken in: an alternate size has to be checkable once it is its turn.
    pub open spec fn awaits(self, reply: Reply) -> bool {
        &&& self.state != ValidateState::Finished
        &&& reply is Failed && self.state == ValidateState::Size && has_alternate(self.name@, self.size_alt)
            ==> checkable(self.size_alt->0)
    }

    /// Starts a check. The partitions `cache` and `reserved` are refused.
    pub fn validate_partition_size(name: &str, info: &PartitionInfo) -> (started: Result<(Self, Command), Error>)
        requires
            name@ != "cache"@ && name@ != "reserved"@ ==> checkable(info.size),
        ensures
            started is Ok <==> name@ != "cache"@ && name@ != "reserved"@,
            started matches Ok(s) ==> {
                &&& s.0.wf()
                &&& s.0.name@ == name@
                &&& s.0.size == info.size
                &&& s.0.size_alt == info.size_alt
                &&& s.0.state == ValidateState::Size
                &&& reads_last_sector(s.1, name@, info.size)
                &&& s.1 matches Command::ReadPartition { name: read, offset, length: 512 } && read@ == name@ && offset
                    + 512 == 512 * info.size
            },
            started matches Err(e) ==> if name@ == "cache"@ {
                error::is_invalid(e, "Cache partition is zero-length"@)
            } else {
                error::is_invalid(e, "Reserved partition cannot be accessed"@)
            },
    {
        if text::same_text(name, "cache") {
            return Err(error::invalid("Cache partition is zero-length"));
        }
        if text::same_text(name, "reserved") {
            return Err(error::invalid("Reserved partition cannot be accessed"));
        }
        let command = read_last_sector(name, info.size);
        Ok(
            (
                ValidateSize {
                    name: name.to_owned(),
                    size: info.size,
                    size_alt: info.size_alt,
                    state: ValidateState::Size,
                },
                command,
            ),
        )
    }

    /// One step of a check: a size holds when its last sector can be read, and `data` has a second chance.
    pub open spec fn advances(pre: Self, reply: Reply, post: Self, action: ValidateAction) -> bool {
        let tried = if pre.state == ValidateState::Size {
            pre.size
        } else {
            pre.size_alt->0
        };
        if reply is Done {
            &&& post == (ValidateSize { state: ValidateState::Finished, ..pre })
            &&& action == ValidateAction::Sized((tried * 512) as usize)
        } else if pre.state == ValidateState::Size && has_alternate(pre.name@, pre.size_alt) {
            &&& post == (ValidateSize { state: ValidateState::Alternate, ..pre })
            &&& action matches ValidateAction::Run(command) && reads_last_sector(command, pre.name@, pre.size_alt->0)
        } else {
            &&& post == (ValidateSize { state: ValidateState::Finished, ..pre })
            &&& action is Rethrow
        }
    }

    /// Takes in how the last command went and gives the next step.
    pub fn resume(&mut self, reply: Reply) -> (action: ValidateAction)
        requires
            old(self).wf(),
            old(self).awaits(reply),
        ensures
            final(self).wf(),
            Self::advances(*old(self), reply, *final(self), action),
    {
        let first: bool = self.state == ValidateState::Size;
        match reply {
            Reply::Done => {
                self.state = ValidateState::Finished;
                if first {
                    return ValidateAction::Sized(self.size * 512);
                }
                match self.size_alt {
                    Some(sectors) => ValidateAction::Sized(sectors * 512),
                    None => ValidateAction::Rethrow,
                }
            },
            Reply::Failed => {
                if first && text::same_text(self.name.as_str(), "data") {
                    match self.size_alt {
                        Some(sectors) => {
                            self.state = ValidateState::Alternate;
                            return ValidateAction::Run(read_last_sector(self.name.as_str(), sectors));
                        },
                        None => {},
                    }
                }
                self.state = ValidateState::Finished;
                ValidateAction::Rethrow
            },
        }
    }
}

/// A check reports only a size that the table gives, and reports the alternate one only for `data`.
pub proof fn validated_size_is_in_the_table(
    pre: ValidateSize,
    reply: Reply,
    post: ValidateSize,
    action: ValidateAction,
)
    requires
        pre.wf(),
        pre.awaits(reply),
        ValidateSize::advances(pre, reply, post, action),
    ensures
        action matches ValidateAction::Sized(found) ==> {
            ||| found == pre.size * 512
            ||| has_alternate(pre.name@, pre.size_alt) && found == pre.size_alt->0 * 512
        },
{
}

/// One item of a fixed sequence of operations, which ends early when one of them fails.
pub enum ScriptItem {
    Run(Command),
    /// Write the data to the staging area, padded to whole blocks.
    Stage { data: Vec<u8>, block_length: usize },
}

/// Whether an item stages the given data.
pub open spec fn stages(item: ScriptItem, data: Seq<u8>) -> bool {
    item matches ScriptItem::Stage { data: staged, block_length } && staged@ == data && block_length
        == TRANSFER_BLOCK_SIZE
}

/// Writes a boot hardware partition: select it, unlock, stage the data, write its sectors, and go back to the user
/// area. The hardware partition has to be 1 or 2, and the data has to fit one transfer.
pub fn write_boot_partition(hwpart: u8, data: Vec<u8>) -> (script: Result<Vec<ScriptItem>, Error>)
    ensures
        script is Ok <==> 1 <= hwpart <= 2 && data@.len() <= 8388608,
        script matches Ok(items) ==> {
            &&& items@.len() == 5
            &&& items@[0] == ScriptItem::Run(Command::SelectHwpart { hwpart })
            &&& items@[1] == ScriptItem::Run(Command::UnlockKey)
            &&& stages(items@[2], data@)
            &&& items@[2] matches ScriptItem::Stage { data: staged, block_length: 4096 } && staged@ == data@
            &&& items@[3] matches ScriptItem::Run(Command::WriteBoot { sectors }) && data@.len() <= 512 * sectors
                < data@.len() + 512
            &&& items@[3] == ScriptItem::Run(
                Command::WriteBoot { sectors: bytes::div_up(data@.len(), 512) as u64 },
            )
            &&& items@[4] == ScriptItem::Run(Command::SelectHwpart { hwpart: 0 })
        },
        script matches Err(e) ==> if !(1 <= hwpart <= 2) {
            error::is_invalid(e, "boot hwpart must be 1 or 2, got "@ + text::decimal(hwpart as nat))
        } else {
            error::is_invalid(
                e,
                "boot partition payload "@ + text::decimal(data@.len())
                    + " bytes exceeds single-transfer cap "@ + text::decimal(TRANSFER_SIZE_THRESHOLD as nat),
            )
        },
{
    if hwpart < 1 || hwpart > 2 {
        let mut shown = "boot hwpart must be 1 or 2, got ".to_owned();
        text::push_decimal(&mut shown, hwpart as u64);
        return Err(Error::InvalidOperation(shown));
    }
    let length: usize = data.len();
    if length > TRANSFER_SIZE_THRESHOLD {
        let mut shown = "boot partition payload ".to_owned();
        text::push_decimal(&mut shown, length as u64);
        shown.append(" bytes exceeds single-transfer cap ");
        text::push_decimal(&mut shown, TRANSFER_SIZE_THRESHOLD as u64);
        return Err(Error::InvalidOperation(shown));
    }
    let sectors: usize = bytes::sectors_for(length);
    let mut items: Vec<ScriptItem> = Vec::new();
    items.push(ScriptItem::Run(Command::SelectHwpart { hwpart }));
    items.push(ScriptItem::Run(Command::UnlockKey));
    items.push(ScriptItem::Stage { data, block_length: TRANSFER_BLOCK_SIZE });
    items.push(ScriptItem::Run(Command::WriteBoot { sectors: sectors as u64 }));
    items.push(ScriptItem::Run(Command::SelectHwpart { hwpart: 0 }));
    Ok(items)
}

/// The sectors written to a boot hardware partition hold all of the data, are all staged, and hold nothing but zeros
/// behind the data.
pub proof fn boot_sectors_hold_the_data(data: Seq<u8>)
    ensures
        ({
            let staged = memory::padded(data, TRANSFER_BLOCK_SIZE as nat);
            let count = bytes::div_up(data.len(), 512) * 512;
            &&& data.len() <= count <= staged.len()
            &&& staged.take(data.len() as int) == data
            &&& bytes::all_zero(staged.subrange(data.len() as int, count as int))
        }),
{
    let staged = memory::padded(data, TRANSFER_BLOCK_SIZE as nat);
    assert(staged.take(data.len() as int) =~= data);
}

/// A size is checked by reading the last 512 bytes that the partition would have. If they can be read, the partition
/// has that size; if not, `data` is checked once more by its alternate size, and any other partition fails.
pub proof fn sizes_are_checked_at_their_end(
    pre: ValidateSize,
    reply: Reply,
    post: ValidateSize,
    action: ValidateAction,
)
    requires
        pre.wf(),
        pre.awaits(reply),
        ValidateSize::advances(pre, reply, post, action),
    ensures
        post.name == pre.name && post.size == pre.size && post.size_alt == pre.size_alt,
        reply is Done && pre.state == ValidateState::Size ==> (action matches ValidateAction::Sized(found) && found
            == 512 * pre.size),
        reply is Done && pre.state == ValidateState::Alternate ==> (action matches ValidateAction::Sized(found)
            && found == 512 * pre.size_alt->0),
        reply is Failed && pre.state == ValidateState::Size && pre.name@ == "data"@ && pre.size_alt is Some ==> {
            &&& post.state == ValidateState::Alternate
            &&& action matches ValidateAction::Run(Command::ReadPartition { name, offset, length: 512 }) && name@
                == "data"@ && offset + 512 == 512 * pre.size_alt->0
        },
        reply is Failed && !(pre.state == ValidateState::Size && pre.name@ == "data"@ && pre.size_alt is Some)
            ==> action is Rethrow,
{
}

/// A size can be checked when it is not zero and its bytes can be counted.
pub proof fn sizes_need_a_last_sector(sectors: usize, name: Seq<char>, size_alt: Option<usize>)
    ensures
        checkable(sectors) <==> 1 <= sectors && 512 * sectors <= usize::MAX,
        has_alternate(name, size_alt) <==> name == "data"@ && size_alt is Some,
{
}

} // verus!
