//! Streaming a payload to the eMMC: chunk by chunk through the staging area, with retries.
use vstd::prelude::*;

use super::command::Command;
use super::memory;
use crate::bytes;
use crate::error;
use crate::error::{Error, Outcome};
use crate::storage;
use crate::text;

verus! {

/// Most bytes that are staged at once.
pub const TRANSFER_SIZE_THRESHOLD: usize = 8388608;

/// Block length of a staging write.
pub const TRANSFER_BLOCK_SIZE: usize = 4096;

/// How often a write command is tried.
pub const WRITE_TRIES: usize = 3;

/// Milliseconds of rest after a failed or slow write command.
pub const COOL_DOWN_MILLIS: u64 = 5000;

/// Milliseconds of rest after a bootloader write.
pub const BOOTLOADER_REST_MILLIS: u64 = 2000;

/// Nanoseconds beyond which a write command counts as slow.
pub const SLOW_WRITE_NANOS: u128 = 3000000000;

/// Where a stream goes.
pub enum StreamTarget {
    /// A byte address of the disk, staged in blocks of a given length.
    Disk { address: u32, block_length: usize, append_zeros: bool },
    /// A sector of the user area, with or without erasing first so that zeros need no writing.
    UserArea { lba: u32, sparse: bool },
    /// A named partition.
    Partition { name: String },
}

/// Where a stream stands.
#[derive(Clone, Copy, PartialEq, Eq, Structural)]
pub enum StreamState {
    /// The device is being selected.
    Select,
    /// The storage is being unlocked.
    Unlock,
    /// Whole groups are being erased.
    Erase,
    /// A chunk of the payload was asked for.
    Read,
    /// The chunk is being staged.
    Stage,
    /// The chunk is being written.
    Write,
    /// Resting after a slow write.
    Cool,
    /// Resting after a failed write.
    Backoff,
    /// Resting after a bootloader write.
    Settle,
    /// The chunk was reported as done.
    Report,
    Finished,
}

/// What a stream wants done.
pub enum StreamAction {
    Run(Command),
    /// Read the next bytes of the payload.
    Read { length: usize },
    /// Write the data to the staging area.
    Stage { data: Vec<u8>, block_length: usize, append_zeros: bool },
    Sleep { millis: u64 },
    /// Tell whoever listens that so many more bytes are done.
    Report { length: usize },
    Finish(Outcome),
}

/// How the last action went.
pub enum StreamReply {
    Done,
    /// The command succeeded, so many nanoseconds after it was first tried.
    Ran { nanos: u128 },
    Payload(Vec<u8>),
    Failed,
}

/// A payload on its way to the eMMC.
pub struct StreamWrite {
    pub target: StreamTarget,
    /// Bytes of the payload.
    pub size: usize,
    /// The bytes of the payload that lie in the erased groups.
    pub erased_from: u64,
    pub erased_to: u64,
    /// Where the current chunk starts.
    pub offset: usize,
    /// Bytes of the current chunk.
    pub length: usize,
    /// How often the current chunk failed.
    pub retries: usize,
    pub state: StreamState,
}

/// Whether a command writes `length` bytes of the payload, from `offset` on, to the target. Where sectors are what is
/// written, a last part of one counts as a whole: it does so in the range that is erased first, and a write that
/// erases leaves the same bytes as one that does not.
pub open spec fn writes_chunk(command: Command, target: StreamTarget, offset: usize, length: usize) -> bool {
    match target {
        StreamTarget::Disk { address, .. } => command == (Command::WriteSectors {
            lba: ((address + offset) / 512) as u64,
            sectors: bytes::div_up(length as nat, 512) as u64,
        }),
        StreamTarget::UserArea { lba, .. } => command == (Command::WriteSectors {
            lba: (lba + offset / 512) as u64,
            sectors: bytes::div_up(length as nat, 512) as u64,
        }),
        StreamTarget::Partition { name } => command matches Command::WritePartition {
            name: shown,
            offset: from,
            length: count,
        } && shown@ == name@ && from == offset && count == length,
    }
}

/// Whether a target is the bootloader partition, whose write command is expected not to answer.
pub open spec fn is_bootloader(target: StreamTarget) -> bool {
    target matches StreamTarget::Partition { name } && name@ == "bootloader"@
}

/// Whether a chunk of `length` bytes is whole blocks and yet ends inside a sector.
pub open spec fn ends_in_sector(length: nat, block_length: nat) -> bool {
    length % 512 != 0 && block_length > 0 && length % block_length == 0
}

/// Block length and padding of the staging write of a chunk of `length` bytes. Blocks are padded where the target asks
/// for it, and for a last sector that whole blocks leave half filled.
pub open spec fn staging_of(target: StreamTarget, length: nat) -> (usize, bool) {
    match target {
        StreamTarget::Disk { block_length, append_zeros, .. } => (
            block_length,
            append_zeros || ends_in_sector(length, block_length as nat),
        ),
        _ => (TRANSFER_BLOCK_SIZE, true),
    }
}

/// What is staged of a chunk for a target: the chunk, with zeros up to a whole sector where sectors are written and
/// blocks are padded.
pub open spec fn staged_for(target: StreamTarget, data: Seq<u8>) -> Seq<u8> {
    if !(target is Partition) && staging_of(target, data.len()).1 {
        storage::in_sectors(data)
    } else {
        data
    }
}

/// The bytes of a payload of `size` bytes that lie in whole erase groups, when it goes to a target that erases.
pub open spec fn erased_bytes(target: StreamTarget, size: nat) -> (int, int) {
    match target {
        StreamTarget::UserArea { lba, sparse } => {
            let start = storage::group_start(lba as int);
            let end = storage::group_end(storage::write_end(lba as int, size));
            if sparse && start < end {
                ((start - lba) * 512, (end - lba) * 512)
            } else {
                (0, 0)
            }
        },
        _ => (0, 0),
    }
}

impl StreamWrite {
    /// Whether a chunk is under way.
    pub open spec fn in_chunk(self) -> bool {
        match self.state {
            StreamState::Select | StreamState::Unlock | StreamState::Erase | StreamState::Finished => false,
            _ => true,
        }
    }

    /// Whether the chunk lies inside the payload and is as long as chunks are, and the other fields agree.
    pub open spec fn wf(self) -> bool {
        &&& self.offset <= self.size
        &&& (self.erased_from as int, self.erased_to as int) == erased_bytes(self.target, self.size as nat)
        &&& self.retries < WRITE_TRIES || self.state == StreamState::Finished
        &&& self.in_chunk() ==> {
            &&& self.offset % TRANSFER_SIZE_THRESHOLD == 0
            &&& 0 < self.length <= TRANSFER_SIZE_THRESHOLD
            &&& self.offset + self.length <= self.size
            &&& self.length < TRANSFER_SIZE_THRESHOLD ==> self.offset + self.length == self.size
        }
        &&& !self.in_chunk() && self.state != StreamState::Finished ==> self.offset == 0
    }

    /// Whether a reply answers the action that is out.
    pub open spec fn awaits(self, reply: StreamReply) -> bool {
        match self.state {
            StreamState::Select | StreamState::Unlock | StreamState::Erase | StreamState::Write => reply is Ran
                || reply is Failed,
            StreamState::Read => {
                ||| reply matches StreamReply::Payload(data) && data@.len() == self.length
                ||| reply is Failed
            },
            StreamState::Stage => reply is Done || reply is Failed,
            StreamState::Cool | StreamState::Backoff | StreamState::Settle | StreamState::Report => reply is Done,
            StreamState::Finished => false,
        }
    }

    /// Whether a chunk needs no writing: it is all zero and lies in erased groups.
    pub open spec fn skips(self, data: Seq<u8>) -> bool {
        &&& self.erased_from <= self.offset
        &&& self.offset + self.length <= self.erased_to
        &&& bytes::all_zero(data)
    }

    /// Whether a stream goes on with the chunk at `offset`, or ends when there is none.
    pub open spec fn goes_on(pre: Self, post: Self, action: StreamAction, offset: int) -> bool {
        if offset < pre.size {
            let length = if pre.size - offset > TRANSFER_SIZE_THRESHOLD {
                TRANSFER_SIZE_THRESHOLD as int
            } else {
                pre.size - offset
            };
            &&& post == (StreamWrite {
                state: StreamState::Read,
                offset: offset as usize,
                length: length as usize,
                ..pre
            })
            &&& action == (StreamAction::Read { length: length as usize })
        } else {
            &&& post == (StreamWrite { state: StreamState::Finished, offset: offset as usize, ..pre })
            &&& action matches StreamAction::Finish(Outcome::Done)
        }
    }

    /// Whether a stream ends with the error of the operation that failed.
    pub open spec fn gives_up(pre: Self, post: Self, action: StreamAction) -> bool {
        &&& post == (StreamWrite { state: StreamState::Finished, ..pre })
        &&& action matches StreamAction::Finish(Outcome::Rethrow)
    }

    /// One step of a stream.
    ///
    /// A failed write command is tried again after a rest, three times in all; a slow one is followed by a rest. The
    /// bootloader is written once, whatever comes back.
    pub open spec fn advances(pre: Self, reply: StreamReply, post: Self, action: StreamAction) -> bool {
        match pre.state {
            StreamState::Select => if reply is Failed {
                Self::gives_up(pre, post, action)
            } else {
                &&& post == (StreamWrite { state: StreamState::Unlock, ..pre })
                &&& action == StreamAction::Run(Command::UnlockKey)
            },
            StreamState::Unlock => if reply is Failed {
                Self::gives_up(pre, post, action)
            } else if pre.erased_from < pre.erased_to {
                &&& post == (StreamWrite { state: StreamState::Erase, ..pre })
                &&& action matches StreamAction::Run(Command::EraseSectors { lba, sectors }) && {
                    &&& pre.target matches StreamTarget::UserArea { lba: first, .. } && lba == first
                        + pre.erased_from / 512
                    &&& sectors == (pre.erased_to - pre.erased_from) / 512
                }
            } else {
                Self::goes_on(pre, post, action, pre.offset as int)
            },
            StreamState::Erase => if reply is Failed {
                Self::gives_up(pre, post, action)
            } else {
                Self::goes_on(pre, post, action, pre.offset as int)
            },
            StreamState::Read => match reply {
                StreamReply::Payload(data) => if pre.skips(data@) {
                    &&& post == (StreamWrite { state: StreamState::Report, ..pre })
                    &&& action == (StreamAction::Report { length: pre.length })
                } else {
                    &&& post == (StreamWrite { state: StreamState::Stage, ..pre })
                    &&& action matches StreamAction::Stage { data: staged, block_length, append_zeros } && {
                        &&& staged@ == staged_for(pre.target, data@)
                        &&& (block_length, append_zeros) == staging_of(pre.target, data@.len())
                    }
                },
                _ => Self::gives_up(pre, post, action),
            },
            StreamState::Stage => if reply is Failed {
                Self::gives_up(pre, post, action)
            } else {
                &&& post == (StreamWrite { state: StreamState::Write, retries: 0, ..pre })
                &&& action matches StreamAction::Run(command) && writes_chunk(
                    command,
                    pre.target,
                    pre.offset,
                    pre.length,
                )
            },
            StreamState::Write => if is_bootloader(pre.target) {
                &&& post == (StreamWrite { state: StreamState::Settle, ..pre })
                &&& action == (StreamAction::Sleep { millis: BOOTLOADER_REST_MILLIS })
            } else {
                match reply {
                    StreamReply::Ran { nanos } => if nanos > SLOW_WRITE_NANOS {
                        &&& post == (StreamWrite { state: StreamState::Cool, ..pre })
                        &&& action == (StreamAction::Sleep { millis: COOL_DOWN_MILLIS })
                    } else {
                        &&& post == (StreamWrite { state: StreamState::Report, ..pre })
                        &&& action == (StreamAction::Report { length: pre.length })
                    },
                    _ => {
                        let failed = StreamWrite { retries: (pre.retries + 1) as usize, ..pre };
                        if pre.retries + 1 >= WRITE_TRIES {
                            Self::gives_up(failed, post, action)
                        } else {
                            &&& post == (StreamWrite { state: StreamState::Backoff, ..failed })
                            &&& action == (StreamAction::Sleep { millis: COOL_DOWN_MILLIS })
                        }
                    },
                }
            },
            StreamState::Cool | StreamState::Settle => {
                &&& post == (StreamWrite { state: StreamState::Report, ..pre })
                &&& action == (StreamAction::Report { length: pre.length })
            },
            StreamState::Backoff => {
                &&& post == (StreamWrite { state: StreamState::Write, ..pre })
                &&& action matches StreamAction::Run(command) && writes_chunk(
                    command,
                    pre.target,
                    pre.offset,
                    pre.length,
                )
            },
            StreamState::Report => Self::goes_on(pre, post, action, pre.offset + pre.length),
            StreamState::Finished => false,
        }
    }

    /// Starts writing `size` bytes to a byte address of the disk.
    pub fn write_large_memory_to_disk(address: u32, size: usize, block_length: usize, append_zeros: bool) -> (started: (
        Self,
        StreamAction,
    ))
        ensures
            started.0.wf(),
            started.0 == (StreamWrite {
                target: StreamTarget::Disk { address, block_length, append_zeros },
                size,
                erased_from: 0,
                erased_to: 0,
                offset: 0,
                length: 0,
                retries: 0,
                state: StreamState::Select,
            }),
            started.1 == StreamAction::Run(Command::SelectDevice),
    {
        (
            StreamWrite {
                target: StreamTarget::Disk { address, block_length, append_zeros },
                size,
                erased_from: 0,
                erased_to: 0,
                offset: 0,
                length: 0,
                retries: 0,
                state: StreamState::Select,
            },
            StreamAction::Run(Command::SelectDevice),
        )
    }

    /// Starts writing `size` bytes to the user area from a sector on.
    pub fn write_user_area(lba: u32, size: usize, sparse: bool) -> (started: (Self, StreamAction))
        requires
            sparse ==> size + 511 <= usize::MAX,
        ensures
            started.0.wf(),
            started.0.target == (StreamTarget::UserArea { lba, sparse }),
            started.0.size == size,
            started.0.offset == 0,
            started.0.length == 0,
            started.0.retries == 0,
            started.0.state == StreamState::Select,
            started.1 == StreamAction::Run(Command::SelectHwpart { hwpart: 0 }),
    {
        let mut erased_from: u64 = 0;
        let mut erased_to: u64 = 0;
        if sparse {
            match storage::erase_span(lba as u64, size) {
                Some(span) => {
                    proof {
                        storage::erase_stays_inside_the_write(lba as int, size as nat);
                    }
                    erased_from = (span.lba - lba as u64) * 512;
                    erased_to = (span.lba + span.sectors - lba as u64) * 512;
                },
                None => {},
            }
        }
        (
            StreamWrite {
                target: StreamTarget::UserArea { lba, sparse },
                size,
                erased_from,
                erased_to,
                offset: 0,
                length: 0,
                retries: 0,
                state: StreamState::Select,
            },
            StreamAction::Run(Command::SelectHwpart { hwpart: 0 }),
        )
    }

    /// Starts writing `size` bytes to a partition of `part_size` bytes. A payload larger than the partition is
    /// refused, except for the bootloader.
    pub fn restore_partition(name: &str, part_size: usize, size: usize) -> (started: Result<
        (Self, StreamAction),
        Error,
    >)
        ensures
            started is Ok <==> size <= part_size || name@ == "bootloader"@,
            started matches Ok(s) ==> {
                &&& s.0.wf()
                &&& s.0.target matches StreamTarget::Partition { name: shown } && shown@ == name@
                &&& s.0.size == size
                &&& s.0.offset == 0
                &&& s.0.length == 0
                &&& s.0.retries == 0
                &&& s.0.state == StreamState::Unlock
                &&& s.1 == StreamAction::Run(Command::UnlockKey)
            },
            started matches Err(e) ==> error::is_invalid(
                e,
                "file is larger than target partition: "@ + text::decimal(size as nat) + " bytes vs "@ + text::decimal(
                    part_size as nat,
                ) + " bytes"@,
            ),
    {
        if size > part_size && !text::same_text(name, "bootloader") {
            let mut shown = "file is larger than target partition: ".to_owned();
            text::push_decimal(&mut shown, size as u64);
            shown.append(" bytes vs ");
            text::push_decimal(&mut shown, part_size as u64);
            shown.append(" bytes");
            return Err(Error::InvalidOperation(shown));
        }
        Ok(
            (
                StreamWrite {
                    target: StreamTarget::Partition { name: name.to_owned() },
                    size,
                    erased_from: 0,
                    erased_to: 0,
                    offset: 0,
                    length: 0,
                    retries: 0,
                    state: StreamState::Unlock,
                },
                StreamAction::Run(Command::UnlockKey),
            ),
        )
    }

    /// Starts the unbrick procedure: an image of `size` bytes over the start of the eMMC.
    pub fn unbrick_from(size: usize) -> (started: (Self, StreamAction))
        ensures
            started.0.wf(),
            started.0 == (StreamWrite {
                target: StreamTarget::Disk { address: 0, block_length: TRANSFER_BLOCK_SIZE, append_zeros: true },
                size,
                erased_from: 0,
                erased_to: 0,
                offset: 0,
                length: 0,
                retries: 0,
                state: StreamState::Select,
            }),
            started.1 == StreamAction::Run(Command::SelectDevice),
    {
        Self::write_large_memory_to_disk(0, size, TRANSFER_BLOCK_SIZE, true)
    }

    fn go_on(&mut self, offset: usize) -> (action: StreamAction)
        requires
            old(self).wf(),
            offset <= old(self).size,
            offset < old(self).size ==> offset % TRANSFER_SIZE_THRESHOLD == 0,
            old(self).retries < WRITE_TRIES,
        ensures
            final(self).wf(),
            Self::goes_on(*old(self), *final(self), action, offset as int),
    {
        self.offset = offset;
        if offset < self.size {
            let left: usize = self.size - offset;
            self.length = if left > TRANSFER_SIZE_THRESHOLD { TRANSFER_SIZE_THRESHOLD } else { left };
            self.state = StreamState::Read;
            StreamAction::Read { length: self.length }
        } else {
            self.state = StreamState::Finished;
            StreamAction::Finish(Outcome::Done)
        }
    }

    fn give_up(&mut self) -> (action: StreamAction)
        requires
            old(self).offset <= old(self).size,
            (old(self).erased_from as int, old(self).erased_to as int) == erased_bytes(
                old(self).target,
                old(self).size as nat,
            ),
        ensures
            final(self).wf(),
            Self::gives_up(*old(self), *final(self), action),
    {
        self.state = StreamState::Finished;
        StreamAction::Finish(Outcome::Rethrow)
    }

    fn report(&mut self) -> (action: StreamAction)
        requires
            old(self).wf(),
            old(self).in_chunk(),
        ensures
            final(self).wf(),
            *final(self) == (StreamWrite { state: StreamState::Report, ..*old(self) }),
            action == (StreamAction::Report { length: old(self).length }),
    {
        self.state = StreamState::Report;
        StreamAction::Report { length: self.length }
    }

    fn chunk_command(&self) -> (command: Command)
        requires
            self.wf(),
        ensures
            writes_chunk(command, self.target, self.offset, self.length),
    {
        match &self.target {
            StreamTarget::Disk { address, .. } => {
                // Split so that the sum stays inside 64 bits for any offset.
                let lba: u64 = *address as u64 / 512 + self.offset as u64 / 512 + (*address as u64 % 512
                    + self.offset as u64 % 512) / 512;
                Command::WriteSectors { lba, sectors: bytes::sectors_for(self.length) as u64 }
            },
            StreamTarget::UserArea { lba, .. } => {
                Command::WriteSectors {
                    lba: *lba as u64 + self.offset as u64 / 512,
                    sectors: bytes::sectors_for(self.length) as u64,
                }
            },
            StreamTarget::Partition { name } => {
                Command::WritePartition {
                    name: name.as_str().to_owned(),
                    offset: self.offset as u64,
                    length: self.length as u64,
                }
            },
        }
    }

    fn to_bootloader(&self) -> (found: bool)
        ensures
            found == is_bootloader(self.target),
    {
        match &self.target {
            StreamTarget::Partition { name } => text::same_text(name.as_str(), "bootloader"),
            _ => false,
        }
    }

    fn take_payload(&mut self, data: Vec<u8>) -> (action: StreamAction)
        requires
            old(self).wf(),
            old(self).state == StreamState::Read,
            data@.len() == old(self).length,
        ensures
            final(self).wf(),
            Self::advances(*old(self), StreamReply::Payload(data), *final(self), action),
    {
        let start: u64 = self.offset as u64;
        let end: u64 = (self.offset + self.length) as u64;
        if start >= self.erased_from && end <= self.erased_to && bytes::zero_between(data.as_slice(), 0, data.len()) {
            assert(data@.subrange(0, data@.len() as int) =~= data@);
            return self.report();
        }
        assert(data@.subrange(0, data@.len() as int) =~= data@);
        match &self.target {
            StreamTarget::Disk { block_length, append_zeros, .. } => {
                let block_length: usize = *block_length;
                let append_zeros: bool = *append_zeros;
                self.state = StreamState::Stage;
                let half_filled: bool = self.length % 512 != 0 && block_length > 0 && self.length % block_length == 0;
                if append_zeros || half_filled {
                    return StreamAction::Stage { data: storage::fill_sector(data), block_length, append_zeros: true };
                }
                StreamAction::Stage { data, block_length, append_zeros }
            },
            StreamTarget::UserArea { .. } => {
                self.state = StreamState::Stage;
                StreamAction::Stage {
                    data: storage::fill_sector(data),
                    block_length: TRANSFER_BLOCK_SIZE,
                    append_zeros: true,
                }
            },
            StreamTarget::Partition { .. } => {
                self.state = StreamState::Stage;
                StreamAction::Stage { data, block_length: TRANSFER_BLOCK_SIZE, append_zeros: true }
            },
        }
    }

    fn begin(&mut self) -> (action: StreamAction)
        requires
            old(self).wf(),
            old(self).state == StreamState::Unlock,
        ensures
            final(self).wf(),
            Self::advances(*old(self), (StreamReply::Ran { nanos: 0 }), *final(self), action),
    {
        if self.erased_from < self.erased_to {
            let mut first: u64 = 0;
            match &self.target {
                StreamTarget::UserArea { lba, .. } => {
                    first = *lba as u64;
                    proof {
                        storage::erase_stays_inside_the_write(*lba as int, self.size as nat);
                    }
                },
                _ => {},
            }
            self.state = StreamState::Erase;
            return StreamAction::Run(
                Command::EraseSectors {
                    lba: first + self.erased_from / 512,
                    sectors: (self.erased_to - self.erased_from) / 512,
                },
            );
        }
        let offset: usize = self.offset;
        self.go_on(offset)
    }

    fn after_write(&mut self, reply: StreamReply) -> (action: StreamAction)
        requires
            old(self).wf(),
            old(self).state == StreamState::Write,
            old(self).awaits(reply),
        ensures
            final(self).wf(),
            Self::advances(*old(self), reply, *final(self), action),
    {
        if self.to_bootloader() {
            self.state = StreamState::Settle;
            return StreamAction::Sleep { millis: BOOTLOADER_REST_MILLIS };
        }
        match reply {
            StreamReply::Ran { nanos } => {
                if nanos > SLOW_WRITE_NANOS {
                    self.state = StreamState::Cool;
                    StreamAction::Sleep { millis: COOL_DOWN_MILLIS }
                } else {
                    self.report()
                }
            },
            _ => {
                self.retries = self.retries + 1;
                if self.retries >= WRITE_TRIES {
                    self.give_up()
                } else {
                    self.state = StreamState::Backoff;
                    StreamAction::Sleep { millis: COOL_DOWN_MILLIS }
                }
            },
        }
    }

    /// Takes in how the last action went and gives the next one.
    pub fn resume(&mut self, reply: StreamReply) -> (action: StreamAction)
        requires
            old(self).wf(),
            old(self).awaits(reply),
        ensures
            final(self).wf(),
            Self::advances(*old(self), reply, *final(self), action),
    {
        match self.state {
            StreamState::Write => self.after_write(reply),
            StreamState::Cool | StreamState::Settle => self.report(),
            StreamState::Backoff => {
                self.state = StreamState::Write;
                StreamAction::Run(self.chunk_command())
            },
            StreamState::Report => {
                let offset: usize = self.offset + self.length;
                self.go_on(offset)
            },
            StreamState::Read => match reply {
                StreamReply::Payload(data) => self.take_payload(data),
                _ => self.give_up(),
            },
            _ => {
                match reply {
                    StreamReply::Failed => {
                        return self.give_up();
                    },
                    _ => {},
                }
                match self.state {
                    StreamState::Select => {
                        self.state = StreamState::Unlock;
                        StreamAction::Run(Command::UnlockKey)
                    },
                    StreamState::Unlock => self.begin(),
                    StreamState::Erase => {
                        let offset: usize = self.offset;
                        self.go_on(offset)
                    },
                    _ => {
                        self.retries = 0;
                        self.state = StreamState::Write;
                        StreamAction::Run(self.chunk_command())
                    },
                }
            },
        }
    }
}

impl StreamWrite {
    /// How many replies a stream can still take at most.
    pub open spec fn replies_left(self) -> int {
        let rest = match self.state {
            StreamState::Select => 20,
            StreamState::Unlock => 19,
            StreamState::Erase => 18,
            StreamState::Read => 16,
            StreamState::Stage => 15,
            StreamState::Write => 8 + 2 * (WRITE_TRIES - self.retries),
            StreamState::Backoff => 9 + 2 * (WRITE_TRIES - self.retries),
            StreamState::Cool => 5,
            StreamState::Settle => 5,
            StreamState::Report => 4,
            StreamState::Finished => 0int,
        };
        if self.state == StreamState::Finished {
            0
        } else {
            20 * (self.size - self.offset) + rest
        }
    }
}

/// A stream ends: each reply leaves fewer replies to come.
pub proof fn stream_ends(pre: StreamWrite, reply: StreamReply, post: StreamWrite, action: StreamAction)
    requires
        pre.wf(),
        pre.awaits(reply),
        StreamWrite::advances(pre, reply, post, action),
    ensures
        0 <= post.replies_left() < pre.replies_left(),
        action is Finish <==> post.state == StreamState::Finished,
{
}

/// A write command is sent at most three times for one chunk: a chunk that failed three times ends the stream.
pub proof fn a_chunk_fails_at_most_three_times(
    pre: StreamWrite,
    reply: StreamReply,
    post: StreamWrite,
    action: StreamAction,
)
    requires
        pre.wf(),
        pre.awaits(reply),
        StreamWrite::advances(pre, reply, post, action),
    ensures
        post.retries == WRITE_TRIES ==> action matches StreamAction::Finish(Outcome::Rethrow),
        pre.state == StreamState::Write && !is_bootloader(pre.target) && reply is Failed ==> post.retries
            == pre.retries + 1,
        pre.state == StreamState::Stage && reply is Done ==> post.retries == 0,
{
}

/// A chunk goes where its bytes belong. On a disk and in the user area it is written in whole sectors, which start at
/// the sector that holds its first byte and end in the one that holds its last; in a partition it is written byte for
/// byte.
pub proof fn chunks_go_where_they_belong(command: Command, target: StreamTarget, offset: usize, length: usize)
    requires
        length > 0,
        offset % 512 == 0,
        length <= 8388608,
        writes_chunk(command, target, offset, length),
    ensures
        target matches StreamTarget::Disk { address, .. }
            ==> (command matches Command::WriteSectors { lba, sectors } && {
            &&& 512 * lba <= address + offset < 512 * lba + 512
            &&& length <= 512 * sectors < length + 512
        }),
        target matches StreamTarget::UserArea { lba: first, .. } ==> (command matches Command::WriteSectors {
            lba,
            sectors,
        } && {
            &&& 512 * lba == 512 * first + offset
            &&& length <= 512 * sectors < length + 512
        }),
        target matches StreamTarget::Partition { name } ==> (command matches Command::WritePartition {
            name: shown,
            offset: from,
            length: count,
        } && shown@ == name@ && from == offset && count == length),
{
    bytes::rounding_up_is_tight(length as nat, 512);
}

/// Chunks are staged in padded blocks of 4096 bytes, but for a disk, where the caller chooses the block length; what
/// is staged there is the chunk, with zeros up to a whole sector if blocks are padded or the blocks leave a sector
/// half filled.
pub proof fn chunks_are_staged_in_blocks(target: StreamTarget, data: Seq<u8>)
    ensures
        !(target is Disk) ==> staging_of(target, data.len()) == (4096usize, true),
        target matches StreamTarget::Disk { block_length, append_zeros, .. } ==> {
            let half = data.len() % 512 != 0 && block_length > 0 && data.len() % (block_length as nat) == 0;
            &&& staging_of(target, data.len()).0 == block_length
            &&& staging_of(target, data.len()).1 <==> append_zeros || half
            &&& !append_zeros && !half ==> staged_for(target, data) == data
        },
        target is Partition ==> staged_for(target, data) == data,
        forall|i: int| 0 <= i < data.len() ==> staged_for(target, data)[i] == data[i],
        forall|i: int| data.len() <= i < staged_for(target, data).len() ==> staged_for(target, data)[i] == 0,
        !(target is Partition) && staging_of(target, data.len()).1 ==> staged_for(target, data).len() % 512 == 0,
        data.len() <= staged_for(target, data).len() < data.len() + 512,
{
    storage::sectors_are_filled_with_zeros(data);
}

/// A stream selects, unlocks, erases if it is to, and then reads chunk after chunk of 8 MiB, the last one may be
/// shorter, from where the one before ended, until the payload is read. Any failure on the way but that of a write
/// ends it.
pub proof fn streams_read_chunk_after_chunk(
    pre: StreamWrite,
    reply: StreamReply,
    post: StreamWrite,
    action: StreamAction,
)
    requires
        pre.wf(),
        pre.awaits(reply),
        StreamWrite::advances(pre, reply, post, action),
    ensures
        post.target == pre.target && post.size == pre.size,
        post.erased_from == pre.erased_from && post.erased_to == pre.erased_to,
        reply is Failed && pre.state != StreamState::Write ==> action == StreamAction::Finish(Outcome::Rethrow),
        pre.state == StreamState::Select && !(reply is Failed) ==> action == StreamAction::Run(Command::UnlockKey)
            && post.state == StreamState::Unlock,
        pre.state == StreamState::Unlock && !(reply is Failed) ==> {
            &&& pre.erased_from < pre.erased_to <==> action is Run
            &&& action matches StreamAction::Run(command)
                ==> (command matches Command::EraseSectors { lba, sectors } && (
            pre.target matches StreamTarget::UserArea { lba: first, .. } && 512 * (lba - first) <= pre.erased_from
                < 512 * (lba - first) + 512 && 512 * sectors <= pre.erased_to - pre.erased_from < 512 * sectors + 512))
        },
        action matches StreamAction::Read { length } ==> {
            &&& post.length == length
            &&& post.offset == (if pre.state == StreamState::Report {
                pre.offset + pre.length
            } else {
                0
            })
            &&& length == (if pre.size - post.offset > 8388608 {
                8388608
            } else {
                pre.size - post.offset
            })
        },
        action == StreamAction::Finish(Outcome::Done) ==> post.offset == pre.size,
        (pre.state == StreamState::Erase || pre.state == StreamState::Unlock && pre.erased_from >= pre.erased_to)
            && !(reply is Failed) ==> {
            &&& pre.size > 0 ==> action is Read && post.state == StreamState::Read
            &&& pre.size == 0 ==> action == StreamAction::Finish(Outcome::Done)
        },
        pre.state == StreamState::Report && pre.offset + pre.length == pre.size ==> action == StreamAction::Finish(
            Outcome::Done,
        ),
        pre.state == StreamState::Report ==> (action is Read <==> pre.offset + pre.length < pre.size),
{
}

/// A chunk that was read is staged and written, and reported when that is done. It is passed over only when all of it
/// is zero and lies in what was erased. A write that failed is tried again after 5000 ms, three times in all; one that
/// took more than three seconds is followed by 5000 ms of rest. The bootloader is written once, with 2000 ms behind
/// it, whatever comes back.
pub proof fn chunks_are_staged_written_and_reported(
    pre: StreamWrite,
    reply: StreamReply,
    post: StreamWrite,
    action: StreamAction,
)
    requires
        pre.wf(),
        pre.awaits(reply),
        StreamWrite::advances(pre, reply, post, action),
    ensures
        pre.state == StreamState::Read && reply is Payload ==> {
            let data = reply->Payload_0@;
            let skipped = pre.erased_from <= pre.offset && pre.offset + pre.length <= pre.erased_to && forall|i: int|
                0 <= i < data.len() ==> data[i] == 0;
            &&& skipped <==> action == (StreamAction::Report { length: pre.length })
            &&& !skipped ==> (action matches StreamAction::Stage { data: staged, block_length, append_zeros } && {
                &&& staged@ == staged_for(pre.target, data)
                &&& block_length == staging_of(pre.target, data.len()).0
                &&& append_zeros == staging_of(pre.target, data.len()).1
                &&& post.state == StreamState::Stage
            })
        },
        pre.state == StreamState::Stage && reply is Done ==> {
            &&& post.state == StreamState::Write
            &&& post.retries == 0
            &&& action matches StreamAction::Run(command) && writes_chunk(command, pre.target, pre.offset, pre.length)
        },
        pre.state == StreamState::Write && !(pre.target matches StreamTarget::Partition { name } && name@
            == "bootloader"@) ==> {
            &&& (reply matches StreamReply::Ran { nanos } && nanos <= 3000000000) ==> action == (StreamAction::Report {
                length: pre.length,
            })
            &&& (reply matches StreamReply::Ran { nanos } && nanos > 3000000000) ==> action == (StreamAction::Sleep {
                millis: 5000,
            }) && post.state == StreamState::Cool
            &&& reply is Failed && pre.retries < 2 ==> action == (StreamAction::Sleep { millis: 5000 }) && post.state
                == StreamState::Backoff && post.retries == pre.retries + 1
            &&& reply is Failed && pre.retries == 2 ==> action == StreamAction::Finish(Outcome::Rethrow)
        },
        pre.state == StreamState::Write && (pre.target matches StreamTarget::Partition { name } && name@
            == "bootloader"@) ==> action == (StreamAction::Sleep { millis: 2000 }) && post.state
            == StreamState::Settle,
        pre.state == StreamState::Backoff ==> {
            &&& post.state == StreamState::Write
            &&& post.retries == pre.retries
            &&& action matches StreamAction::Run(command) && writes_chunk(command, pre.target, pre.offset, pre.length)
        },
        pre.state == StreamState::Cool || pre.state == StreamState::Settle ==> action == (StreamAction::Report {
            length: pre.length,
        }),
        pre.state == StreamState::Read || pre.state == StreamState::Stage || pre.state == StreamState::Write
            || pre.state == StreamState::Cool || pre.state == StreamState::Settle || pre.state == StreamState::Backoff
            ==> post.offset == pre.offset && post.length == pre.length,
{
}

/// What is erased is given in bytes of the payload: from the first border of 8192 sectors that is not before the
/// write, up to the last one that is not behind its last sector. Nothing is erased where no group lies between the
/// two, nor for any other write.
pub proof fn erased_bytes_are_whole_groups(lba: u32, size: nat, sparse: bool, other: StreamTarget)
    ensures
        ({
            let (from, to) = erased_bytes((StreamTarget::UserArea { lba, sparse }), size);
            let before = (8192 - lba % 8192) % 8192;
            let end = lba + (size + 511) / 512;
            if sparse && end >= lba + before + 8192 {
                from == 512 * before && to == 512 * (end - end % 8192 - lba)
            } else {
                from == 0 && to == 0
            }
        }),
        !(other is UserArea) ==> erased_bytes(other, size) == (0int, 0int),
{
    let end = storage::write_end(lba as int, size);
    assert(end == lba + (size + 511) / 512);
    assert(storage::group_start(lba as int) == lba + (8192 - lba % 8192) % 8192);
    assert(storage::group_end(end) == end - end % 8192);
}

} // verus!
