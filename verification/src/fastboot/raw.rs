//! Writing a payload to a range of sectors, chunk by chunk through a partition alias.
use vstd::prelude::*;

use super::command::Command;
use crate::bytes;
use crate::error::Outcome;
use crate::storage;
use crate::storage::EraseSpan;

verus! {

/// Most bytes of a chunk, whatever the device would take.
pub const MAX_CHUNK_BYTES: usize = 8388608;

/// The alias that raw writes go through.
pub open spec fn raw_alias() -> Seq<char> {
    "ft"@
}

fn alias() -> (name: String)
    ensures
        name@ == raw_alias(),
{
    "ft".to_owned()
}

/// Bytes of a chunk for a device that takes `limit` bytes at once: whole sectors, at least one, and no more than the
/// ceiling.
pub open spec fn chunk_bytes(limit: usize) -> int {
    let most = if limit < MAX_CHUNK_BYTES {
        limit as int
    } else {
        MAX_CHUNK_BYTES as int
    };
    if most < 512 {
        512
    } else {
        most / 512 * 512
    }
}

/// Where a raw write stands.
#[derive(Clone, Copy, PartialEq, Eq, Structural)]
pub enum RawState {
    /// The alias is being pointed at the range to erase.
    AimErase,
    /// The range is being erased.
    Erase,
    /// A chunk of the payload was asked for.
    Read,
    /// The alias is being pointed at the sectors of the chunk.
    Aim,
    /// The chunk is being downloaded.
    Download,
    /// The chunk is being committed.
    Commit,
    /// The chunk was reported as done.
    Report,
    /// The alias is being dropped after everything was written.
    Clear,
    /// The alias is being dropped after a failure.
    ClearLost,
    Finished,
}

/// What a raw write wants done.
pub enum RawAction {
    /// Run a command that has to come back OKAY.
    Run(Command),
    /// Read the next bytes of the payload.
    Read { length: usize },
    Download { data: Vec<u8> },
    /// Tell whoever listens that so many more bytes are done.
    Report { length: usize },
    /// Run a command whose failure is of no account.
    RunAnyway(Command),
    Finish(Outcome),
}

/// How the last action went.
pub enum RawReply {
    Done,
    Payload(Vec<u8>),
    Failed,
}

/// A raw write.
pub struct RawWrite {
    pub start_lba: u64,
    /// Bytes of the payload.
    pub size: usize,
    pub chunk_bytes: usize,
    /// The whole erase groups to erase first.
    pub span: Option<EraseSpan>,
    /// The bytes of the payload that lie in groups that were erased.
    pub erased_from: u64,
    pub erased_to: u64,
    /// Where the current chunk starts.
    pub offset: usize,
    /// Bytes of the current chunk.
    pub length: usize,
    /// The current chunk with zeros up to a whole sector, from when it was read until it is downloaded.
    pub chunk: Vec<u8>,
    pub state: RawState,
}

/// Whether a command points the alias at a range of sectors.
pub open spec fn aims(command: Command, lba: int, count: int) -> bool {
    command matches Command::SetRawTarget { alias, start_lba, sectors } && {
        &&& alias@ == raw_alias()
        &&& start_lba == lba
        &&& sectors == count
    }
}

/// Whether an action drops the alias.
pub open spec fn drops_alias(action: RawAction) -> bool {
    action matches RawAction::RunAnyway(Command::ClearRawTarget { alias }) && alias@ == raw_alias()
}

impl RawWrite {
    /// The bytes of the payload that lie in the range to erase.
    pub open spec fn erasable(self) -> (int, int) {
        match self.span {
            Some(span) => ((span.lba - self.start_lba) * 512, (span.lba + span.sectors - self.start_lba) * 512),
            None => (0, 0),
        }
    }

    /// Whether the range to erase is made of whole groups inside the write.
    pub open spec fn span_fits(self) -> bool {
        self.span matches Some(span) ==> {
            &&& span.lba == storage::group_start(self.start_lba as int)
            &&& span.lba + span.sectors == storage::group_end(
                storage::write_end(self.start_lba as int, self.size as nat),
            )
            &&& 0 < span.sectors
        }
    }

    /// Whether a chunk is under way.
    pub open spec fn in_chunk(self) -> bool {
        match self.state {
            RawState::Read | RawState::Aim | RawState::Download | RawState::Commit | RawState::Report => true,
            _ => false,
        }
    }

    /// Whether the fields agree with one another.
    pub open spec fn wf(self) -> bool {
        &&& self.offset <= self.size
        &&& 512 <= self.chunk_bytes <= MAX_CHUNK_BYTES
        &&& self.chunk_bytes % 512 == 0
        &&& storage::write_end(self.start_lba as int, self.size as nat) <= u64::MAX
        &&& self.span is Some ==> self.size + 511 <= usize::MAX
        &&& self.span_fits()
        &&& self.erased_from == 0 && self.erased_to == 0 || (
            self.erased_from as int,
            self.erased_to as int,
        ) == self.erasable()
        &&& self.state == RawState::AimErase || self.state == RawState::Erase ==> self.span is Some && self.offset
            == 0 && self.erased_to == 0
        &&& self.in_chunk() ==> {
            &&& self.offset % 512 == 0
            &&& 0 < self.length <= self.chunk_bytes
            &&& self.offset + self.length <= self.size
            &&& self.length < self.chunk_bytes ==> self.offset + self.length == self.size
        }
        &&& self.state == RawState::Clear ==> self.offset == self.size
    }

    /// How long the chunk of a write is that has just started: none is under way while there is something to erase.
    pub open spec fn first_length(self) -> int {
        if self.span is Some {
            0
        } else if self.size > self.chunk_bytes {
            self.chunk_bytes as int
        } else {
            self.size as int
        }
    }

    /// Whether a reply answers the action that is out.
    pub open spec fn awaits(self, reply: RawReply) -> bool {
        match self.state {
            RawState::Read => {
                ||| reply matches RawReply::Payload(data) && data@.len() == self.length
                ||| reply is Failed
            },
            RawState::Report => reply is Done,
            RawState::Finished => false,
            _ => reply is Done || reply is Failed,
        }
    }

    /// Whether a chunk needs no writing: it is all zero and lies in groups that were erased.
    pub open spec fn skips(self, data: Seq<u8>) -> bool {
        &&& self.erased_from <= self.offset
        &&& self.offset + self.length <= self.erased_to
        &&& bytes::all_zero(data)
    }

    /// Whether two moments are of the same write, with the same groups erased.
    pub open spec fn same_write(a: Self, b: Self) -> bool {
        &&& a.start_lba == b.start_lba
        &&& a.size == b.size
        &&& a.chunk_bytes == b.chunk_bytes
        &&& a.span == b.span
        &&& a.erased_from == b.erased_from
        &&& a.erased_to == b.erased_to
    }

    /// Whether a write only changes its state.
    pub open spec fn turns(pre: Self, post: Self, state: RawState) -> bool {
        &&& Self::same_write(pre, post)
        &&& post.offset == pre.offset
        &&& post.length == pre.length
        &&& post.chunk@ == pre.chunk@
        &&& post.state == state
    }

    /// Whether a write goes on with the chunk at `offset`, or drops the alias when there is none. `erased` are the
    /// bytes of the payload that lie in groups that were erased.
    pub open spec fn goes_on(pre: Self, post: Self, action: RawAction, offset: int, erased: (int, int)) -> bool {
        &&& post.start_lba == pre.start_lba
        &&& post.size == pre.size
        &&& post.chunk_bytes == pre.chunk_bytes
        &&& post.span == pre.span
        &&& (post.erased_from as int, post.erased_to as int) == erased
        &&& post.offset == offset
        &&& if offset < pre.size {
            &&& post.length == (if pre.size - offset > pre.chunk_bytes {
                pre.chunk_bytes as int
            } else {
                pre.size - offset
            })
            &&& post.state == RawState::Read
            &&& action == (RawAction::Read { length: post.length })
        } else {
            &&& post.state == RawState::Clear
            &&& drops_alias(action)
        }
    }

    /// One step of a raw write.
    ///
    /// A range that cannot be erased is written in full. Whatever happens, the alias is dropped at the end.
    pub open spec fn advances(pre: Self, reply: RawReply, post: Self, action: RawAction) -> bool {
        let kept = (pre.erased_from as int, pre.erased_to as int);
        match pre.state {
            RawState::AimErase => if reply is Failed {
                Self::goes_on(pre, post, action, pre.offset as int, kept)
            } else {
                &&& Self::turns(pre, post, RawState::Erase)
                &&& action matches RawAction::Run(Command::Erase { partition }) && partition@ == raw_alias()
            },
            RawState::Erase => if reply is Failed {
                Self::goes_on(pre, post, action, pre.offset as int, kept)
            } else {
                Self::goes_on(pre, post, action, pre.offset as int, pre.erasable())
            },
            RawState::Read => match reply {
                RawReply::Payload(data) => if pre.skips(data@) {
                    &&& Self::turns(pre, post, RawState::Report)
                    &&& action == (RawAction::Report { length: pre.length })
                } else {
                    &&& Self::same_write(pre, post)
                    &&& post.offset == pre.offset
                    &&& post.length == pre.length
                    &&& post.chunk@ == storage::in_sectors(data@)
                    &&& post.state == RawState::Aim
                    &&& action matches RawAction::Run(command) && aims(
                        command,
                        pre.start_lba + pre.offset / 512,
                        storage::sectors_of(pre.length as int),
                    )
                },
                _ => Self::turns(pre, post, RawState::ClearLost) && drops_alias(action),
            },
            RawState::Aim => if reply is Failed {
                Self::turns(pre, post, RawState::ClearLost) && drops_alias(action)
            } else {
                &&& Self::same_write(pre, post)
                &&& post.offset == pre.offset
                &&& post.length == pre.length
                &&& post.state == RawState::Download
                &&& action matches RawAction::Download { data } && data@ == pre.chunk@
            },
            RawState::Download => if reply is Failed {
                Self::turns(pre, post, RawState::ClearLost) && drops_alias(action)
            } else {
                &&& Self::turns(pre, post, RawState::Commit)
                &&& action matches RawAction::Run(Command::Flash { partition }) && partition@ == raw_alias()
            },
            RawState::Commit => if reply is Failed {
                Self::turns(pre, post, RawState::ClearLost) && drops_alias(action)
            } else {
                &&& Self::turns(pre, post, RawState::Report)
                &&& action == (RawAction::Report { length: pre.length })
            },
            RawState::Report => Self::goes_on(pre, post, action, pre.offset + pre.length, kept),
            RawState::Clear => {
                &&& Self::turns(pre, post, RawState::Finished)
                &&& action matches RawAction::Finish(Outcome::Done)
            },
            RawState::ClearLost => {
                &&& Self::turns(pre, post, RawState::Finished)
                &&& action matches RawAction::Finish(Outcome::Rethrow)
            },
            RawState::Finished => false,
        }
    }

    /// Starts a write of `size` bytes from sector `start_lba` on, for a device that takes `limit` bytes at once. With
    /// `sparse` the whole erase groups in the range are erased first, so that zeros in them need no writing.
    pub fn write_raw(start_lba: u64, size: usize, limit: usize, sparse: bool) -> (started: (Self, RawAction))
        requires
            storage::write_end(start_lba as int, size as nat) <= u64::MAX,
            sparse ==> storage::group_start(start_lba as int) <= u64::MAX && size + 511 <= usize::MAX,
        ensures
            started.0.wf(),
            started.0.start_lba == start_lba,
            started.0.size == size,
            started.0.chunk_bytes == chunk_bytes(limit),
            started.0.span is Some <==> sparse && storage::group_start(start_lba as int) < storage::group_end(
                storage::write_end(start_lba as int, size as nat),
            ),
            started.0.erased_from == 0,
            started.0.erased_to == 0,
            started.0.offset == 0,
            started.0.length == started.0.first_length(),
            started.0.chunk@.len() == 0,
            match started.0.span {
                Some(span) => {
                    &&& started.0.state == RawState::AimErase
                    &&& started.1 matches RawAction::Run(command)
                        && aims(command, span.lba as int, span.sectors as int)
                },
                None => Self::goes_on(started.0, started.0, started.1, 0, (0, 0)),
            },
    {
        let most: usize = if limit < MAX_CHUNK_BYTES { limit } else { MAX_CHUNK_BYTES };
        let chunk: usize = if most < 512 { 512 } else { most / 512 * 512 };
        let span: Option<EraseSpan> = if sparse { storage::erase_span(start_lba, size) } else { None };
        let mut run = RawWrite {
            start_lba,
            size,
            chunk_bytes: chunk,
            span,
            erased_from: 0,
            erased_to: 0,
            offset: 0,
            length: 0,
            chunk: Vec::new(),
            state: RawState::AimErase,
        };
        match span {
            Some(range) => {
                let action = RawAction::Run(
                    Command::SetRawTarget { alias: alias(), start_lba: range.lba, sectors: range.sectors },
                );
                (run, action)
            },
            None => {
                run.state = RawState::Finished;
                let action = run.go_on(0);
                (run, action)
            },
        }
    }

    /// Starts the unbrick procedure: an image of `size` bytes over the start of the eMMC, sparse because most of it
    /// is zero.
    pub fn unbrick_from(size: usize, limit: usize) -> (started: (Self, RawAction))
        requires
            size + 511 <= usize::MAX,
        ensures
            started.0.wf(),
            started.0.start_lba == 0,
            started.0.size == size,
            started.0.chunk_bytes == chunk_bytes(limit),
            started.0.erased_from == 0,
            started.0.erased_to == 0,
            started.0.offset == 0,
            started.0.length == started.0.first_length(),
            started.0.chunk@.len() == 0,
            started.0.span is Some <==> 0 < storage::group_end(storage::write_end(0, size as nat)),
            match started.0.span {
                Some(span) => {
                    &&& started.0.state == RawState::AimErase
                    &&& started.1 matches RawAction::Run(command)
                        && aims(command, span.lba as int, span.sectors as int)
                },
                None => Self::goes_on(started.0, started.0, started.1, 0, (0, 0)),
            },
    {
        Self::write_raw(0, size, limit, true)
    }

    fn go_on(&mut self, offset: usize) -> (action: RawAction)
        requires
            old(self).wf(),
            offset <= old(self).size,
            offset < old(self).size ==> offset % 512 == 0,
        ensures
            final(self).wf(),
            Self::goes_on(
                *old(self),
                *final(self),
                action,
                offset as int,
                (old(self).erased_from as int, old(self).erased_to as int),
            ),
            final(self).chunk == old(self).chunk,
            offset >= old(self).size ==> final(self).length == old(self).length,
    {
        self.offset = offset;
        if offset < self.size {
            let left: usize = self.size - offset;
            self.length = if left > self.chunk_bytes { self.chunk_bytes } else { left };
            self.state = RawState::Read;
            RawAction::Read { length: self.length }
        } else {
            self.state = RawState::Clear;
            RawAction::RunAnyway(Command::ClearRawTarget { alias: alias() })
        }
    }

    fn lose(&mut self) -> (action: RawAction)
        requires
            old(self).wf(),
        ensures
            final(self).wf(),
            Self::turns(*old(self), *final(self), RawState::ClearLost),
            drops_alias(action),
    {
        self.state = RawState::ClearLost;
        RawAction::RunAnyway(Command::ClearRawTarget { alias: alias() })
    }

    fn report(&mut self) -> (action: RawAction)
        requires
            old(self).wf(),
            old(self).in_chunk(),
        ensures
            final(self).wf(),
            Self::turns(*old(self), *final(self), RawState::Report),
            action == (RawAction::Report { length: old(self).length }),
    {
        self.state = RawState::Report;
        RawAction::Report { length: self.length }
    }

    fn take_payload(&mut self, data: Vec<u8>) -> (action: RawAction)
        requires
            old(self).wf(),
            old(self).state == RawState::Read,
            data@.len() == old(self).length,
        ensures
            final(self).wf(),
            Self::advances(*old(self), RawReply::Payload(data), *final(self), action),
    {
        let start: u64 = self.offset as u64;
        let end: u64 = (self.offset + self.length) as u64;
        assert(data@.subrange(0, data@.len() as int) =~= data@);
        if start >= self.erased_from && end <= self.erased_to && bytes::zero_between(data.as_slice(), 0, data.len()) {
            return self.report();
        }
        let sectors: usize = bytes::sectors_for(self.length);
        self.chunk = storage::fill_sector(data);
        self.state = RawState::Aim;
        RawAction::Run(
            Command::SetRawTarget {
                alias: alias(),
                start_lba: self.start_lba + self.offset as u64 / 512,
                sectors: sectors as u64,
            },
        )
    }

    fn after_erase(&mut self) -> (action: RawAction)
        requires
            old(self).wf(),
            old(self).state == RawState::Erase,
        ensures
            final(self).wf(),
            Self::goes_on(*old(self), *final(self), action, old(self).offset as int, old(self).erasable()),
    {
        match self.span {
            Some(span) => {
                proof {
                    storage::erase_stays_inside_the_write(self.start_lba as int, self.size as nat);
                }
                self.erased_from = (span.lba - self.start_lba) * 512;
                self.erased_to = (span.lba + span.sectors - self.start_lba) * 512;
            },
            None => {},
        }
        self.state = RawState::Finished;
        let offset: usize = self.offset;
        self.go_on(offset)
    }

    /// Takes in how the last action went and gives the next one.
    pub fn resume(&mut self, reply: RawReply) -> (action: RawAction)
        requires
            old(self).wf(),
            old(self).awaits(reply),
        ensures
            final(self).wf(),
            Self::advances(*old(self), reply, *final(self), action),
    {
        let failed: bool = match reply {
            RawReply::Failed => true,
            _ => false,
        };
        match self.state {
            RawState::AimErase => {
                if failed {
                    let offset: usize = self.offset;
                    return self.go_on(offset);
                }
                self.state = RawState::Erase;
                RawAction::Run(Command::Erase { partition: alias() })
            },
            RawState::Erase => {
                if failed {
                    let offset: usize = self.offset;
                    return self.go_on(offset);
                }
                self.after_erase()
            },
            RawState::Read => match reply {
                RawReply::Payload(data) => self.take_payload(data),
                _ => self.lose(),
            },
            RawState::Aim => {
                if failed {
                    return self.lose();
                }
                let mut data: Vec<u8> = Vec::new();
                data.append(&mut self.chunk);
                assert(data@ =~= old(self).chunk@);
                self.state = RawState::Download;
                RawAction::Download { data }
            },
            RawState::Download => {
                if failed {
                    return self.lose();
                }
                self.state = RawState::Commit;
                RawAction::Run(Command::Flash { partition: alias() })
            },
            RawState::Commit => {
                if failed {
                    return self.lose();
                }
                self.report()
            },
            RawState::Report => {
                let offset: usize = self.offset + self.length;
                self.go_on(offset)
            },
            RawState::Clear => {
                self.state = RawState::Finished;
                RawAction::Finish(Outcome::Done)
            },
            _ => {
                self.state = RawState::Finished;
                RawAction::Finish(Outcome::Rethrow)
            },
        }
    }
}

impl RawWrite {
    /// How many replies a raw write can still take at most.
    pub open spec fn replies_left(self) -> int {
        let ahead = 20 * (self.size - self.offset);
        match self.state {
            RawState::AimErase => ahead + 20,
            RawState::Erase => ahead + 19,
            RawState::Read => ahead + 15,
            RawState::Aim => ahead + 14,
            RawState::Download => ahead + 13,
            RawState::Commit => ahead + 12,
            RawState::Report => ahead + 11,
            RawState::Clear | RawState::ClearLost => 1,
            RawState::Finished => 0,
        }
    }
}

/// A raw write ends: each reply leaves fewer replies to come.
pub proof fn raw_write_ends(pre: RawWrite, reply: RawReply, post: RawWrite, action: RawAction)
    requires
        pre.wf(),
        pre.awaits(reply),
        RawWrite::advances(pre, reply, post, action),
    ensures
        0 <= post.replies_left() < pre.replies_left(),
        action is Finish <==> post.state == RawState::Finished,
{
}

/// A raw write never ends without having dropped its alias just before.
pub proof fn raw_write_drops_its_alias(pre: RawWrite, reply: RawReply, post: RawWrite, action: RawAction)
    requires
        pre.wf(),
        pre.awaits(reply),
        RawWrite::advances(pre, reply, post, action),
    ensures
        action is Finish <==> pre.state == RawState::Clear || pre.state == RawState::ClearLost,
        post.state == RawState::Clear || post.state == RawState::ClearLost <==> drops_alias(action),
{
}

/// As long as nothing was erased, no chunk is skipped: a chunk that was read is always aimed at its sectors next.
pub proof fn nothing_is_skipped_without_an_erase(pre: RawWrite, data: Vec<u8>, post: RawWrite, action: RawAction)
    requires
        pre.wf(),
        pre.awaits(RawReply::Payload(data)),
        RawWrite::advances(pre, RawReply::Payload(data), post, action),
        pre.erased_to == 0,
    ensures
        action matches RawAction::Run(command) && aims(
            command,
            pre.start_lba + pre.offset / 512,
            storage::sectors_of(pre.length as int),
        ),
{
}

/// Chunks are whole sectors, at least one, no more than 8 MiB and no more than the device takes, where it takes a
/// sector; and no larger chunk would do.
pub proof fn chunks_are_as_large_as_may_be(limit: usize)
    ensures
        chunk_bytes(limit) % 512 == 0,
        512 <= chunk_bytes(limit) <= 8388608,
        limit < 512 ==> chunk_bytes(limit) == 512,
        limit >= 512 ==> chunk_bytes(limit) <= limit,
        512 <= limit < 8388608 ==> limit < chunk_bytes(limit) + 512,
        limit >= 8388608 ==> chunk_bytes(limit) == 8388608,
        raw_alias() == "ft"@,
{
}

/// A command that aims the alias `ft` names the first sector and how many there are; the alias is dropped by its name.
pub proof fn the_alias_is_aimed_and_dropped(command: Command, action: RawAction, lba: int, count: int)
    ensures
        aims(command, lba, count) ==> (command matches Command::SetRawTarget { alias, start_lba, sectors } && alias@
            == "ft"@ && start_lba == lba && sectors == count),
        drops_alias(action) ==> (action matches RawAction::RunAnyway(Command::ClearRawTarget { alias }) && alias@
            == "ft"@),
{
}

/// A raw write erases its span first, if it has one, and goes on whether or not that succeeds; only a span that was
/// erased lets chunks be passed over. Then it reads chunk after chunk, each from where the one before ended, until the
/// payload is read.
pub proof fn raw_writes_read_chunk_after_chunk(pre: RawWrite, reply: RawReply, post: RawWrite, action: RawAction)
    requires
        pre.wf(),
        pre.awaits(reply),
        RawWrite::advances(pre, reply, post, action),
    ensures
        post.start_lba == pre.start_lba && post.size == pre.size && post.chunk_bytes == pre.chunk_bytes,
        post.span == pre.span,
        pre.state == RawState::AimErase && reply is Done ==> {
            &&& post.state == RawState::Erase
            &&& action matches RawAction::Run(Command::Erase { partition }) && partition@ == "ft"@
        },
        (pre.state == RawState::AimErase || pre.state == RawState::Erase) && reply is Failed ==> post.erased_from
            == pre.erased_from && post.erased_to == pre.erased_to && post.offset == 0,
        pre.state == RawState::Erase && reply is Done ==> (pre.span matches Some(span) && {
            &&& 512 * span.lba == 512 * pre.start_lba + post.erased_from
            &&& 512 * (span.lba + span.sectors) == 512 * pre.start_lba + post.erased_to
        }),
        pre.state != RawState::Erase ==> post.erased_from == pre.erased_from && post.erased_to == pre.erased_to,
        action matches RawAction::Read { length } ==> {
            &&& post.length == length
            &&& post.state == RawState::Read
            &&& post.offset == (if pre.state == RawState::Report {
                pre.offset + pre.length
            } else {
                0
            })
            &&& length == (if pre.size - post.offset > pre.chunk_bytes {
                pre.chunk_bytes as int
            } else {
                pre.size - post.offset
            })
        },
        (pre.state == RawState::AimErase && reply is Failed) || pre.state == RawState::Erase ==> {
            &&& pre.size > 0 ==> action is Read
            &&& pre.size == 0 ==> post.state == RawState::Clear
        },
        pre.state == RawState::Report ==> (action is Read <==> pre.offset + pre.length < pre.size),
        pre.state == RawState::Report && pre.offset + pre.length == pre.size ==> post.state == RawState::Clear,
{
}

/// A chunk that was read is aimed at its sectors, downloaded with zeros up to a whole sector, committed, and reported.
/// It is passed over only when all of it is zero and lies in what was erased. A failure drops the alias and ends the
/// write with its error; once all is written, the alias is dropped and the write is done.
pub proof fn raw_chunks_are_aimed_sent_and_committed(
    pre: RawWrite,
    reply: RawReply,
    post: RawWrite,
    action: RawAction,
)
    requires
        pre.wf(),
        pre.awaits(reply),
        RawWrite::advances(pre, reply, post, action),
    ensures
        pre.state == RawState::Read && reply is Payload ==> {
            let data = reply->Payload_0@;
            let skipped = pre.erased_from <= pre.offset && pre.offset + pre.length <= pre.erased_to && forall|i: int|
                0 <= i < data.len() ==> data[i] == 0;
            &&& skipped <==> action == (RawAction::Report { length: pre.length })
            &&& !skipped ==> {
                &&& post.state == RawState::Aim
                &&& post.chunk@.len() % 512 == 0
                &&& data.len() <= post.chunk@.len() < data.len() + 512
                &&& forall|i: int| 0 <= i < data.len() ==> post.chunk@[i] == data[i]
                &&& forall|i: int| data.len() <= i < post.chunk@.len() ==> post.chunk@[i] == 0
                &&& action matches RawAction::Run(Command::SetRawTarget { alias, start_lba, sectors }) && {
                    &&& alias@ == "ft"@
                    &&& 512 * start_lba == 512 * pre.start_lba + pre.offset
                    &&& 512 * sectors == post.chunk@.len()
                }
            }
        },
        pre.state == RawState::Aim && reply is Done ==> {
            &&& action matches RawAction::Download { data } && data@ == pre.chunk@
            &&& post.state == RawState::Download
        },
        pre.state == RawState::Download && reply is Done ==> {
            &&& action matches RawAction::Run(Command::Flash { partition }) && partition@ == "ft"@
            &&& post.state == RawState::Commit
        },
        pre.state == RawState::Commit && reply is Done ==> action == (RawAction::Report { length: pre.length }),
        (pre.state == RawState::Read || pre.state == RawState::Aim || pre.state == RawState::Download || pre.state
            == RawState::Commit) && reply is Failed ==> {
            &&& post.state == RawState::ClearLost
            &&& action matches RawAction::RunAnyway(Command::ClearRawTarget { alias }) && alias@ == "ft"@
        },
        pre.state == RawState::Clear ==> action == RawAction::Finish(Outcome::Done),
        pre.state == RawState::ClearLost ==> action == RawAction::Finish(Outcome::Rethrow),
        pre.in_chunk() && pre.state != RawState::Report ==> post.offset == pre.offset && post.length == pre.length,
{
    if pre.state == RawState::Read && reply is Payload {
        storage::sectors_are_filled_with_zeros(reply->Payload_0@);
    }
}

} // verus!
