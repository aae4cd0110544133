//! What a stream leaves on the eMMC.
//!
//! The device is seen as the bytes of its storage and of its staging area. Whatever goes wrong on the way, a stream
//! touches nothing but the range that it is for; and once it has succeeded, that range holds the payload.
use vstd::prelude::*;

use super::command::Command;
use super::memory;
use super::stream;
use super::stream::{StreamAction, StreamReply, StreamState, StreamTarget, StreamWrite};
use crate::bytes;
use crate::error::Outcome;
use crate::storage;

verus! {

/// The storage and the staging area of a device.
pub struct Device {
    pub disk: Seq<u8>,
    pub staged: Seq<u8>,
}

/// A stream, the action that it has out, and the device before that action is performed.
pub struct Moment {
    pub run: StreamWrite,
    pub action: StreamAction,
    pub device: Device,
}

/// The byte of the disk that the payload goes to. A named partition starts at `origin`.
pub open spec fn base(target: StreamTarget, origin: int) -> int {
    match target {
        StreamTarget::Disk { address, .. } => address as int,
        StreamTarget::UserArea { lba, .. } => lba * 512,
        StreamTarget::Partition { .. } => origin,
    }
}

/// What a payload is on the disk: where sectors are written, it has zeros behind it up to a whole one.
pub open spec fn laid_out(target: StreamTarget, payload: Seq<u8>) -> Seq<u8> {
    if target is Partition {
        payload
    } else {
        storage::in_sectors(payload)
    }
}

/// How many bytes of the disk a payload of `size` bytes takes.
pub open spec fn extent(target: StreamTarget, size: int) -> int {
    if target is Partition {
        size
    } else {
        storage::sectors_of(size) * 512
    }
}

/// What a command does to the device when it ends with the given reply. One that fails may have done its work in
/// part.
pub open spec fn runs(command: Command, reply: StreamReply, pre: Device, post: Device, origin: int) -> bool {
    match command {
        Command::WriteSectors { lba, sectors } => writes(lba * 512, sectors * 512, reply, pre, post),
        Command::WritePartition { offset, length, .. } => writes(origin + offset, length as int, reply, pre, post),
        Command::EraseSectors { lba, sectors } => {
            &&& post.staged == pre.staged
            &&& if reply is Failed {
                storage::same_outside(pre.disk, post.disk, lba * 512, (lba + sectors) * 512)
            } else {
                post.disk == storage::overwritten(pre.disk, lba * 512, bytes::zeros((sectors * 512) as nat))
            }
        },
        _ => post == pre,
    }
}

/// What writing `count` staged bytes to byte `at` of the disk does.
pub open spec fn writes(at: int, count: int, reply: StreamReply, pre: Device, post: Device) -> bool {
    &&& post.staged == pre.staged
    &&& if reply is Failed || count > pre.staged.len() {
        storage::same_outside(pre.disk, post.disk, at, at + count)
    } else {
        post.disk == storage::overwritten(pre.disk, at, pre.staged.take(count))
    }
}

/// What performing an action does to the device, and which replies it can bring. The payload is read in order.
pub open spec fn performs(now: Moment, reply: StreamReply, post: Device, payload: Seq<u8>, origin: int) -> bool {
    match now.action {
        StreamAction::Run(command) => runs(command, reply, now.device, post, origin),
        StreamAction::Stage { data, block_length, append_zeros } => {
            &&& post.disk == now.device.disk
            &&& reply is Done ==> {
                &&& append_zeros || data@.len() % (block_length as nat) == 0
                &&& post.staged == memory::padded(data@, block_length as nat)
            }
        },
        StreamAction::Read { .. } => {
            &&& post == now.device
            &&& reply matches StreamReply::Payload(data) ==> data@ == payload.subrange(
                now.run.offset as int,
                now.run.offset + now.run.length,
            )
        },
        _ => post == now.device,
    }
}

/// Whether a stream went through these moments, each reply leading from one to the next.
pub open spec fn is_history(
    moments: Seq<Moment>,
    replies: Seq<StreamReply>,
    payload: Seq<u8>,
    origin: int,
) -> bool {
    &&& moments.len() == replies.len() + 1
    &&& forall|i: int|
        0 <= i < replies.len() ==> #[trigger] follows(moments[i], replies[i], moments[i + 1], payload, origin)
}

/// Whether a reply leads from one moment to the next.
pub open spec fn follows(now: Moment, reply: StreamReply, next: Moment, payload: Seq<u8>, origin: int) -> bool {
    &&& now.run.awaits(reply)
    &&& performs(now, reply, next.device, payload, origin)
    &&& StreamWrite::advances(now.run, reply, next.run, next.action)
}

/// Whether a moment is the start of a stream, on a disk that has room for the payload at the place where it goes.
pub open spec fn is_start(now: Moment, payload: Seq<u8>, origin: int) -> bool {
    &&& now.run.wf()
    &&& now.run.state == StreamState::Select || now.run.state == StreamState::Unlock
    &&& now.run.retries == 0
    &&& now.action matches StreamAction::Run(command) && (command is SelectDevice || command is SelectHwpart || command
        is UnlockKey)
    &&& payload.len() == now.run.size
    &&& fits(now.run.target, now.run.size as int, now.device.disk.len() as int, origin)
}

/// Whether a payload has its place on a disk, at a sector border where sectors are what is written.
pub open spec fn fits(target: StreamTarget, size: int, capacity: int, origin: int) -> bool {
    &&& 0 <= base(target, origin)
    &&& base(target, origin) + extent(target, size) <= capacity
    &&& target matches StreamTarget::Disk { address, block_length, .. } ==> address % 512 == 0 && block_length > 0
    &&& !stream::is_bootloader(target)
}

/// How much of the payload, with the zeros behind it, is in its place.
spec fn done(run: StreamWrite) -> int {
    let payload = match run.state {
        StreamState::Cool | StreamState::Settle | StreamState::Report => run.offset + run.length,
        _ => run.offset as int,
    };
    if payload == run.size {
        extent(run.target, run.size as int)
    } else {
        payload
    }
}

/// From where on the erased groups are still untouched.
spec fn untouched(run: StreamWrite) -> int {
    if run.state == StreamState::Read {
        run.offset as int
    } else {
        run.offset + extent(run.target, run.length as int)
    }
}

/// Whether the staging area starts with the given bytes.
spec fn holds(staged: Seq<u8>, data: Seq<u8>) -> bool {
    data.len() <= staged.len() && staged.take(data.len() as int) == data
}

/// What the action that is out has to be.
spec fn agrees(now: Moment, payload: Seq<u8>) -> bool {
    let run = now.run;
    let chunk = payload.subrange(run.offset as int, run.offset + run.length);
    match run.state {
        StreamState::Select | StreamState::Unlock => now.action matches StreamAction::Run(command) && (command
            is SelectDevice || command is SelectHwpart || command is UnlockKey),
        StreamState::Erase => now.action matches StreamAction::Run(Command::EraseSectors { lba, sectors }) && {
            &&& run.target matches StreamTarget::UserArea { lba: first, .. } && lba == first + run.erased_from / 512
            &&& sectors == (run.erased_to - run.erased_from) / 512
        },
        StreamState::Read => now.action is Read,
        StreamState::Stage => now.action matches StreamAction::Stage { data, block_length, append_zeros } && {
            &&& data@ == stream::staged_for(run.target, chunk)
            &&& (block_length, append_zeros) == stream::staging_of(run.target, run.length as nat)
        },
        StreamState::Write => {
            &&& now.action matches StreamAction::Run(command) && stream::writes_chunk(
                command,
                run.target,
                run.offset,
                run.length,
            )
            &&& holds(now.device.staged, laid_out(run.target, chunk))
        },
        StreamState::Backoff => {
            &&& now.action is Sleep
            &&& holds(now.device.staged, laid_out(run.target, chunk))
        },
        StreamState::Cool | StreamState::Settle => now.action is Sleep,
        StreamState::Report => now.action is Report,
        StreamState::Finished => now.action is Finish,
    }
}

/// What holds of every moment of a stream.
spec fn settled(now: Moment, disk: Seq<u8>, payload: Seq<u8>, origin: int) -> bool {
    let run = now.run;
    let at = base(run.target, origin);
    &&& run.wf()
    &&& payload.len() == run.size
    &&& fits(run.target, run.size as int, disk.len() as int, origin)
    &&& agrees(now, payload)
    &&& storage::same_outside(disk, now.device.disk, at, at + extent(run.target, run.size as int))
    &&& run.state != StreamState::Finished || (now.action matches StreamAction::Finish(Outcome::Done))
        ==> forall|k: int|
        0 <= k < done(run) ==> #[trigger] now.device.disk[at + k] == laid_out(run.target, payload)[k]
    &&& run.in_chunk() ==> forall|k: int|
        untouched(run) <= k < run.erased_to && run.erased_from <= k ==> #[trigger] now.device.disk[at + k] == 0
    &&& now.action matches StreamAction::Finish(Outcome::Done) ==> run.offset == run.size
}

/// The erased range of a sparse write lies inside what the stream may touch.
proof fn lemma_erased_inside(run: StreamWrite)
    requires
        run.wf(),
        run.erased_from < run.erased_to,
    ensures
        run.target is UserArea,
        run.erased_to <= extent(run.target, run.size as int),
        run.erased_from % 512 == 0,
        run.erased_to % 512 == 0,
{
    match run.target {
        StreamTarget::UserArea { lba, .. } => {
            storage::erase_stays_inside_the_write(lba as int, run.size as nat);
        },
        _ => {},
    }
}

proof fn lemma_start(now: Moment, payload: Seq<u8>, origin: int)
    requires
        is_start(now, payload, origin),
    ensures
        settled(now, now.device.disk, payload, origin),
{
}

/// The place of a chunk on the disk holds the chunk, with the zeros behind the last one.
proof fn lemma_chunk(run: StreamWrite, payload: Seq<u8>)
    requires
        run.wf(),
        run.in_chunk(),
        payload.len() == run.size,
    ensures
        ({
            let whole = laid_out(run.target, payload);
            let chunk = laid_out(run.target, payload.subrange(run.offset as int, run.offset + run.length));
            let end = run.offset + chunk.len();
            &&& chunk.len() == extent(run.target, run.length as int)
            &&& whole.len() == extent(run.target, run.size as int)
            &&& end <= whole.len()
            &&& run.offset + run.length == run.size ==> end == whole.len()
            &&& run.offset + run.length < run.size ==> end == run.offset + run.length
            &&& forall|k: int| run.offset <= k < end ==> chunk[k - run.offset] == #[trigger] whole[k]
        }),
{
    if !(run.target is Partition) {
        storage::lemma_chunk(payload, run.offset as int, run.length as int);
    }
}

/// A chunk that is written stands on the disk.
proof fn lemma_written(now: Moment, reply: StreamReply, next: Moment, disk: Seq<u8>, payload: Seq<u8>, origin: int)
    requires
        settled(now, disk, payload, origin),
        follows(now, reply, next, payload, origin),
        now.run.state == StreamState::Write,
    ensures
        settled(next, disk, payload, origin),
{
    let run = now.run;
    let at = base(run.target, origin);
    let whole = laid_out(run.target, payload);
    let chunk = laid_out(run.target, payload.subrange(run.offset as int, run.offset + run.length));
    lemma_chunk(run, payload);
    if run.erased_from < run.erased_to {
        lemma_erased_inside(run);
    }
    assert(writes(at + run.offset, chunk.len() as int, reply, now.device, next.device));
    assert(now.device.staged.take(chunk.len() as int) == chunk);
    assert forall|k: int|
        next.run.state != StreamState::Finished && 0 <= k < done(next.run) implies #[trigger] next.device.disk[at + k]
        == whole[k] by {
        if k < run.offset {
            assert(now.device.disk[at + k] == whole[k]);
        } else {
            assert(next.device.disk[at + k] == chunk[k - run.offset]);
        }
    }
    assert forall|k: int|
        next.run.in_chunk() && untouched(next.run) <= k < run.erased_to && run.erased_from
            <= k implies #[trigger] next.device.disk[at + k] == 0 by {
        assert(now.device.disk[at + k] == 0);
    }
    assert forall|i: int|
        0 <= i < disk.len() && !(at <= i < at + whole.len()) implies disk[i] == next.device.disk[i] by {
        assert(disk[i] == now.device.disk[i]);
    }
}

/// Erased groups are zero.
proof fn lemma_erased(now: Moment, reply: StreamReply, next: Moment, disk: Seq<u8>, payload: Seq<u8>, origin: int)
    requires
        settled(now, disk, payload, origin),
        follows(now, reply, next, payload, origin),
        now.run.state == StreamState::Erase,
        now.run.erased_from < now.run.erased_to,
    ensures
        settled(next, disk, payload, origin),
{
    let run = now.run;
    let at = base(run.target, origin);
    lemma_erased_inside(run);
    match now.action {
        StreamAction::Run(Command::EraseSectors { lba, sectors }) => {
            assert(lba * 512 == at + run.erased_from);
            assert(sectors * 512 == run.erased_to - run.erased_from);
        },
        _ => {},
    }
    assert forall|k: int|
        next.run.in_chunk() && untouched(next.run) <= k < run.erased_to && run.erased_from
            <= k implies #[trigger] next.device.disk[at + k] == 0 by {}
    assert forall|i: int|
        0 <= i < disk.len() && !(at <= i < at + extent(run.target, run.size as int)) implies disk[i]
        == next.device.disk[i] by {
        assert(disk[i] == now.device.disk[i]);
    }
}

/// A chunk that is left out was zero, and so is its place.
proof fn lemma_read(now: Moment, reply: StreamReply, next: Moment, disk: Seq<u8>, payload: Seq<u8>, origin: int)
    requires
        settled(now, disk, payload, origin),
        follows(now, reply, next, payload, origin),
        now.run.state == StreamState::Read,
    ensures
        settled(next, disk, payload, origin),
{
    let run = now.run;
    let at = base(run.target, origin);
    let whole = laid_out(run.target, payload);
    lemma_chunk(run, payload);
    if run.erased_from < run.erased_to {
        lemma_erased_inside(run);
    }
    match reply {
        StreamReply::Payload(data) => {
            if run.skips(data@) {
                assert forall|k: int| 0 <= k < done(next.run) implies #[trigger] next.device.disk[at + k]
                    == whole[k] by {
                    if k < run.offset {
                        assert(now.device.disk[at + k] == whole[k]);
                    } else {
                        assert(run.erased_to >= done(next.run));
                        assert(now.device.disk[at + k] == 0);
                        if k < run.offset + run.length {
                            assert(data@[k - run.offset] == payload[k]);
                        }
                    }
                }
            }
        },
        _ => {},
    }
}

proof fn lemma_staged(now: Moment, reply: StreamReply, next: Moment, disk: Seq<u8>, payload: Seq<u8>, origin: int)
    requires
        settled(now, disk, payload, origin),
        follows(now, reply, next, payload, origin),
        now.run.state == StreamState::Stage,
    ensures
        settled(next, disk, payload, origin),
{
    let run = now.run;
    let chunk = payload.subrange(run.offset as int, run.offset + run.length);
    let staged = laid_out(run.target, chunk);
    if reply is Done {
        assert(staged =~= stream::staged_for(run.target, chunk));
        assert(next.device.staged.take(staged.len() as int) =~= staged);
    }
}

/// Every moment keeps what held of the one before it.
proof fn lemma_follows(now: Moment, reply: StreamReply, next: Moment, disk: Seq<u8>, payload: Seq<u8>, origin: int)
    requires
        settled(now, disk, payload, origin),
        follows(now, reply, next, payload, origin),
        now.run.state == StreamState::Erase ==> now.run.erased_from < now.run.erased_to,
    ensures
        settled(next, disk, payload, origin),
        next.run.state == StreamState::Erase ==> next.run.erased_from < next.run.erased_to,
        next.run.target == now.run.target,
        next.run.size == now.run.size,
{
    match now.run.state {
        StreamState::Write => lemma_written(now, reply, next, disk, payload, origin),
        StreamState::Erase => lemma_erased(now, reply, next, disk, payload, origin),
        StreamState::Read => lemma_read(now, reply, next, disk, payload, origin),
        StreamState::Stage => lemma_staged(now, reply, next, disk, payload, origin),
        _ => {},
    }
}

proof fn lemma_history(moments: Seq<Moment>, replies: Seq<StreamReply>, payload: Seq<u8>, origin: int, upto: int)
    requires
        is_history(moments, replies, payload, origin),
        is_start(moments[0], payload, origin),
        0 <= upto < moments.len(),
    ensures
        settled(moments[upto], moments[0].device.disk, payload, origin),
        moments[upto].run.state == StreamState::Erase ==> moments[upto].run.erased_from < moments[upto].run.erased_to,
        moments[upto].run.target == moments[0].run.target,
        moments[upto].run.size == moments[0].run.size,
    decreases upto,
{
    if upto == 0 {
        lemma_start(moments[0], payload, origin);
    } else {
        lemma_history(moments, replies, payload, origin, upto - 1);
        assert(follows(moments[upto - 1], replies[upto - 1], moments[upto - 1 + 1], payload, origin));
        lemma_follows(
            moments[upto - 1],
            replies[upto - 1],
            moments[upto],
            moments[0].device.disk,
            payload,
            origin,
        );
    }
}

/// At every moment of a stream, failed or not, the disk outside the payload's range of sectors is as it was.
pub proof fn stream_touches_only_its_range(
    moments: Seq<Moment>,
    replies: Seq<StreamReply>,
    payload: Seq<u8>,
    origin: int,
    moment: int,
)
    requires
        is_history(moments, replies, payload, origin),
        is_start(moments[0], payload, origin),
        0 <= moment < moments.len(),
    ensures
        ({
            let run = moments[0].run;
            let at = base(run.target, origin);
            storage::same_outside(
                moments[0].device.disk,
                moments[moment].device.disk,
                at,
                at + extent(run.target, run.size as int),
            )
        }),
{
    lemma_history(moments, replies, payload, origin, moment);
}

/// Once a stream has succeeded, the disk is what it was with the payload, and zeros up to a whole sector where sectors
/// are written, written over it. That is the same whether or not zeros were skipped on the way.
pub proof fn stream_lays_down_the_payload(
    moments: Seq<Moment>,
    replies: Seq<StreamReply>,
    payload: Seq<u8>,
    origin: int,
)
    requires
        is_history(moments, replies, payload, origin),
        is_start(moments[0], payload, origin),
        moments.last().action matches StreamAction::Finish(Outcome::Done),
    ensures
        ({
            let target = moments[0].run.target;
            moments.last().device.disk == storage::overwritten(
                moments[0].device.disk,
                base(target, origin),
                laid_out(target, payload),
            )
        }),
{
    lemma_history(moments, replies, payload, origin, moments.len() - 1);
    let last = moments.last();
    let disk = moments[0].device.disk;
    let at = base(last.run.target, origin);
    let whole = laid_out(last.run.target, payload);
    assert forall|i: int| 0 <= i < disk.len() implies last.device.disk[i] == storage::overwritten(
        disk,
        at,
        whole,
    )[i] by {
        if at <= i < at + whole.len() {
            assert(last.device.disk[at + (i - at)] == whole[i - at]);
        }
    }
    assert(last.device.disk =~= storage::overwritten(disk, at, whole));
}

/// A write to the user area that erases first and a plain one of the same payload to the same sector leave the same
/// disk once both have succeeded, to the end of the last sector.
pub proof fn sparse_and_plain_writes_agree(
    sparse: Seq<Moment>,
    sparse_replies: Seq<StreamReply>,
    plain: Seq<Moment>,
    plain_replies: Seq<StreamReply>,
    payload: Seq<u8>,
    lba: u32,
)
    requires
        is_history(sparse, sparse_replies, payload, 0),
        is_start(sparse[0], payload, 0),
        sparse.last().action matches StreamAction::Finish(Outcome::Done),
        is_history(plain, plain_replies, payload, 0),
        is_start(plain[0], payload, 0),
        plain.last().action matches StreamAction::Finish(Outcome::Done),
        sparse[0].run.target == (StreamTarget::UserArea { lba, sparse: true }),
        plain[0].run.target == (StreamTarget::UserArea { lba, sparse: false }),
        sparse[0].device.disk == plain[0].device.disk,
    ensures
        sparse.last().device.disk == plain.last().device.disk,
{
    stream_lays_down_the_payload(sparse, sparse_replies, payload, 0);
    stream_lays_down_the_payload(plain, plain_replies, payload, 0);
}

} // verus!
