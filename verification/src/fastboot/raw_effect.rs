//! What a raw write leaves on the eMMC.
//!
//! The device is seen as the bytes of its storage, its download buffer, and the range that the alias points at; an
//! erased sector reads back as zeros. Whatever goes wrong on the way, a raw write touches nothing but its range of
//! sectors; and once it has succeeded, the disk is what it was with the payload written over it, sparse or not.
use vstd::prelude::*;

use super::command::Command;
use super::raw;
use super::raw::{RawAction, RawReply, RawState, RawWrite};
use crate::bytes;
use crate::error::Outcome;
use crate::storage;

verus! {

/// The storage, the download buffer and the alias of a device.
pub struct Device {
    pub disk: Seq<u8>,
    pub buffer: Seq<u8>,
    /// The first sector and the number of sectors that the alias points at.
    pub alias: (int, int),
}

/// A raw write, the action that it has out, and the device before that action is performed.
pub struct Moment {
    pub run: RawWrite,
    pub action: RawAction,
    pub device: Device,
}

/// What putting `data` into the range that the alias points at does, or trying to.
pub open spec fn puts(data: Seq<u8>, reply: RawReply, pre: Device, post: Device) -> bool {
    let (lba, count) = pre.alias;
    &&& post.buffer == pre.buffer
    &&& post.alias == pre.alias
    &&& if reply is Failed || data.len() > count * 512 {
        storage::same_outside(pre.disk, post.disk, lba * 512, (lba + count) * 512)
    } else {
        post.disk == storage::overwritten(pre.disk, lba * 512, data)
    }
}

/// What a command does to the device when it ends with the given reply.
pub open spec fn runs(command: Command, reply: RawReply, pre: Device, post: Device) -> bool {
    match command {
        Command::SetRawTarget { start_lba, sectors, .. } => {
            &&& post.disk == pre.disk
            &&& post.buffer == pre.buffer
            &&& reply is Done ==> post.alias == (start_lba as int, sectors as int)
        },
        Command::Erase { .. } => puts(bytes::zeros((pre.alias.1 * 512) as nat), reply, pre, post),
        Command::Flash { .. } => puts(pre.buffer, reply, pre, post),
        _ => post.disk == pre.disk,
    }
}

/// What performing an action does to the device, and which replies it can bring. The payload is read in order.
pub open spec fn performs(now: Moment, reply: RawReply, post: Device, payload: Seq<u8>) -> bool {
    match now.action {
        RawAction::Run(command) => runs(command, reply, now.device, post),
        RawAction::RunAnyway(command) => runs(command, reply, now.device, post),
        RawAction::Download { data } => {
            &&& post.disk == now.device.disk
            &&& post.alias == now.device.alias
            &&& reply is Done ==> post.buffer == data@
        },
        RawAction::Read { .. } => {
            &&& post == now.device
            &&& reply matches RawReply::Payload(data) ==> data@ == payload.subrange(
                now.run.offset as int,
                now.run.offset + now.run.length,
            )
        },
        _ => post == now.device,
    }
}

/// Whether a reply leads from one moment to the next.
pub open spec fn follows(now: Moment, reply: RawReply, next: Moment, payload: Seq<u8>) -> bool {
    &&& now.run.awaits(reply)
    &&& performs(now, reply, next.device, payload)
    &&& RawWrite::advances(now.run, reply, next.run, next.action)
}

/// Whether a raw write went through these moments, each reply leading from one to the next.
pub open spec fn is_history(moments: Seq<Moment>, replies: Seq<RawReply>, payload: Seq<u8>) -> bool {
    &&& moments.len() == replies.len() + 1
    &&& forall|i: int| 0 <= i < replies.len() ==> #[trigger] follows(moments[i], replies[i], moments[i + 1], payload)
}

/// Whether a moment is the start of a raw write, on a disk that has room for the payload.
pub open spec fn is_start(now: Moment, payload: Seq<u8>) -> bool {
    &&& now.run.wf()
    &&& now.run.offset == 0
    &&& now.run.erased_to == 0
    &&& payload.len() == now.run.size
    &&& (now.run.start_lba + storage::sectors_of(now.run.size as int)) * 512 <= now.device.disk.len()
    &&& match now.run.span {
        Some(span) => {
            &&& now.run.state == RawState::AimErase
            &&& now.action matches RawAction::Run(command) && raw::aims(command, span.lba as int, span.sectors as int)
        },
        None => RawWrite::goes_on(now.run, now.run, now.action, 0, (0, 0)),
    }
}

/// How much of the payload, with the zeros behind it, is in its place.
spec fn done(run: RawWrite) -> int {
    let payload = if run.state == RawState::Report {
        run.offset + run.length
    } else {
        run.offset as int
    };
    if payload == run.size {
        storage::sectors_of(run.size as int) * 512
    } else {
        payload
    }
}

/// From where on the erased groups are still untouched.
spec fn untouched(run: RawWrite) -> int {
    if run.state == RawState::Read {
        run.offset as int
    } else {
        run.offset + run.length
    }
}

/// What the action that is out has to be.
spec fn agrees(now: Moment, payload: Seq<u8>) -> bool {
    let run = now.run;
    let chunk = storage::in_sectors(payload.subrange(run.offset as int, run.offset + run.length));
    let lba = run.start_lba + run.offset / 512;
    let count = storage::sectors_of(run.length as int);
    match run.state {
        RawState::AimErase => now.action matches RawAction::Run(command) && raw::aims(
            command,
            run.span->0.lba as int,
            run.span->0.sectors as int,
        ),
        RawState::Erase => {
            &&& now.action matches RawAction::Run(Command::Erase { .. })
            &&& now.device.alias == (run.span->0.lba as int, run.span->0.sectors as int)
        },
        RawState::Read => now.action is Read,
        RawState::Aim => {
            &&& now.action matches RawAction::Run(command) && raw::aims(command, lba, count)
            &&& run.chunk@ == chunk
        },
        RawState::Download => {
            &&& now.action matches RawAction::Download { data } && data@ == chunk
            &&& now.device.alias == (lba, count)
        },
        RawState::Commit => {
            &&& now.action matches RawAction::Run(Command::Flash { .. })
            &&& now.device.alias == (lba, count)
            &&& now.device.buffer == chunk
        },
        RawState::Report => now.action is Report,
        RawState::Clear | RawState::ClearLost => raw::drops_alias(now.action),
        RawState::Finished => now.action is Finish,
    }
}

/// What holds of every moment of a raw write.
spec fn settled(now: Moment, disk: Seq<u8>, payload: Seq<u8>) -> bool {
    let run = now.run;
    let at = run.start_lba * 512;
    let whole = storage::in_sectors(payload);
    &&& run.wf()
    &&& payload.len() == run.size
    &&& at + whole.len() <= disk.len()
    &&& agrees(now, payload)
    &&& storage::same_outside(disk, now.device.disk, at, at + whole.len())
    &&& run.in_chunk() || run.state == RawState::Clear || run.state == RawState::Finished && (now.action
        matches RawAction::Finish(Outcome::Done)) ==> forall|k: int|
        0 <= k < done(run) ==> #[trigger] now.device.disk[at + k] == whole[k]
    &&& run.in_chunk() ==> forall|k: int|
        untouched(run) <= k < run.erased_to && run.erased_from <= k ==> #[trigger] now.device.disk[at + k] == 0
    &&& now.action matches RawAction::Finish(Outcome::Done) ==> run.offset == run.size
}

/// The erased groups lie inside the sectors of the write.
proof fn lemma_erasable_inside(run: RawWrite)
    requires
        run.wf(),
        run.span is Some,
    ensures
        0 <= run.erasable().0 < run.erasable().1 <= storage::sectors_of(run.size as int) * 512,
        run.erasable().1 % 512 == 0,
{
    storage::erase_stays_inside_the_write(run.start_lba as int, run.size as nat);
}

proof fn lemma_erase(now: Moment, reply: RawReply, next: Moment, disk: Seq<u8>, payload: Seq<u8>)
    requires
        settled(now, disk, payload),
        follows(now, reply, next, payload),
        now.run.state == RawState::Erase,
    ensures
        settled(next, disk, payload),
{
    let run = now.run;
    let at = run.start_lba * 512;
    let whole = storage::in_sectors(payload);
    lemma_erasable_inside(run);
    let (lba, count) = now.device.alias;
    assert(lba * 512 == at + run.erasable().0);
    assert((lba + count) * 512 == at + run.erasable().1);
    assert forall|i: int| 0 <= i < disk.len() && !(at <= i < at + whole.len()) implies disk[i]
        == next.device.disk[i] by {
        assert(disk[i] == now.device.disk[i]);
    }
    assert forall|k: int|
        next.run.in_chunk() && untouched(next.run) <= k < next.run.erased_to && next.run.erased_from
            <= k implies #[trigger] next.device.disk[at + k] == 0 by {}
    assert(next.run.size == 0 ==> whole.len() == 0);
}

proof fn lemma_commit(now: Moment, reply: RawReply, next: Moment, disk: Seq<u8>, payload: Seq<u8>)
    requires
        settled(now, disk, payload),
        follows(now, reply, next, payload),
        now.run.state == RawState::Commit,
    ensures
        settled(next, disk, payload),
{
    let run = now.run;
    let at = run.start_lba * 512;
    let whole = storage::in_sectors(payload);
    let chunk = storage::in_sectors(payload.subrange(run.offset as int, run.offset + run.length));
    storage::lemma_chunk(payload, run.offset as int, run.length as int);
    let (lba, count) = now.device.alias;
    assert(lba * 512 == at + run.offset);
    assert((lba + count) * 512 == at + run.offset + chunk.len());
    if run.span is Some {
        lemma_erasable_inside(run);
    }
    assert forall|i: int| 0 <= i < disk.len() && !(at <= i < at + whole.len()) implies disk[i]
        == next.device.disk[i] by {
        assert(disk[i] == now.device.disk[i]);
    }
    if !(reply is Failed) {
        assert forall|k: int| 0 <= k < done(next.run) implies #[trigger] next.device.disk[at + k] == whole[k] by {
            if k < run.offset {
                assert(now.device.disk[at + k] == whole[k]);
            } else {
                assert(next.device.disk[at + k] == chunk[k - run.offset]);
            }
        }
        assert forall|k: int|
            untouched(next.run) <= k < run.erased_to && run.erased_from <= k implies #[trigger] next.device.disk[at
            + k] == 0 by {
            if k < run.offset + chunk.len() {
                assert(next.device.disk[at + k] == chunk[k - run.offset]);
                assert(whole[k] == chunk[k - run.offset]);
            } else {
                assert(now.device.disk[at + k] == 0);
            }
        }
    }
}

proof fn lemma_read(now: Moment, reply: RawReply, next: Moment, disk: Seq<u8>, payload: Seq<u8>)
    requires
        settled(now, disk, payload),
        follows(now, reply, next, payload),
        now.run.state == RawState::Read,
    ensures
        settled(next, disk, payload),
{
    let run = now.run;
    let at = run.start_lba * 512;
    let whole = storage::in_sectors(payload);
    storage::lemma_chunk(payload, run.offset as int, run.length as int);
    if run.span is Some {
        lemma_erasable_inside(run);
    }
    match reply {
        RawReply::Payload(data) => {
            if run.skips(data@) {
                assert forall|k: int| 0 <= k < done(next.run) implies #[trigger] next.device.disk[at + k]
                    == whole[k] by {
                    if k < run.offset {
                        assert(now.device.disk[at + k] == whole[k]);
                    } else {
                        assert(run.erased_to >= done(next.run));
                        assert(now.device.disk[at + k] == 0);
                        if k < run.offset + run.length {
                            assert(data@[k - run.offset] == payload[k]);
                        }
                    }
                }
            }
        },
        _ => {},
    }
}

/// Every moment keeps what held of the one before it.
proof fn lemma_follows(now: Moment, reply: RawReply, next: Moment, disk: Seq<u8>, payload: Seq<u8>)
    requires
        settled(now, disk, payload),
        follows(now, reply, next, payload),
    ensures
        settled(next, disk, payload),
        next.run.start_lba == now.run.start_lba,
        next.run.size == now.run.size,
{
    match now.run.state {
        RawState::Erase => lemma_erase(now, reply, next, disk, payload),
        RawState::Commit => lemma_commit(now, reply, next, disk, payload),
        RawState::Read => lemma_read(now, reply, next, disk, payload),
        _ => {},
    }
}

proof fn lemma_start(now: Moment, payload: Seq<u8>)
    requires
        is_start(now, payload),
    ensures
        settled(now, now.device.disk, payload),
{
}

proof fn lemma_history(moments: Seq<Moment>, replies: Seq<RawReply>, payload: Seq<u8>, upto: int)
    requires
        is_history(moments, replies, payload),
        is_start(moments[0], payload),
        0 <= upto < moments.len(),
    ensures
        settled(moments[upto], moments[0].device.disk, payload),
        moments[upto].run.start_lba == moments[0].run.start_lba,
        moments[upto].run.size == moments[0].run.size,
    decreases upto,
{
    if upto == 0 {
        lemma_start(moments[0], payload);
    } else {
        lemma_history(moments, replies, payload, upto - 1);
        assert(follows(moments[upto - 1], replies[upto - 1], moments[upto - 1 + 1], payload));
        lemma_follows(moments[upto - 1], replies[upto - 1], moments[upto], moments[0].device.disk, payload);
    }
}

/// At every moment of a raw write, failed or not, the disk outside its range of sectors is as it was.
pub proof fn raw_write_touches_only_its_range(
    moments: Seq<Moment>,
    replies: Seq<RawReply>,
    payload: Seq<u8>,
    moment: int,
)
    requires
        is_history(moments, replies, payload),
        is_start(moments[0], payload),
        0 <= moment < moments.len(),
    ensures
        ({
            let run = moments[0].run;
            storage::same_outside(
                moments[0].device.disk,
                moments[moment].device.disk,
                run.start_lba * 512,
                (run.start_lba + storage::sectors_of(run.size as int)) * 512,
            )
        }),
{
    lemma_history(moments, replies, payload, moment);
}

/// Once a raw write has succeeded, the disk is what it was with the payload, and zeros up to a whole sector, written
/// over it. That is the same whether or not the write was sparse, whether or not its erase succeeded, and whatever the
/// device takes at once.
pub proof fn raw_write_lays_down_the_payload(moments: Seq<Moment>, replies: Seq<RawReply>, payload: Seq<u8>)
    requires
        is_history(moments, replies, payload),
        is_start(moments[0], payload),
        moments.last().action matches RawAction::Finish(Outcome::Done),
    ensures
        moments.last().device.disk == storage::overwritten(
            moments[0].device.disk,
            moments[0].run.start_lba * 512,
            storage::in_sectors(payload),
        ),
{
    lemma_history(moments, replies, payload, moments.len() - 1);
    let last = moments.last();
    let disk = moments[0].device.disk;
    let at = moments[0].run.start_lba * 512;
    let whole = storage::in_sectors(payload);
    assert forall|i: int| 0 <= i < disk.len() implies last.device.disk[i] == storage::overwritten(
        disk,
        at,
        whole,
    )[i] by {
        if at <= i < at + whole.len() {
            assert(last.device.disk[at + (i - at)] == whole[i - at]);
        }
    }
    assert(last.device.disk =~= storage::overwritten(disk, at, whole));
}

/// A sparse write and a plain one of the same payload to the same place leave the same disk once both have succeeded.
pub proof fn sparse_and_plain_writes_agree(
    sparse: Seq<Moment>,
    sparse_replies: Seq<RawReply>,
    plain: Seq<Moment>,
    plain_replies: Seq<RawReply>,
    payload: Seq<u8>,
)
    requires
        is_history(sparse, sparse_replies, payload),
        is_start(sparse[0], payload),
        sparse.last().action matches RawAction::Finish(Outcome::Done),
        is_history(plain, plain_replies, payload),
        is_start(plain[0], payload),
        plain.last().action matches RawAction::Finish(Outcome::Done),
        plain[0].run.span is None,
        sparse[0].run.start_lba == plain[0].run.start_lba,
        sparse[0].device.disk == plain[0].device.disk,
    ensures
        sparse.last().device.disk == plain.last().device.disk,
{
    raw_write_lays_down_the_payload(sparse, sparse_replies, payload);
    raw_write_lays_down_the_payload(plain, plain_replies, payload);
}

} // verus!
