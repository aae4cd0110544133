//! The AMLC handshake, by which the boot ROM fetches a bootloader piece by piece.
use vstd::prelude::*;
use vstd::utf8::*;

use super::memory::ControlOut;
use super::{memory, Reply, REQ_GET_AMLC, REQ_WRITE_AMLC};
use crate::bytes;
use crate::error;
use crate::error::{Error, Outcome};
use crate::text;

verus! {

/// Bytes of an AMLC request and of the block that closes a packet.
pub const AMLC_AMLS_BLOCK_LENGTH: usize = 0x200;

/// Most bytes of one bulk transfer.
pub const AMLC_MAX_BLOCK_LENGTH: usize = 0x4000;

/// Most bytes of one announced write.
pub const AMLC_MAX_TRANSFER_LENGTH: usize = 65536;

/// Bytes of an acknowledgment.
pub const AMLC_ACK_BYTES: usize = 16;

/// Milliseconds that a bulk transfer of a write may take.
pub const AMLC_BULK_MILLIS: u64 = 1000;

/// Milliseconds that a bulk transfer of a request may take.
pub const AMLC_REQUEST_MILLIS: u64 = 2000;

/// How often a transfer is tried.
pub const AMLC_TRIES: usize = 3;

/// How many zero bytes bring a length up to a whole number of words.
pub open spec fn word_padding(length: nat) -> nat {
    ((4 - length % 4) % 4) as nat
}

/// The checksum of a packet: the sum of its little-endian words, with zeros behind the last one, modulo the word
/// span.
pub open spec fn checksum(data: Seq<u8>) -> nat {
    let whole = data + bytes::zeros(word_padding(data.len()));
    bytes::words_total(whole, whole.len() / 4) % (bytes::WORD_SPAN as nat)
}

/// Computes the checksum of a packet.
pub fn amlc_checksum(data: &[u8]) -> (sum: u32)
    ensures
        sum == checksum(data@),
{
    let length: usize = data.len();
    let count: usize = length / 4;
    let rest: usize = length % 4;
    let total: u32 = bytes::wrapping_total(data, count);
    let ghost whole = data@ + bytes::zeros(word_padding(data@.len()));
    proof {
        bytes::lemma_words_total_prefix(data@, whole, count as nat);
    }
    if rest == 0 {
        assert(whole =~= data@);
        return total;
    }
    let at: usize = 4 * count;
    let mut last: u32 = data[at] as u32;
    if rest > 1 {
        last = last + 0x100 * data[at + 1] as u32;
    }
    if rest > 2 {
        last = last + 0x1_0000 * data[at + 2] as u32;
    }
    assert(last == bytes::word_at(whole, at as int));
    assert(whole.len() / 4 == count + 1);
    ((total as u64 + last as u64) % bytes::WORD_SPAN) as u32
}

/// The block that closes a packet: the tag `AMLS`, the sequence number and the checksum in the first 16 bytes, and
/// then the data from its byte 16 on.
pub open spec fn amls_block(seq: u8, data: Seq<u8>) -> Seq<u8> {
    Seq::new(
        AMLC_AMLS_BLOCK_LENGTH as nat,
        |i: int|
            if i < 4 {
                seq![0x41u8, 0x4du8, 0x4cu8, 0x53u8][i]
            } else if i == 4 {
                seq
            } else if 8 <= i < 12 {
                bytes::word_bytes(checksum(data) as u32)[i - 8]
            } else if 16 <= i < data.len() {
                data[i]
            } else {
                0
            },
    )
}

/// Builds the block that closes a packet.
pub fn build_amls_block(seq: u8, data: &[u8]) -> (block: Vec<u8>)
    ensures
        block@ == amls_block(seq, data@),
{
    let mut block: Vec<u8> = Vec::new();
    block.push(0x41);
    block.push(0x4d);
    block.push(0x4c);
    block.push(0x53);
    block.push(seq);
    bytes::push_zeros(&mut block, 3);
    let sum: u32 = amlc_checksum(data);
    bytes::push_word(&mut block, sum);
    bytes::push_zeros(&mut block, 4);
    assert(block@ =~= amls_block(seq, data@).take(16)) by {
        bytes::lemma_word_bytes(sum);
    }
    let end: usize = if data.len() > AMLC_AMLS_BLOCK_LENGTH { AMLC_AMLS_BLOCK_LENGTH } else { data.len() };
    if end > 16 {
        block.extend_from_slice(&data[16..end]);
    }
    let filled: usize = block.len();
    bytes::push_zeros(&mut block, AMLC_AMLS_BLOCK_LENGTH - filled);
    assert(block@ =~= amls_block(seq, data@));
    block
}

/// The transfer that asks for the next AMLC request.
pub fn get_boot_amlc() -> (transfer: ControlOut)
    ensures
        memory::sends(transfer, REQ_GET_AMLC, AMLC_AMLS_BLOCK_LENGTH as int, 0, Seq::empty()),
        transfer.request == 0x50 && transfer.value == 0x200 && transfer.index == 0,
        transfer.data@.len() == 0,
{
    let data: Vec<u8> = Vec::new();
    assert(data@ =~= Seq::<u8>::empty());
    ControlOut { request: REQ_GET_AMLC, value: AMLC_AMLS_BLOCK_LENGTH as u16, index: 0, data }
}

/// What the boot ROM asks for: a number of bytes at an offset of the bootloader.
#[derive(Clone, Copy, PartialEq, Eq, Structural)]
pub struct AmlcRequest {
    pub length: u32,
    pub offset: u32,
}

/// Reads an AMLC request out of what the device sent.
pub fn get_boot_amlc_reply(reply: &[u8]) -> (request: Result<AmlcRequest, Error>)
    ensures
        request is Ok <==> {
            &&& reply@.len() >= 0x200
            &&& valid_utf8(reply@.take(4))
            &&& decode_utf8(reply@.take(4)) == "AMLC"@
        },
        request matches Ok(r) ==> {
            &&& r.length == bytes::word_at(reply@, 8)
            &&& r.offset == bytes::word_at(reply@, 12)
            &&& r.length == reply@[8] + 0x100 * reply@[9] + 0x1_0000 * reply@[10] + 0x100_0000 * reply@[11]
            &&& r.offset == reply@[12] + 0x100 * reply@[13] + 0x1_0000 * reply@[14] + 0x100_0000 * reply@[15]
        },
        request matches Err(e) ==> if reply@.len() < AMLC_AMLS_BLOCK_LENGTH {
            error::is_invalid(e, "No amlc data received"@)
        } else if !valid_utf8(reply@.take(4)) {
            e is Utf8Error
        } else {
            error::is_invalid(e, "invalid amlc request: "@ + decode_utf8(reply@.take(4)))
        },
{
    if reply.len() < AMLC_AMLS_BLOCK_LENGTH {
        return Err(error::invalid("No amlc data received"));
    }
    let head = bytes::copy_between(reply, 0, 4);
    assert(head@ =~= reply@.take(4));
    let tag = match text::from_utf8(head) {
        Ok(tag) => tag,
        Err(e) => return Err(Error::Utf8Error(e)),
    };
    if !text::same_text(tag.as_str(), "AMLC") {
        let mut shown = "invalid amlc request: ".to_owned();
        shown.append(tag.as_str());
        return Err(Error::InvalidOperation(shown));
    }
    Ok(AmlcRequest { length: bytes::read_word(reply, 8), offset: bytes::read_word(reply, 12) })
}

/// The acknowledgment of an AMLC request: `OKAY` and zeros.
pub open spec fn amlc_ack_bytes() -> Seq<u8> {
    seq![0x4fu8, 0x4bu8, 0x41u8, 0x59u8] + bytes::zeros(12)
}

/// Builds the acknowledgment of an AMLC request.
pub fn amlc_ack() -> (ack: Vec<u8>)
    ensures
        ack@ == amlc_ack_bytes(),
{
    let mut ack: Vec<u8> = Vec::new();
    ack.push(0x4f);
    ack.push(0x4b);
    ack.push(0x41);
    ack.push(0x59);
    bytes::push_zeros(&mut ack, 12);
    assert(ack@ =~= amlc_ack_bytes());
    ack
}

/// Where a data write stands.
#[derive(Clone, Copy, PartialEq, Eq, Structural)]
pub enum AmlcWriteState {
    /// The announcement is out.
    Announce,
    /// A chunk is out.
    Send,
    /// Resting after a chunk that went wrong.
    Rest,
    /// Resting after the last failure of a chunk.
    GiveUp,
    /// Resting after a chunk.
    Settle,
    /// The acknowledgment was asked for.
    Ack,
    /// Resting after an acknowledgment that did not come.
    AckRest,
    Finished,
}

/// What a data write wants done.
pub enum AmlcWriteAction {
    Announce(ControlOut),
    /// Send the bytes from `from` to `to`.
    Send { from: usize, to: usize },
    Sleep { millis: u64 },
    /// Read an acknowledgment.
    ReadAck,
    Finish(Outcome),
}

/// How the last action of a data write went.
pub enum AmlcWriteReply {
    Done,
    /// So many bytes were sent.
    Sent(usize),
    /// These bytes were read.
    Ack(Vec<u8>),
    Failed,
}

/// A write of bootloader data: an announcement, the data in chunks, and an acknowledgment.
#[derive(Clone, Copy)]
pub struct AmlcWrite {
    /// Bytes of the data.
    pub length: usize,
    /// Where the chunk that is being sent starts.
    pub sent: usize,
    /// How often the current transfer went wrong.
    pub retries: usize,
    pub state: AmlcWriteState,
}

impl AmlcWrite {
    /// Whether the counters are in their ranges.
    pub open spec fn wf(self) -> bool {
        &&& self.sent <= self.length
        &&& self.state == AmlcWriteState::Send || self.state == AmlcWriteState::Rest ==> self.sent < self.length
        &&& self.state == AmlcWriteState::Ack || self.state == AmlcWriteState::AckRest ==> self.sent == self.length
        &&& self.retries <= AMLC_TRIES
        &&& self.state == AmlcWriteState::Send || self.state == AmlcWriteState::Ack ==> self.retries < AMLC_TRIES
    }

    /// Where the chunk that is being sent ends.
    pub open spec fn chunk_end(self) -> int {
        if self.length - self.sent > AMLC_MAX_BLOCK_LENGTH {
            self.sent + AMLC_MAX_BLOCK_LENGTH
        } else {
            self.length as int
        }
    }

    /// Whether a reply answers the action that is out.
    pub open spec fn awaits(self, reply: AmlcWriteReply) -> bool {
        match self.state {
            AmlcWriteState::Announce => reply is Done || reply is Failed,
            AmlcWriteState::Send => reply is Sent || reply is Failed,
            AmlcWriteState::Ack => reply is Ack || reply is Failed,
            AmlcWriteState::Finished => false,
            _ => reply is Done,
        }
    }

    /// Whether a write goes from `pre` to the given values and keeps its length.
    pub open spec fn moved(pre: Self, post: Self, state: AmlcWriteState, sent: int, retries: int) -> bool {
        &&& post.length == pre.length
        &&& post.sent == sent
        &&& post.retries == retries
        &&& post.state == state
    }

    /// Whether a write goes on with the chunk at `sent`, or with the acknowledgment when there is none.
    pub open spec fn goes_on(pre: Self, post: Self, action: AmlcWriteAction, sent: int) -> bool {
        if sent < pre.length {
            &&& Self::moved(pre, post, AmlcWriteState::Send, sent, 0)
            &&& action matches AmlcWriteAction::Send { from, to } && from == sent && to == post.chunk_end()
        } else {
            &&& Self::moved(pre, post, AmlcWriteState::Ack, sent, 0)
            &&& action is ReadAck
        }
    }

    /// Whether a write ends as the acknowledgment `ack` calls for.
    pub open spec fn closes(ack: Seq<u8>, outcome: Outcome) -> bool {
        let tag = ack.take(4);
        if !valid_utf8(tag) {
            outcome matches Outcome::Failed(Error::Utf8Error(_))
        } else if decode_utf8(tag) == "OKAY"@ {
            outcome is Done
        } else {
            outcome matches Outcome::Failed(e) && error::is_invalid(
                e,
                "invalid amlc data write ack: "@ + decode_utf8(tag),
            )
        }
    }

    /// One step: what becomes of a write, and what it wants next, once a reply is in.
    ///
    /// A chunk is tried up to three times. Three short transfers in a row count as sent; a third failure ends the
    /// write, after a rest. An acknowledgment is read up to three times until at least four bytes come.
    pub open spec fn advances(pre: Self, reply: AmlcWriteReply, post: Self, action: AmlcWriteAction) -> bool {
        match pre.state {
            AmlcWriteState::Announce => if reply is Failed {
                &&& Self::moved(pre, post, AmlcWriteState::Finished, pre.sent as int, pre.retries as int)
                &&& action matches AmlcWriteAction::Finish(Outcome::Rethrow)
            } else {
                Self::goes_on(pre, post, action, pre.sent as int)
            },
            AmlcWriteState::Send => if reply == AmlcWriteReply::Sent((pre.chunk_end() - pre.sent) as usize) {
                &&& Self::moved(pre, post, AmlcWriteState::Settle, pre.chunk_end(), pre.retries as int)
                &&& action matches AmlcWriteAction::Sleep { millis } && millis == 10
            } else {
                let lost = reply is Failed && pre.retries + 1 >= AMLC_TRIES;
                let state = if lost {
                    AmlcWriteState::GiveUp
                } else {
                    AmlcWriteState::Rest
                };
                &&& Self::moved(pre, post, state, pre.sent as int, pre.retries + 1)
                &&& action matches AmlcWriteAction::Sleep { millis } && millis == 100
            },
            AmlcWriteState::Rest => if pre.retries < AMLC_TRIES {
                &&& Self::moved(pre, post, AmlcWriteState::Send, pre.sent as int, pre.retries as int)
                &&& action matches AmlcWriteAction::Send { from, to } && from == pre.sent && to == pre.chunk_end()
            } else {
                &&& Self::moved(pre, post, AmlcWriteState::Settle, pre.chunk_end(), pre.retries as int)
                &&& action matches AmlcWriteAction::Sleep { millis } && millis == 10
            },
            AmlcWriteState::GiveUp => {
                &&& Self::moved(pre, post, AmlcWriteState::Finished, pre.sent as int, pre.retries as int)
                &&& action matches AmlcWriteAction::Finish(Outcome::Rethrow)
            },
            AmlcWriteState::Settle => Self::goes_on(pre, post, action, pre.sent as int),
            AmlcWriteState::Ack => if reply matches AmlcWriteReply::Ack(ack) && ack@.len() >= 4 {
                &&& Self::moved(pre, post, AmlcWriteState::Finished, pre.sent as int, pre.retries as int)
                &&& action matches AmlcWriteAction::Finish(outcome) && Self::closes(reply->Ack_0@, outcome)
            } else {
                &&& Self::moved(pre, post, AmlcWriteState::AckRest, pre.sent as int, pre.retries + 1)
                &&& action matches AmlcWriteAction::Sleep { millis } && millis == 100
            },
            AmlcWriteState::AckRest => if pre.retries < AMLC_TRIES {
                &&& Self::moved(pre, post, AmlcWriteState::Ack, pre.sent as int, pre.retries as int)
                &&& action is ReadAck
            } else {
                &&& Self::moved(pre, post, AmlcWriteState::Finished, pre.sent as int, pre.retries as int)
                &&& action matches AmlcWriteAction::Finish(Outcome::Failed(e)) && error::is_invalid(
                    e,
                    "no acknowledgment received"@,
                )
            },
            AmlcWriteState::Finished => false,
        }
    }

    /// Starts the write of `length` bytes for the bootloader offset `offset`.
    pub fn write_amlc_data(offset: u32, length: usize) -> (started: (Self, AmlcWriteAction))
        requires
            length > 0,
        ensures
            started.0.wf(),
            started.0.length == length,
            started.0.sent == 0,
            started.0.retries == 0,
            started.0.state == AmlcWriteState::Announce,
            started.1 matches AmlcWriteAction::Announce(transfer) && memory::sends(
                transfer,
                REQ_WRITE_AMLC,
                offset as int / 0x200 % 0x1_0000,
                (length - 1) % 0x1_0000,
                Seq::empty(),
            ),
            started.1 matches AmlcWriteAction::Announce(transfer) && {
                &&& transfer.request == 0x60
                &&& offset < 0x200_0000 ==> offset - 0x200 < 0x200 * transfer.value <= offset
                &&& length <= 0x1_0000 ==> transfer.index == length - 1
                &&& transfer.data@.len() == 0
            },
    {
        let data: Vec<u8> = Vec::new();
        assert(data@ =~= Seq::<u8>::empty());
        let transfer = ControlOut {
            request: REQ_WRITE_AMLC,
            value: (offset / 0x200 % 0x1_0000) as u16,
            index: ((length - 1) % 0x1_0000) as u16,
            data,
        };
        (
            AmlcWrite { length, sent: 0, retries: 0, state: AmlcWriteState::Announce },
            AmlcWriteAction::Announce(transfer),
        )
    }

    fn send_chunk(&mut self) -> (action: AmlcWriteAction)
        requires
            old(self).wf(),
            old(self).sent < old(self).length,
            old(self).retries < AMLC_TRIES,
        ensures
            final(self).wf(),
            Self::moved(
                *old(self),
                *final(self),
                AmlcWriteState::Send,
                old(self).sent as int,
                old(self).retries as int,
            ),
            action matches AmlcWriteAction::Send { from, to } && from == old(self).sent && to == old(self).chunk_end(),
    {
        self.state = AmlcWriteState::Send;
        AmlcWriteAction::Send { from: self.sent, to: self.end_of_chunk() }
    }

    fn end_of_chunk(&self) -> (end: usize)
        requires
            self.wf(),
        ensures
            end == self.chunk_end(),
    {
        if self.length - self.sent > AMLC_MAX_BLOCK_LENGTH {
            self.sent + AMLC_MAX_BLOCK_LENGTH
        } else {
            self.length
        }
    }

    fn go_on(&mut self) -> (action: AmlcWriteAction)
        requires
            old(self).wf(),
        ensures
            final(self).wf(),
            Self::goes_on(*old(self), *final(self), action, old(self).sent as int),
    {
        self.retries = 0;
        if self.sent < self.length {
            self.send_chunk()
        } else {
            self.state = AmlcWriteState::Ack;
            AmlcWriteAction::ReadAck
        }
    }

    fn settle(&mut self) -> (action: AmlcWriteAction)
        requires
            old(self).wf(),
            old(self).sent < old(self).length,
        ensures
            final(self).wf(),
            Self::moved(
                *old(self),
                *final(self),
                AmlcWriteState::Settle,
                old(self).chunk_end(),
                old(self).retries as int,
            ),
            action matches AmlcWriteAction::Sleep { millis } && millis == 10,
    {
        self.sent = self.end_of_chunk();
        self.state = AmlcWriteState::Settle;
        AmlcWriteAction::Sleep { millis: 10 }
    }

    fn close(ack: Vec<u8>) -> (outcome: Outcome)
        requires
            ack@.len() >= 4,
        ensures
            Self::closes(ack@, outcome),
    {
        let head = bytes::copy_between(ack.as_slice(), 0, 4);
        assert(head@ =~= ack@.take(4));
        match text::from_utf8(head) {
            Err(e) => Outcome::Failed(Error::Utf8Error(e)),
            Ok(tag) => {
                if text::same_text(tag.as_str(), "OKAY") {
                    Outcome::Done
                } else {
                    let mut shown = "invalid amlc data write ack: ".to_owned();
                    shown.append(tag.as_str());
                    Outcome::Failed(Error::InvalidOperation(shown))
                }
            },
        }
    }

    /// Takes in how the last action went and gives the next one.
    pub fn resume(&mut self, reply: AmlcWriteReply) -> (action: AmlcWriteAction)
        requires
            old(self).wf(),
            old(self).awaits(reply),
        ensures
            final(self).wf(),
            Self::advances(*old(self), reply, *final(self), action),
    {
        match self.state {
            AmlcWriteState::Announce => match reply {
                AmlcWriteReply::Done => self.go_on(),
                _ => {
                    self.state = AmlcWriteState::Finished;
                    AmlcWriteAction::Finish(Outcome::Rethrow)
                },
            },
            AmlcWriteState::Send => {
                let expected: usize = self.end_of_chunk() - self.sent;
                match reply {
                    AmlcWriteReply::Sent(sent) => {
                        if sent == expected {
                            self.settle()
                        } else {
                            self.retries = self.retries + 1;
                            self.state = AmlcWriteState::Rest;
                            AmlcWriteAction::Sleep { millis: 100 }
                        }
                    },
                    _ => {
                        self.retries = self.retries + 1;
                        self.state = if self.retries >= AMLC_TRIES {
                            AmlcWriteState::GiveUp
                        } else {
                            AmlcWriteState::Rest
                        };
                        AmlcWriteAction::Sleep { millis: 100 }
                    },
                }
            },
            AmlcWriteState::Rest => {
                if self.retries < AMLC_TRIES {
                    self.send_chunk()
                } else {
                    self.settle()
                }
            },
            AmlcWriteState::Settle => self.go_on(),
            AmlcWriteState::Ack => {
                match reply {
                    AmlcWriteReply::Ack(ack) => {
                        if ack.len() >= 4 {
                            self.state = AmlcWriteState::Finished;
                            return AmlcWriteAction::Finish(Self::close(ack));
                        }
                    },
                    _ => {},
                }
                self.retries = self.retries + 1;
                self.state = AmlcWriteState::AckRest;
                AmlcWriteAction::Sleep { millis: 100 }
            },
            AmlcWriteState::AckRest => {
                if self.retries < AMLC_TRIES {
                    self.state = AmlcWriteState::Ack;
                    AmlcWriteAction::ReadAck
                } else {
                    self.state = AmlcWriteState::Finished;
                    AmlcWriteAction::Finish(Outcome::Failed(error::invalid("no acknowledgment received")))
                }
            },
            _ => {
                self.state = AmlcWriteState::Finished;
                AmlcWriteAction::Finish(Outcome::Rethrow)
            },
        }
    }

    /// How many replies a write can still take at most.
    pub open spec fn replies_left(self) -> int {
        let rest = match self.state {
            AmlcWriteState::Announce => 8,
            AmlcWriteState::Send => 2 * (AMLC_TRIES - self.retries),
            AmlcWriteState::Rest => 2 * (AMLC_TRIES - self.retries) + 1,
            AmlcWriteState::GiveUp => 1,
            AmlcWriteState::Settle => 7,
            AmlcWriteState::Ack => 2 * (AMLC_TRIES - self.retries),
            AmlcWriteState::AckRest => 2 * (AMLC_TRIES - self.retries) + 1,
            AmlcWriteState::Finished => 0int,
        };
        let ahead = if self.state == AmlcWriteState::Finished || self.state == AmlcWriteState::GiveUp {
            0
        } else {
            8 * (self.length - self.sent)
        };
        ahead + rest
    }
}

/// A data write ends: each reply leaves fewer replies to come.
pub proof fn amlc_write_ends(
    pre: AmlcWrite,
    reply: AmlcWriteReply,
    post: AmlcWrite,
    action: AmlcWriteAction,
)
    requires
        pre.wf(),
        pre.awaits(reply),
        AmlcWrite::advances(pre, reply, post, action),
    ensures
        0 <= post.replies_left() < pre.replies_left(),
        action is Finish <==> post.state == AmlcWriteState::Finished,
{
}

/// The chunks of a data write follow one another without a gap, none is empty or longer than a transfer, and the
/// acknowledgment is read when they have covered all of the data.
pub proof fn chunks_follow_one_another(
    pre: AmlcWrite,
    reply: AmlcWriteReply,
    post: AmlcWrite,
    action: AmlcWriteAction,
)
    requires
        pre.wf(),
        pre.awaits(reply),
        AmlcWrite::advances(pre, reply, post, action),
    ensures
        action matches AmlcWriteAction::Send { from, to } ==> {
            &&& from == pre.sent
            &&& from < to <= pre.length
            &&& to - from <= AMLC_MAX_BLOCK_LENGTH
            &&& post.chunk_end() == to
        },
        post.sent == pre.sent || post.sent == pre.chunk_end(),
        action is ReadAck ==> pre.sent == pre.length,
{
}

/// A data write that succeeds has offered all of its data and was acknowledged with `OKAY`.
pub proof fn amlc_write_needs_okay(
    pre: AmlcWrite,
    reply: AmlcWriteReply,
    post: AmlcWrite,
    action: AmlcWriteAction,
)
    requires
        pre.wf(),
        pre.awaits(reply),
        AmlcWrite::advances(pre, reply, post, action),
        action matches AmlcWriteAction::Finish(Outcome::Done),
    ensures
        pre.sent == pre.length,
        reply matches AmlcWriteReply::Ack(ack) && ack@.len() >= 4 && valid_utf8(ack@.take(4)) && decode_utf8(
            ack@.take(4),
        ) == "OKAY"@,
{
}

/// Where a packet stands.
#[derive(Clone, Copy, PartialEq, Eq, Structural)]
pub enum AmlcPacketState {
    /// A piece is being written.
    Piece,
    /// Resting after a piece.
    Rest,
    /// The closing block is being written.
    Close,
    Finished,
}

/// What a packet wants done.
pub enum AmlcPacketAction {
    /// Write the bytes from `from` to `to` of the data at an offset.
    Write { offset: u32, from: usize, to: usize },
    /// Write the closing block at an offset.
    Close { offset: u32, block: Vec<u8> },
    Sleep { millis: u64 },
    Finish(Outcome),
}

/// A packet of bootloader data: pieces, and a closing block that carries the checksum.
pub struct AmlcPacket {
    pub seq: u8,
    pub amlc_offset: u32,
    pub data: Vec<u8>,
    /// Where the piece that is being written starts.
    pub offset: usize,
    pub state: AmlcPacketState,
}

impl AmlcPacket {
    /// Whether the piece lies inside the data.
    pub open spec fn wf(self) -> bool {
        &&& self.offset <= self.data@.len()
        &&& self.state == AmlcPacketState::Piece ==> self.offset < self.data@.len()
    }

    /// Whether a reply answers the action that is out.
    pub open spec fn awaits(self, reply: Reply) -> bool {
        match self.state {
            AmlcPacketState::Finished => false,
            AmlcPacketState::Rest => reply is Done,
            _ => true,
        }
    }

    /// Where the piece that is being written ends.
    pub open spec fn piece_end(self) -> int {
        if self.data@.len() - self.offset > AMLC_MAX_TRANSFER_LENGTH {
            self.offset + AMLC_MAX_TRANSFER_LENGTH
        } else {
            self.data@.len() as int
        }
    }

    /// Whether a packet goes from `pre` to the given values and keeps what it carries.
    pub open spec fn moved(pre: Self, post: Self, state: AmlcPacketState, offset: int) -> bool {
        &&& post.seq == pre.seq
        &&& post.amlc_offset == pre.amlc_offset
        &&& post.data@ == pre.data@
        &&& post.offset == offset
        &&& post.state == state
    }

    /// Whether a packet goes on with the piece at its offset, or with the closing block when there is none.
    pub open spec fn goes_on(pre: Self, post: Self, action: AmlcPacketAction) -> bool {
        if pre.offset < pre.data@.len() {
            &&& Self::moved(pre, post, AmlcPacketState::Piece, pre.offset as int)
            &&& action matches AmlcPacketAction::Write { offset, from, to } && {
                &&& offset == pre.offset as int % 0x1_0000_0000
                &&& from == pre.offset
                &&& to == pre.piece_end()
            }
        } else {
            &&& Self::moved(pre, post, AmlcPacketState::Close, pre.offset as int)
            &&& action matches AmlcPacketAction::Close { offset, block } && {
                &&& offset == pre.amlc_offset
                &&& block@ == amls_block(pre.seq, pre.data@)
            }
        }
    }

    /// One step of a packet.
    pub open spec fn advances(pre: Self, reply: Reply, post: Self, action: AmlcPacketAction) -> bool {
        if reply is Failed {
            &&& Self::moved(pre, post, AmlcPacketState::Finished, pre.offset as int)
            &&& action matches AmlcPacketAction::Finish(Outcome::Rethrow)
        } else {
            match pre.state {
                AmlcPacketState::Piece => {
                    &&& Self::moved(pre, post, AmlcPacketState::Rest, pre.piece_end())
                    &&& action matches AmlcPacketAction::Sleep { millis } && millis == 50
                },
                AmlcPacketState::Rest => Self::goes_on(pre, post, action),
                AmlcPacketState::Close => {
                    &&& Self::moved(pre, post, AmlcPacketState::Finished, pre.offset as int)
                    &&& action matches AmlcPacketAction::Finish(Outcome::Done)
                },
                AmlcPacketState::Finished => false,
            }
        }
    }

    /// Starts a packet.
    pub fn write_amlc_data_packet(seq: u8, amlc_offset: u32, data: Vec<u8>) -> (started: (Self, AmlcPacketAction))
        ensures
            started.0.wf(),
            ({
                let fresh = AmlcPacket { seq, amlc_offset, data, offset: 0, state: AmlcPacketState::Rest };
                Self::goes_on(fresh, started.0, started.1)
            }),
            started.0.seq == seq && started.0.amlc_offset == amlc_offset && started.0.data@ == data@,
            started.0.offset == 0,
            data@.len() > 0 ==> (started.1 matches AmlcPacketAction::Write { offset, from, to } && {
                &&& offset == 0 && from == 0
                &&& to == data@.len() || to == 65536 && to < data@.len()
                &&& to <= 65536
            }),
            data@.len() == 0 ==> (started.1 matches AmlcPacketAction::Close { offset, block } && {
                &&& offset == amlc_offset
                &&& block@ == amls_block(seq, data@)
            }),
    {
        let mut packet = AmlcPacket { seq, amlc_offset, data, offset: 0, state: AmlcPacketState::Rest };
        let action = packet.go_on();
        (packet, action)
    }

    fn end_of_piece(&self) -> (end: usize)
        requires
            self.wf(),
        ensures
            end == self.piece_end(),
    {
        let length: usize = self.data.len();
        if length - self.offset > AMLC_MAX_TRANSFER_LENGTH {
            self.offset + AMLC_MAX_TRANSFER_LENGTH
        } else {
            length
        }
    }

    fn go_on(&mut self) -> (action: AmlcPacketAction)
        requires
            old(self).wf(),
        ensures
            final(self).wf(),
            Self::goes_on(*old(self), *final(self), action),
    {
        if self.offset < self.data.len() {
            self.state = AmlcPacketState::Piece;
            AmlcPacketAction::Write {
                offset: (self.offset as u64 % bytes::WORD_SPAN) as u32,
                from: self.offset,
                to: self.end_of_piece(),
            }
        } else {
            self.state = AmlcPacketState::Close;
            AmlcPacketAction::Close {
                offset: self.amlc_offset,
                block: build_amls_block(self.seq, self.data.as_slice()),
            }
        }
    }

    /// Takes in how the last action went and gives the next one.
    pub fn resume(&mut self, reply: Reply) -> (action: AmlcPacketAction)
        requires
            old(self).wf(),
            old(self).awaits(reply),
        ensures
            final(self).wf(),
            Self::advances(*old(self), reply, *final(self), action),
    {
        match reply {
            Reply::Failed => {
                self.state = AmlcPacketState::Finished;
                return AmlcPacketAction::Finish(Outcome::Rethrow);
            },
            Reply::Done => {},
        }
        match self.state {
            AmlcPacketState::Piece => {
                self.offset = self.end_of_piece();
                self.state = AmlcPacketState::Rest;
                AmlcPacketAction::Sleep { millis: 50 }
            },
            AmlcPacketState::Rest => self.go_on(),
            _ => {
                self.state = AmlcPacketState::Finished;
                AmlcPacketAction::Finish(Outcome::Done)
            },
        }
    }
}

/// The pieces of a packet follow one another without a gap, none is empty or longer than a transfer, and the closing
/// block comes when they have covered all of the data.
pub proof fn packet_pieces_cover_the_data(pre: AmlcPacket, reply: Reply, post: AmlcPacket, action: AmlcPacketAction)
    requires
        pre.wf(),
        pre.awaits(reply),
        AmlcPacket::advances(pre, reply, post, action),
    ensures
        action matches AmlcPacketAction::Write { offset, from, to } ==> {
            &&& from == pre.offset
            &&& from < to <= pre.data@.len()
            &&& to - from <= AMLC_MAX_TRANSFER_LENGTH
            &&& post.piece_end() == to
        },
        pre.state == AmlcPacketState::Piece && reply is Done ==> post.offset == pre.piece_end(),
        action is Close ==> pre.offset == pre.data@.len(),
{
}

/// The checksum goes word by word: a word in front adds its value, cut to 32 bits; up to three bytes at the end count
/// as the low bytes of a word; and no data has the checksum zero.
pub proof fn checksums_add_up_word_by_word(word: u32, data: Seq<u8>)
    ensures
        checksum(bytes::word_bytes(word) + data) == (word + checksum(data)) % 0x1_0000_0000,
        data.len() == 0 ==> checksum(data) == 0,
        data.len() == 1 ==> checksum(data) == data[0],
        data.len() == 2 ==> checksum(data) == data[0] + 0x100 * data[1],
        data.len() == 3 ==> checksum(data) == data[0] + 0x100 * data[1] + 0x1_0000 * data[2],
{
    let head = bytes::word_bytes(word);
    let rest = data + bytes::zeros(word_padding(data.len()));
    let whole = (head + data) + bytes::zeros(word_padding((head + data).len()));
    assert(whole =~= head + rest);
    assert(rest.len() % 4 == 0);
    assert(whole.len() / 4 == rest.len() / 4 + 1);
    bytes::words_add_up(word, rest, (rest.len() / 4) as nat);
    reveal_with_fuel(bytes::words_total, 2);
    assert(data.len() == 0 ==> rest.len() == 0);
    assert(0 < data.len() < 4 ==> rest.len() == 4);
}

/// The block that closes a packet byte by byte: `AMLS`, the sequence number and three zeros, the checksum as a
/// little-endian word and four zeros, then the data from its byte 16 on, and zeros up to 512 bytes.
pub proof fn closing_blocks_carry_the_checksum(seq: u8, data: Seq<u8>)
    ensures
        ({
            let block = amls_block(seq, data);
            &&& block.len() == 512
            &&& block[0] == 0x41 && block[1] == 0x4d && block[2] == 0x4c && block[3] == 0x53
            &&& block[4] == seq
            &&& block[5] == 0 && block[6] == 0 && block[7] == 0
            &&& block[8] + 0x100 * block[9] + 0x1_0000 * block[10] + 0x100_0000 * block[11] == checksum(data)
            &&& forall|i: int| 12 <= i < 16 ==> block[i] == 0
            &&& forall|i: int| 16 <= i < 512 && i < data.len() ==> block[i] == data[i]
            &&& forall|i: int| 16 <= i < 512 && data.len() <= i ==> block[i] == 0
        }),
{
    let sum = checksum(data);
    bytes::words_are_little_endian(sum as u32);
}

/// A request is acknowledged with `OKAY` and twelve zeros.
pub proof fn acknowledgments_say_okay()
    ensures
        amlc_ack_bytes().len() == 16,
        amlc_ack_bytes()[0] == 0x4f && amlc_ack_bytes()[1] == 0x4b,
        amlc_ack_bytes()[2] == 0x41 && amlc_ack_bytes()[3] == 0x59,
        forall|i: int| 4 <= i < 16 ==> amlc_ack_bytes()[i] == 0,
{
}

/// Chunks are of 0x4000 bytes, the last one may be shorter, and they are sent in the order of the data: a chunk that
/// was sent whole is followed, after a rest of 10 ms, by the one behind it, and all of them by the acknowledgment.
pub proof fn chunks_are_sent_in_order(
    pre: AmlcWrite,
    reply: AmlcWriteReply,
    post: AmlcWrite,
    action: AmlcWriteAction,
)
    requires
        pre.wf(),
        pre.awaits(reply),
        AmlcWrite::advances(pre, reply, post, action),
    ensures
        post.length == pre.length,
        action matches AmlcWriteAction::Send { from, to } ==> {
            &&& from == pre.sent == post.sent
            &&& from < to <= pre.length
            &&& to == from + 0x4000 || to == pre.length && pre.length < from + 0x4000
            &&& post.state == AmlcWriteState::Send
        },
        action is ReadAck ==> post.sent == pre.length && post.state == AmlcWriteState::Ack,
        pre.state == AmlcWriteState::Send ==> {
            let whole = if pre.length - pre.sent > 0x4000 {
                0x4000
            } else {
                pre.length - pre.sent
            };
            (reply matches AmlcWriteReply::Sent(n) && n == whole) ==> {
                &&& post.sent == pre.sent + whole
                &&& post.state == AmlcWriteState::Settle
                &&& action == (AmlcWriteAction::Sleep { millis: 10 })
            }
        },
        pre.state == AmlcWriteState::Announce && reply is Done || pre.state == AmlcWriteState::Settle ==> {
            &&& post.retries == 0
            &&& pre.sent < pre.length ==> action is Send
            &&& pre.sent == pre.length ==> action is ReadAck
        },
{
}

/// A chunk that was not sent whole is sent again from its start after a rest of 100 ms, three times in all. A third
/// failure ends the write; a third short transfer is passed over. An acknowledgment that does not come is read three
/// times in all.
pub proof fn chunks_are_tried_three_times(
    pre: AmlcWrite,
    reply: AmlcWriteReply,
    post: AmlcWrite,
    action: AmlcWriteAction,
)
    requires
        pre.wf(),
        pre.awaits(reply),
        AmlcWrite::advances(pre, reply, post, action),
    ensures
        pre.state == AmlcWriteState::Announce && reply is Failed ==> action == AmlcWriteAction::Finish(
            Outcome::Rethrow,
        ),
        pre.state == AmlcWriteState::Send && reply is Failed ==> {
            &&& post.sent == pre.sent
            &&& post.retries == pre.retries + 1
            &&& action == (AmlcWriteAction::Sleep { millis: 100 })
            &&& pre.retries == 2 ==> post.state == AmlcWriteState::GiveUp
            &&& pre.retries < 2 ==> post.state == AmlcWriteState::Rest
        },
        pre.state == AmlcWriteState::Send && (reply matches AmlcWriteReply::Sent(n) && n != (if pre.length - pre.sent
            > 0x4000 {
            0x4000
        } else {
            pre.length - pre.sent
        })) ==> {
            &&& post.sent == pre.sent
            &&& post.retries == pre.retries + 1
            &&& post.state == AmlcWriteState::Rest
            &&& action == (AmlcWriteAction::Sleep { millis: 100 })
        },
        pre.state == AmlcWriteState::Rest && pre.retries < 3 ==> action is Send && post.retries == pre.retries,
        pre.state == AmlcWriteState::Rest && pre.retries == 3 ==> {
            &&& post.state == AmlcWriteState::Settle
            &&& post.sent == (if pre.length - pre.sent > 0x4000 {
                pre.sent + 0x4000
            } else {
                pre.length as int
            })
            &&& action == (AmlcWriteAction::Sleep { millis: 10 })
        },
        pre.state == AmlcWriteState::GiveUp ==> action == AmlcWriteAction::Finish(Outcome::Rethrow),
        pre.state == AmlcWriteState::Ack && (reply is Failed || reply->Ack_0@.len() < 4) ==> {
            &&& post.state == AmlcWriteState::AckRest
            &&& post.retries == pre.retries + 1
            &&& action == (AmlcWriteAction::Sleep { millis: 100 })
        },
        pre.state == AmlcWriteState::AckRest && pre.retries < 3 ==> action is ReadAck && post.retries == pre.retries,
        pre.state == AmlcWriteState::AckRest && pre.retries == 3 ==> (action matches AmlcWriteAction::Finish(
            Outcome::Failed(Error::InvalidOperation(shown)),
        ) && shown@ == "no acknowledgment received"@),
{
}

/// A write whose acknowledgment is long enough ends at once: well when it starts with `OKAY`, and with an error that
/// shows the tag otherwise.
pub proof fn acknowledgments_decide(pre: AmlcWrite, ack: Vec<u8>, post: AmlcWrite, action: AmlcWriteAction)
    requires
        pre.wf(),
        pre.state == AmlcWriteState::Ack,
        ack@.len() >= 4,
        valid_utf8(ack@.take(4)),
        AmlcWrite::advances(pre, AmlcWriteReply::Ack(ack), post, action),
    ensures
        decode_utf8(ack@.take(4)) == "OKAY"@ <==> action == AmlcWriteAction::Finish(Outcome::Done),
        decode_utf8(ack@.take(4)) != "OKAY"@ ==> (action matches AmlcWriteAction::Finish(
            Outcome::Failed(Error::InvalidOperation(shown)),
        ) && shown@ == "invalid amlc data write ack: "@ + decode_utf8(ack@.take(4))),
{
}

/// A packet writes its data in pieces of 65536 bytes at the offsets where they lie in it, the last one may be shorter,
/// with a rest of 50 ms behind each; then it writes the closing block at the offset that the device asked for, and is
/// done. Any failure ends it.
pub proof fn packets_write_pieces_and_close(
    pre: AmlcPacket,
    reply: Reply,
    post: AmlcPacket,
    action: AmlcPacketAction,
)
    requires
        pre.wf(),
        pre.awaits(reply),
        AmlcPacket::advances(pre, reply, post, action),
    ensures
        post.seq == pre.seq && post.amlc_offset == pre.amlc_offset && post.data@ == pre.data@,
        reply is Failed ==> action == AmlcPacketAction::Finish(Outcome::Rethrow),
        pre.state == AmlcPacketState::Piece && reply is Done ==> {
            &&& action == (AmlcPacketAction::Sleep { millis: 50 })
            &&& post.state == AmlcPacketState::Rest
            &&& post.offset == (if pre.data@.len() - pre.offset > 65536 {
                pre.offset + 65536
            } else {
                pre.data@.len() as int
            })
        },
        pre.state == AmlcPacketState::Rest && reply is Done && pre.offset < pre.data@.len() ==> (action matches
            AmlcPacketAction::Write { offset, from, to } && {
            &&& from == pre.offset == post.offset
            &&& pre.offset < 0x1_0000_0000 ==> offset == pre.offset
            &&& to == (if pre.data@.len() - pre.offset > 65536 {
                pre.offset + 65536
            } else {
                pre.data@.len() as int
            })
            &&& post.state == AmlcPacketState::Piece
        }),
        pre.state == AmlcPacketState::Rest && reply is Done && pre.offset == pre.data@.len() ==> (action matches
            AmlcPacketAction::Close { offset, block } && {
            &&& offset == pre.amlc_offset
            &&& block@ == amls_block(pre.seq, pre.data@)
            &&& post.state == AmlcPacketState::Close
        }),
        pre.state == AmlcPacketState::Close && reply is Done ==> action == AmlcPacketAction::Finish(Outcome::Done),
{
}

/// An acknowledgment is asked for in sixteen bytes. A bulk transfer may take a second, and the request for what to
/// send next two.
pub proof fn transfers_have_their_limits()
    ensures
        AMLC_ACK_BYTES == 16,
        AMLC_BULK_MILLIS == 1000,
        AMLC_REQUEST_MILLIS == 2000,
{
}

} // verus!
