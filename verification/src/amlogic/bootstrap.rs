//! Booting a bootloader from memory: BL2 is loaded and run, and then fed the pieces that it asks for.
use vstd::prelude::*;

use super::amlc::AmlcRequest;
use crate::error;
use crate::error::Outcome;

verus! {

/// Where BL2 is loaded and run.
pub const ADDR_BL2: u32 = 0xfffa0000;

/// Block length of the BL2 load.
pub const BL2_BLOCK_LENGTH: usize = 4096;

/// How many requests are served at most.
pub const MAX_REQUESTS: usize = 50;

/// How often a request is asked for.
pub const REQUEST_TRIES: usize = 3;

/// Milliseconds that the device takes to drop off the bus and come back once a bootloader takes over.
pub const RESET_SETTLE_MILLIS: u64 = 5000;

/// Where the boot stands.
#[derive(Clone, Copy, PartialEq, Eq, Structural)]
pub enum Bl2State {
    /// The start was announced.
    Announced,
    /// BL2 is being loaded.
    Loading,
    /// BL2 was told to run.
    Starting,
    /// Waiting for BL2 to come up.
    Waiting,
    /// A request was asked for.
    Asking,
    /// Resting before asking again.
    AskRest,
    /// A piece is being sent.
    Sending,
    /// Resting after a piece.
    SendRest,
    Finished,
}

/// What the boot wants done.
pub enum Bl2Action {
    /// Tell whoever listens that the boot starts.
    Announce,
    /// Write BL2 to memory in padded blocks.
    Load { address: u32, block_length: usize },
    /// Run the code at an address, keeping the power on.
    Run { address: u32 },
    Sleep { millis: u64 },
    /// Get the next request.
    Ask,
    /// Send the bytes from `from` to `to` of the bootloader as a packet.
    Send { seq: u8, offset: u32, from: usize, to: usize },
    Finish(Outcome),
}

/// How the last action went.
#[derive(Clone, Copy)]
pub enum Bl2Reply {
    Done,
    Request(AmlcRequest),
    Failed,
}

/// A boot through BL2.
#[derive(Clone, Copy)]
pub struct Bl2Stream {
    /// Bytes of the bootloader.
    pub length: usize,
    /// The request that was served last; none is all zero.
    pub last: AmlcRequest,
    pub seq: u8,
    /// How many requests were asked for, not counting repeats.
    pub requests: usize,
    /// How often asking for the current request failed.
    pub retries: usize,
    pub state: Bl2State,
}

impl Bl2Stream {
    /// Whether the counters are in their ranges.
    pub open spec fn wf(self) -> bool {
        &&& self.requests <= MAX_REQUESTS
        &&& self.retries < REQUEST_TRIES
    }

    /// Whether a reply answers the action that is out.
    pub open spec fn awaits(self, reply: Bl2Reply) -> bool {
        match self.state {
            Bl2State::Announced | Bl2State::Waiting | Bl2State::AskRest | Bl2State::SendRest => reply is Done,
            Bl2State::Loading | Bl2State::Starting | Bl2State::Sending => reply is Done || reply is Failed,
            Bl2State::Asking => reply is Request || reply is Failed,
            Bl2State::Finished => false,
        }
    }

    /// The part of the bootloader that answers a request: what it holds of the range asked for.
    pub open spec fn answer(self, request: AmlcRequest) -> (int, int) {
        if request.offset >= self.length {
            (0, 0)
        } else if request.offset + request.length > self.length {
            (request.offset as int, self.length as int)
        } else {
            (request.offset as int, request.offset + request.length)
        }
    }

    /// Whether the boot asks for one more request, or gives up when it has served all that it may.
    pub open spec fn asks(pre: Self, post: Self, action: Bl2Action) -> bool {
        if pre.requests >= MAX_REQUESTS {
            &&& post == (Bl2Stream { state: Bl2State::Finished, ..pre })
            &&& action matches Bl2Action::Finish(Outcome::Failed(e)) && error::is_invalid(
                e,
                "maximum iterations reached in bl2_boot"@,
            )
        } else {
            &&& post == (Bl2Stream {
                state: Bl2State::Asking,
                requests: (pre.requests + 1) as usize,
                retries: 0,
                ..pre
            })
            &&& action is Ask
        }
    }

    /// One step of the boot.
    ///
    /// A request that repeats the one before it ends the boot; so does asking for one in vain three times, and any
    /// other failure.
    pub open spec fn advances(pre: Self, reply: Bl2Reply, post: Self, action: Bl2Action) -> bool {
        if reply is Failed && (pre.state != Bl2State::Asking || pre.retries + 1 >= REQUEST_TRIES) {
            &&& post == (Bl2Stream { state: Bl2State::Finished, ..pre })
            &&& action matches Bl2Action::Finish(Outcome::Rethrow)
        } else {
            match pre.state {
                Bl2State::Announced => {
                    &&& post == (Bl2Stream { state: Bl2State::Loading, ..pre })
                    &&& action == Bl2Action::Load { address: ADDR_BL2, block_length: BL2_BLOCK_LENGTH }
                },
                Bl2State::Loading => {
                    &&& post == (Bl2Stream { state: Bl2State::Starting, ..pre })
                    &&& action == Bl2Action::Run { address: ADDR_BL2 }
                },
                Bl2State::Starting => {
                    &&& post == (Bl2Stream { state: Bl2State::Waiting, ..pre })
                    &&& action == Bl2Action::Sleep { millis: 2000 }
                },
                Bl2State::Waiting | Bl2State::SendRest => Self::asks(pre, post, action),
                Bl2State::Asking => match reply {
                    Bl2Reply::Request(request) => if request == pre.last {
                        &&& post == (Bl2Stream { state: Bl2State::Finished, ..pre })
                        &&& action matches Bl2Action::Finish(Outcome::Done)
                    } else {
                        &&& post == (Bl2Stream { state: Bl2State::Sending, last: request, ..pre })
                        &&& action matches Bl2Action::Send { seq, offset, from, to } && {
                            &&& seq == pre.seq
                            &&& offset == request.offset
                            &&& (from as int, to as int) == pre.answer(request)
                        }
                    },
                    _ => {
                        &&& post == (Bl2Stream {
                            state: Bl2State::AskRest,
                            retries: (pre.retries + 1) as usize,
                            ..pre
                        })
                        &&& action == Bl2Action::Sleep { millis: 500 }
                    },
                },
                Bl2State::AskRest => {
                    &&& post == (Bl2Stream { state: Bl2State::Asking, ..pre })
                    &&& action is Ask
                },
                Bl2State::Sending => {
                    &&& post == (Bl2Stream {
                        state: Bl2State::SendRest,
                        seq: ((pre.seq + 1) % 0x100) as u8,
                        ..pre
                    })
                    &&& action == Bl2Action::Sleep { millis: 100 }
                },
                Bl2State::Finished => false,
            }
        }
    }

    /// Starts the boot of a bootloader of `length` bytes.
    pub fn bl2_stream(length: usize) -> (started: (Self, Bl2Action))
        ensures
            started.0.wf(),
            started.0 == (Bl2Stream {
                length,
                last: AmlcRequest { length: 0, offset: 0 },
                seq: 0,
                requests: 0,
                retries: 0,
                state: Bl2State::Announced,
            }),
            started.1 is Announce,
    {
        (
            Bl2Stream {
                length,
                last: AmlcRequest { length: 0, offset: 0 },
                seq: 0,
                requests: 0,
                retries: 0,
                state: Bl2State::Announced,
            },
            Bl2Action::Announce,
        )
    }

    fn ask(&mut self) -> (action: Bl2Action)
        requires
            old(self).wf(),
        ensures
            final(self).wf(),
            Self::asks(*old(self), *final(self), action),
    {
        if self.requests >= MAX_REQUESTS {
            self.state = Bl2State::Finished;
            return Bl2Action::Finish(Outcome::Failed(error::invalid("maximum iterations reached in bl2_boot")));
        }
        self.requests = self.requests + 1;
        self.retries = 0;
        self.state = Bl2State::Asking;
        Bl2Action::Ask
    }

    fn serve(&mut self, request: AmlcRequest) -> (action: Bl2Action)
        requires
            old(self).wf(),
        ensures
            *final(self) == (Bl2Stream { state: Bl2State::Sending, last: request, ..*old(self) }),
            action matches Bl2Action::Send { seq, offset, from, to } && {
                &&& seq == old(self).seq
                &&& offset == request.offset
                &&& (from as int, to as int) == old(self).answer(request)
            },
    {
        self.last = request;
        self.state = Bl2State::Sending;
        let seq: u8 = self.seq;
        let offset: u32 = request.offset;
        if offset as u64 >= self.length as u64 {
            return Bl2Action::Send { seq, offset, from: 0, to: 0 };
        }
        let from: usize = offset as usize;
        let left: usize = self.length - from;
        let to: usize = if request.length as u64 > left as u64 {
            self.length
        } else {
            from + request.length as usize
        };
        Bl2Action::Send { seq, offset, from, to }
    }

    /// Takes in how the last action went and gives the next one.
    pub fn resume(&mut self, reply: Bl2Reply) -> (action: Bl2Action)
        requires
            old(self).wf(),
            old(self).awaits(reply),
        ensures
            final(self).wf(),
            Self::advances(*old(self), reply, *final(self), action),
    {
        match reply {
            Bl2Reply::Failed => {
                if self.state != Bl2State::Asking || self.retries + 1 >= REQUEST_TRIES {
                    self.state = Bl2State::Finished;
                    return Bl2Action::Finish(Outcome::Rethrow);
                }
                self.retries = self.retries + 1;
                self.state = Bl2State::AskRest;
                Bl2Action::Sleep { millis: 500 }
            },
            Bl2Reply::Request(request) => {
                if request == self.last {
                    self.state = Bl2State::Finished;
                    return Bl2Action::Finish(Outcome::Done);
                }
                self.serve(request)
            },
            Bl2Reply::Done => match self.state {
                Bl2State::Announced => {
                    self.state = Bl2State::Loading;
                    Bl2Action::Load { address: ADDR_BL2, block_length: BL2_BLOCK_LENGTH }
                },
                Bl2State::Loading => {
                    self.state = Bl2State::Starting;
                    Bl2Action::Run { address: ADDR_BL2 }
                },
                Bl2State::Starting => {
                    self.state = Bl2State::Waiting;
                    Bl2Action::Sleep { millis: 2000 }
                },
                Bl2State::AskRest => {
                    self.state = Bl2State::Asking;
                    Bl2Action::Ask
                },
                Bl2State::Sending => {
                    self.seq = if self.seq == 255 { 0 } else { self.seq + 1 };
                    self.state = Bl2State::SendRest;
                    Bl2Action::Sleep { millis: 100 }
                },
                _ => self.ask(),
            },
        }
    }

    /// How many replies the boot can still take at most.
    pub open spec fn replies_left(self) -> int {
        let rest = match self.state {
            Bl2State::Announced => 5,
            Bl2State::Loading => 4,
            Bl2State::Starting => 3,
            Bl2State::Waiting => 2,
            Bl2State::SendRest => 2,
            Bl2State::Sending => 3,
            Bl2State::Asking => 4 + 2 * (REQUEST_TRIES - self.retries),
            Bl2State::AskRest => 5 + 2 * (REQUEST_TRIES - self.retries),
            Bl2State::Finished => 0int,
        };
        if self.state == Bl2State::Finished {
            0
        } else {
            12 * (MAX_REQUESTS - self.requests) + rest
        }
    }
}

/// A boot ends: each reply leaves fewer replies to come.
pub proof fn bl2_stream_ends(pre: Bl2Stream, reply: Bl2Reply, post: Bl2Stream, action: Bl2Action)
    requires
        pre.wf(),
        pre.awaits(reply),
        Bl2Stream::advances(pre, reply, post, action),
    ensures
        0 <= post.replies_left() < pre.replies_left(),
        action is Finish <==> post.state == Bl2State::Finished,
{
}

/// A packet never reaches outside the bootloader, starts where the device asked, and is as long as the device asked
/// whenever the bootloader holds that much.
pub proof fn answers_stay_inside_the_bootloader(stream: Bl2Stream, request: AmlcRequest)
    ensures
        ({
            let (from, to) = stream.answer(request);
            &&& 0 <= from <= to <= stream.length
            &&& to - from <= request.length
            &&& from < to ==> from == request.offset
            &&& request.offset < stream.length && request.offset + request.length <= stream.length ==> to - from
                == request.length
        }),
{
}

/// A boot succeeds exactly when the device asks for the piece that it was given last. Before the first piece, that is
/// an empty piece at the start of the bootloader.
pub proof fn boot_succeeds_on_a_repeated_request(
    pre: Bl2Stream,
    reply: Bl2Reply,
    post: Bl2Stream,
    action: Bl2Action,
)
    requires
        pre.wf(),
        pre.awaits(reply),
        Bl2Stream::advances(pre, reply, post, action),
    ensures
        action matches Bl2Action::Finish(Outcome::Done) <==> reply == Bl2Reply::Request(pre.last),
{
}

/// A boot at one moment, and the action that it has out.
pub struct Bl2Moment {
    pub run: Bl2Stream,
    pub action: Bl2Action,
}

/// Whether a boot of a bootloader of `length` bytes went through these moments, each reply leading from one to the
/// next.
pub open spec fn is_boot(moments: Seq<Bl2Moment>, replies: Seq<Bl2Reply>, length: usize) -> bool {
    &&& moments.len() == replies.len() + 1
    &&& moments[0].run == (Bl2Stream {
        length,
        last: AmlcRequest { length: 0, offset: 0 },
        seq: 0,
        requests: 0,
        retries: 0,
        state: Bl2State::Announced,
    })
    &&& moments[0].action is Announce
    &&& forall|i: int| 0 <= i < replies.len() ==> #[trigger] boot_goes_on(moments[i], replies[i], moments[i + 1])
}

/// Whether a reply leads a boot from one moment to the next.
pub open spec fn boot_goes_on(now: Bl2Moment, reply: Bl2Reply, next: Bl2Moment) -> bool {
    now.run.awaits(reply) && Bl2Stream::advances(now.run, reply, next.run, next.action)
}

/// How many packets were sent before moment `upto`.
pub open spec fn packets_before(moments: Seq<Bl2Moment>, upto: int) -> int
    decreases upto,
{
    if upto <= 0 {
        0
    } else {
        packets_before(moments, upto - 1) + if moments[upto - 1].action is Send {
            1int
        } else {
            0int
        }
    }
}

/// What the counters of a boot have to do with the packets that were sent.
spec fn counts_packets(now: Bl2Moment, sent: int) -> bool {
    let run = now.run;
    &&& run.wf()
    &&& now.action is Send <==> run.state == Bl2State::Sending
    &&& now.action matches Bl2Action::Send { seq, .. } ==> seq == run.seq
    &&& run.state != Bl2State::Finished ==> {
        &&& 0 <= sent <= run.requests
        &&& run.state == Bl2State::Sending ==> run.seq == sent - 1
        &&& run.state != Bl2State::Sending ==> run.seq == sent
        &&& run.state == Bl2State::Asking || run.state == Bl2State::AskRest ==> sent < run.requests
    }
}

proof fn lemma_packets(moments: Seq<Bl2Moment>, replies: Seq<Bl2Reply>, length: usize, upto: int)
    requires
        is_boot(moments, replies, length),
        0 <= upto < moments.len(),
    ensures
        counts_packets(moments[upto], packets_before(moments, upto + 1)),
    decreases upto,
{
    reveal_with_fuel(packets_before, 2);
    if upto > 0 {
        lemma_packets(moments, replies, length, upto - 1);
        assert(boot_goes_on(moments[upto - 1], replies[upto - 1], moments[upto - 1 + 1]));
    }
}

/// Over a whole boot the packets are numbered from zero on, one by one: each carries the number of packets that were
/// sent before it. There are fifty at most, so no number comes twice.
pub proof fn packets_are_numbered(moments: Seq<Bl2Moment>, replies: Seq<Bl2Reply>, length: usize, at: int)
    requires
        is_boot(moments, replies, length),
        0 <= at < moments.len(),
        moments[at].action is Send,
    ensures
        moments[at].action matches Bl2Action::Send { seq, .. } && seq == packets_before(moments, at),
        0 <= packets_before(moments, at) < 50,
{
    lemma_packets(moments, replies, length, at);
    reveal_with_fuel(packets_before, 2);
}

/// Two packets of one boot never have the same number: a later one has the larger.
pub proof fn later_packets_have_larger_numbers(
    moments: Seq<Bl2Moment>,
    replies: Seq<Bl2Reply>,
    length: usize,
    first: int,
    second: int,
)
    requires
        is_boot(moments, replies, length),
        0 <= first < second < moments.len(),
        moments[first].action is Send,
        moments[second].action is Send,
    ensures
        (moments[first].action matches Bl2Action::Send { seq: a, .. } && (moments[second].action matches
            Bl2Action::Send { seq: b, .. } && a < b)),
    decreases second,
{
    packets_are_numbered(moments, replies, length, first);
    packets_are_numbered(moments, replies, length, second);
    lemma_more_packets(moments, first, second);
}

proof fn lemma_more_packets(moments: Seq<Bl2Moment>, first: int, second: int)
    requires
        0 <= first < second,
        moments[first].action is Send,
    ensures
        packets_before(moments, first) < packets_before(moments, second),
    decreases second,
{
    reveal_with_fuel(packets_before, 2);
    if first < second - 1 {
        lemma_more_packets(moments, first, second - 1);
    }
}

/// A request is answered with the bytes that it asks for, as far as the bootloader has them: from its offset on, and
/// up to its length or to the end. One that starts behind the end is answered with nothing. The request that is
/// answered is the one to compare the next with.
pub proof fn requests_are_answered_from_their_offset(
    pre: Bl2Stream,
    request: AmlcRequest,
    post: Bl2Stream,
    action: Bl2Action,
)
    requires
        pre.wf(),
        pre.state == Bl2State::Asking,
        request.length != pre.last.length || request.offset != pre.last.offset,
        Bl2Stream::advances(pre, Bl2Reply::Request(request), post, action),
    ensures
        post.last == request,
        post.length == pre.length,
        action matches Bl2Action::Send { seq, offset, from, to } && {
            &&& seq == pre.seq
            &&& offset == request.offset
            &&& request.offset < pre.length ==> from == request.offset
            &&& request.offset < pre.length && request.offset + request.length <= pre.length ==> to == request.offset
                + request.length
            &&& request.offset < pre.length && request.offset + request.length > pre.length ==> to == pre.length
            &&& request.offset >= pre.length ==> from == to
        },
{
}

/// BL2 is loaded at 0xfffa0000 in blocks of 4096 bytes and run there, is given 2000 ms to come up, and 100 ms after
/// each packet. Asking is tried three times, 500 ms apart, and fifty requests are served at most.
pub proof fn bl2_is_loaded_run_and_fed(pre: Bl2Stream, reply: Bl2Reply, post: Bl2Stream, action: Bl2Action)
    requires
        pre.wf(),
        pre.awaits(reply),
        Bl2Stream::advances(pre, reply, post, action),
    ensures
        post.length == pre.length,
        pre.state == Bl2State::Announced ==> {
            &&& action == (Bl2Action::Load { address: 0xfffa0000, block_length: 4096 })
            &&& post.state == Bl2State::Loading
        },
        pre.state == Bl2State::Loading && reply is Done ==> {
            &&& action == (Bl2Action::Run { address: 0xfffa0000 })
            &&& post.state == Bl2State::Starting
        },
        pre.state == Bl2State::Starting && reply is Done ==> {
            &&& action == (Bl2Action::Sleep { millis: 2000 })
            &&& post.state == Bl2State::Waiting
        },
        pre.state == Bl2State::Sending && reply is Done ==> {
            &&& action == (Bl2Action::Sleep { millis: 100 })
            &&& post.state == Bl2State::SendRest
        },
        (pre.state == Bl2State::Loading || pre.state == Bl2State::Starting || pre.state == Bl2State::Sending) && reply
            is Failed ==> action == Bl2Action::Finish(Outcome::Rethrow),
        pre.state == Bl2State::Waiting || pre.state == Bl2State::SendRest ==> {
            &&& pre.requests < 50 ==> action is Ask && post.requests == pre.requests + 1 && post.retries == 0
            &&& pre.requests == 50 ==> (action matches Bl2Action::Finish(
                Outcome::Failed(error::Error::InvalidOperation(shown)),
            ) && shown@ == "maximum iterations reached in bl2_boot"@)
        },
        pre.state == Bl2State::Asking && reply is Failed ==> {
            &&& pre.retries < 2 ==> action == (Bl2Action::Sleep { millis: 500 }) && post.retries == pre.retries + 1
                && post.state == Bl2State::AskRest
            &&& pre.retries == 2 ==> action == Bl2Action::Finish(Outcome::Rethrow)
        },
        pre.state == Bl2State::AskRest ==> action is Ask && post.retries == pre.retries && post.requests
            == pre.requests,
        !(action is Send) ==> post.last == pre.last,
        pre.state != Bl2State::Sending ==> post.seq == pre.seq,
{
}

/// A device is given 5000 ms to come back once a bootloader takes over.
pub proof fn resets_settle_for_five_seconds()
    ensures
        RESET_SETTLE_MILLIS == 5000,
{
}

} // verus!
