//! Downloads: moving a buffer into the memory of the device.
use vstd::prelude::*;

use super::command::Command;
use super::reply;
use super::reply::{FastbootReply, Packet, ReplyReader, ReplyStep};
use crate::error;
use crate::error::{Error, Outcome};
use crate::text;

verus! {

/// Most bytes of one bulk transfer of a download.
pub const TRANSFER_CHUNK_BYTES: usize = 1048576;

/// Milliseconds that a bulk transfer of a download may take.
pub const DOWNLOAD_MILLIS: u64 = 30000;

/// The number of bytes that the device says it is ready for: up to eight characters behind the tag, in hexadecimal.
pub open spec fn accepted_size(ack: Seq<char>) -> Option<nat> {
    let end = match text::cut(ack, 12) {
        Some(count) => count as int,
        None => ack.len() as int,
    };
    text::number_in(text::trimmed(ack.subrange(4, end)), 16)
}

/// Whether the answer to a download command can be taken apart: no character lies across the end of the tag, nor
/// across the end of the size where there is one.
pub open spec fn is_whole_ack(ack: Seq<char>) -> bool {
    if text::has_prefix(ack, "DATA"@) {
        text::width(ack) <= 12 || text::cut(ack, 12) is Some
    } else {
        text::cut(ack, 4) is Some
    }
}

/// Whether the answer to a download command can be taken apart.
pub fn check_ack(ack: &str) -> (whole: bool)
    ensures
        whole == is_whole_ack(ack@),
{
    let chars = text::chars_of(ack);
    if text::starts_with(ack, "DATA") {
        if text::width_up_to(&chars, 12) {
            return true;
        }
        match text::find_cut(&chars, 12) {
            Some(_) => true,
            None => false,
        }
    } else {
        match text::find_cut(&chars, 4) {
            Some(_) => true,
            None => false,
        }
    }
}

/// Whether the device agrees to a download of `size` bytes, in the `DATA` answer that it gave. `quoted` is the quoted
/// form of the answer.
pub open spec fn agrees(ack: Seq<char>, quoted: Seq<char>, size: usize, command: Seq<char>, judged: Result<
    (),
    Error,
>) -> bool {
    if !is_whole_ack(ack) {
        judged matches Err(e) && error::is_fastboot(e, command, reply::unintelligible())
    } else if !text::has_prefix(ack, "DATA"@) {
        judged matches Err(e) && error::is_fastboot(e, command, reply::body_of(ack))
    } else {
        match accepted_size(ack) {
            Some(n) => if n > usize::MAX {
                judged matches Err(e) && error::is_fastboot(
                    e,
                    command,
                    "could not parse the DATA reply "@ + quoted,
                )
            } else if n == size {
                judged is Ok
            } else {
                judged matches Err(e) && error::is_fastboot(
                    e,
                    command,
                    "device accepted "@ + text::decimal(n) + " bytes but we offered "@ + text::decimal(size as nat),
                )
            },
            None => judged matches Err(e) && error::is_fastboot(
                e,
                command,
                "could not parse the DATA reply "@ + quoted,
            ),
        }
    }
}

/// Judges the answer to a download command.
pub fn judge_ack(ack: &str, quoted: &str, size: usize, command: &str) -> (judged: Result<(), Error>)
    ensures
        agrees(ack@, quoted@, size, command@, judged),
{
    if !check_ack(ack) {
        return Err(reply::unintelligible_reply(command));
    }
    if !text::starts_with(ack, "DATA") {
        return match reply::split_packet(ack) {
            Some((_, body)) => Err(Error::Fastboot { command: command.to_owned(), reason: body }),
            None => Err(reply::unintelligible_reply(command)),
        };
    }
    proof {
        reveal_strlit("DATA");
    }
    let chars = text::chars_of(ack);
    let end: usize = match text::find_cut(&chars, 12) {
        Some(end) => end,
        None => chars.len(),
    };
    proof {
        text::lemma_cut_behind_tag(ack@, "DATA"@);
        text::lemma_longer_cut(ack@, 4, 12);
    }
    let digits = text::trim(text::text_between(&chars, 4, end).as_str());
    let accepted: usize = match text::parse_number(digits.as_str(), 16) {
        Some(accepted) => accepted,
        None => {
            let mut reason = "could not parse the DATA reply ".to_owned();
            reason.append(quoted);
            return Err(Error::Fastboot { command: command.to_owned(), reason });
        },
    };
    if accepted != size {
        let mut reason = "device accepted ".to_owned();
        text::push_decimal(&mut reason, accepted as u64);
        reason.append(" bytes but we offered ");
        text::push_decimal(&mut reason, size as u64);
        return Err(Error::Fastboot { command: command.to_owned(), reason });
    }
    Ok(())
}

/// Where a download stands.
#[derive(Clone, Copy, PartialEq, Eq, Structural)]
pub enum DownloadState {
    /// The command is being sent.
    Command,
    /// The answer to the command is being read.
    Ack,
    /// A slice is being sent.
    Slice,
    /// A slice was reported as sent.
    Progress,
    /// The reply is being read.
    Reply,
    Finished,
}

/// What a download wants done.
pub enum DownloadAction {
    /// Send the command line.
    Send { line: String },
    ReadPacket,
    /// Send the bytes from `from` to `to`.
    Slice { from: usize, to: usize },
    /// Tell whoever listens that so many bytes are sent.
    Report { sent: usize },
    Finish(Outcome),
}

/// How the last action went.
pub enum DownloadReply {
    Done,
    Packet(Packet),
    Failed,
}

/// A download.
pub struct Download {
    /// Bytes of the buffer.
    pub size: usize,
    pub command: String,
    /// How many bytes were sent.
    pub sent: usize,
    /// The reply that is coming in.
    pub info: Vec<String>,
    pub state: DownloadState,
}

impl Download {
    /// Whether the counters agree with the state.
    pub open spec fn wf(self) -> bool {
        &&& 0 < self.size
        &&& self.sent <= self.size
        &&& self.state == DownloadState::Slice ==> self.sent < self.size
        &&& self.state == DownloadState::Reply ==> self.sent == self.size
        &&& self.command@ == (Command::Download { size: self.size as u64 }).line()
    }

    /// Whether a reply answers the action that is out.
    pub open spec fn awaits(self, reply: DownloadReply) -> bool {
        match self.state {
            DownloadState::Command | DownloadState::Slice => reply is Done || reply is Failed,
            DownloadState::Ack | DownloadState::Reply => reply is Packet || reply is Failed,
            DownloadState::Progress => reply is Done,
            DownloadState::Finished => false,
        }
    }

    /// Whether a download goes from `pre` to the given values and keeps what it is for.
    pub open spec fn moved(pre: Self, post: Self, state: DownloadState, sent: int, info: Seq<Seq<char>>) -> bool {
        &&& post.size == pre.size
        &&& post.command@ == pre.command@
        &&& post.sent == sent
        &&& reply::lines(post.info@) == info
        &&& post.state == state
    }

    /// Where the slice that is being sent ends.
    pub open spec fn slice_end(self) -> int {
        if self.size - self.sent > TRANSFER_CHUNK_BYTES {
            self.sent + TRANSFER_CHUNK_BYTES
        } else {
            self.size as int
        }
    }

    /// Whether a download goes on with the next slice, or with the reply when all is sent.
    pub open spec fn goes_on(pre: Self, post: Self, action: DownloadAction) -> bool {
        let info = reply::lines(pre.info@);
        if pre.sent < pre.size {
            &&& Self::moved(pre, post, DownloadState::Slice, pre.sent as int, info)
            &&& action matches DownloadAction::Slice { from, to } && from == pre.sent && to == pre.slice_end()
        } else {
            &&& Self::moved(pre, post, DownloadState::Reply, pre.sent as int, info)
            &&& action is ReadPacket
        }
    }

    /// Whether a download ends with the given outcome.
    pub open spec fn ends(pre: Self, post: Self, action: DownloadAction) -> bool {
        &&& post.size == pre.size
        &&& post.sent == pre.sent
        &&& post.state == DownloadState::Finished
        &&& action is Finish
    }

    /// Whether a download ends with an error of its command.
    pub open spec fn gives_up(pre: Self, post: Self, action: DownloadAction, reason: Seq<char>) -> bool {
        &&& Self::ends(pre, post, action)
        &&& action matches DownloadAction::Finish(Outcome::Failed(e)) && error::is_fastboot(
            e,
            pre.command@,
            reason,
        )
    }

    /// One step of a download.
    pub open spec fn advances(pre: Self, reply: DownloadReply, post: Self, action: DownloadAction) -> bool {
        let info = reply::lines(pre.info@);
        match reply {
            DownloadReply::Failed => {
                &&& Self::ends(pre, post, action)
                &&& action matches DownloadAction::Finish(Outcome::Rethrow)
            },
            DownloadReply::Packet(Packet::Text(t)) => if pre.state == DownloadState::Ack {
                exists|judged: Result<(), Error>|
                    #![trigger agrees(t@, text::debug_text(t@), pre.size, pre.command@, judged)]
                    {
                        &&& agrees(t@, text::debug_text(t@), pre.size, pre.command@, judged)
                        &&& match judged {
                            Ok(_) => Self::goes_on(pre, post, action),
                            Err(e) => Self::ends(pre, post, action) && action == DownloadAction::Finish(
                                Outcome::Failed(e),
                            ),
                        }
                    }
            } else if text::cut(t@, 4) is None {
                Self::gives_up(pre, post, action, reply::unintelligible())
            } else {
                let tag = reply::tag_of(t@);
                let body = reply::body_of(t@);
                if tag == "INFO"@ {
                    &&& Self::moved(pre, post, DownloadState::Reply, pre.sent as int, info.push(body))
                    &&& action is ReadPacket
                } else if tag == "TEXT"@ {
                    &&& Self::moved(pre, post, DownloadState::Reply, pre.sent as int, reply::continued(info, body))
                    &&& action is ReadPacket
                } else {
                    &&& Self::ends(pre, post, action)
                    &&& if tag == "OKAY"@ {
                        action matches DownloadAction::Finish(Outcome::Done)
                    } else {
                        let reason = if tag == "FAIL"@ {
                            body
                        } else {
                            "unexpected reply tag "@ + text::debug_text(tag)
                        };
                        Self::gives_up(pre, post, action, reason)
                    }
                }
            },
            DownloadReply::Packet(Packet::Truncated) => Self::gives_up(
                pre,
                post,
                action,
                "device sent a truncated reply"@,
            ),
            DownloadReply::Packet(Packet::Garbled) => Self::gives_up(pre, post, action, reply::unintelligible()),
            DownloadReply::Done => match pre.state {
                DownloadState::Command => {
                    &&& Self::moved(pre, post, DownloadState::Ack, pre.sent as int, info)
                    &&& action is ReadPacket
                },
                DownloadState::Slice => {
                    &&& Self::moved(pre, post, DownloadState::Progress, pre.slice_end(), info)
                    &&& action matches DownloadAction::Report { sent } && sent == pre.slice_end()
                },
                _ => Self::goes_on(pre, post, action),
            },
        }
    }

    /// Starts a download of `size` bytes. An empty one is refused.
    pub fn download(size: usize) -> (started: Result<(Self, DownloadAction), Error>)
        ensures
            started is Ok <==> size > 0,
            started matches Ok(s) ==> {
                &&& s.0.wf()
                &&& s.0.size == size
                &&& s.0.sent == 0
                &&& s.0.info@.len() == 0
                &&& s.0.state == DownloadState::Command
                &&& s.1 matches DownloadAction::Send { line } && line@ == (Command::Download {
                    size: size as u64,
                }).line()
            },
            started matches Err(e) ==> error::is_invalid(e, "refusing to download an empty image"@),
    {
        if size == 0 {
            return Err(error::invalid("refusing to download an empty image"));
        }
        let command = Command::Download { size: size as u64 }.render();
        let line = command.as_str().to_owned();
        Ok(
            (
                Download { size, command, sent: 0, info: Vec::new(), state: DownloadState::Command },
                DownloadAction::Send { line },
            ),
        )
    }

    fn end_of_slice(&self) -> (end: usize)
        requires
            self.wf(),
        ensures
            end == self.slice_end(),
    {
        if self.size - self.sent > TRANSFER_CHUNK_BYTES {
            self.sent + TRANSFER_CHUNK_BYTES
        } else {
            self.size
        }
    }

    fn go_on(&mut self) -> (action: DownloadAction)
        requires
            old(self).wf(),
        ensures
            final(self).wf(),
            Self::goes_on(*old(self), *final(self), action),
    {
        if self.sent < self.size {
            self.state = DownloadState::Slice;
            DownloadAction::Slice { from: self.sent, to: self.end_of_slice() }
        } else {
            self.state = DownloadState::Reply;
            DownloadAction::ReadPacket
        }
    }

    fn end(&mut self, outcome: Outcome) -> (action: DownloadAction)
        requires
            old(self).wf(),
        ensures
            final(self).wf(),
            Self::ends(*old(self), *final(self), action),
            action == DownloadAction::Finish(outcome),
    {
        self.state = DownloadState::Finished;
        DownloadAction::Finish(outcome)
    }

    fn take_ack(&mut self, ack: &str) -> (action: DownloadAction)
        requires
            old(self).wf(),
            old(self).state == DownloadState::Ack,
        ensures
            final(self).wf(),
            exists|judged: Result<(), Error>|
                #![trigger agrees(ack@, text::debug_text(ack@), old(self).size, old(self).command@, judged)]
                {
                    &&& agrees(ack@, text::debug_text(ack@), old(self).size, old(self).command@, judged)
                    &&& match judged {
                        Ok(_) => Self::goes_on(*old(self), *final(self), action),
                        Err(e) => Self::ends(*old(self), *final(self), action) && action == DownloadAction::Finish(
                            Outcome::Failed(e),
                        ),
                    }
                },
    {
        let quoted = text::debug_form(ack);
        let judged = judge_ack(ack, quoted.as_str(), self.size, self.command.as_str());
        assert(agrees(ack@, text::debug_text(ack@), old(self).size, old(self).command@, judged));
        match judged {
            Ok(_) => self.go_on(),
            Err(e) => self.end(Outcome::Failed(e)),
        }
    }

    fn take_reply(&mut self, packet: Packet) -> (action: DownloadAction)
        requires
            old(self).wf(),
            old(self).state == DownloadState::Reply,
        ensures
            final(self).wf(),
            Self::advances(*old(self), DownloadReply::Packet(packet), *final(self), action),
    {
        let mut info: Vec<String> = Vec::new();
        info.append(&mut self.info);
        assert(info@ =~= old(self).info@);
        let reader = ReplyReader { info };
        match reader.accept(self.command.as_str(), packet) {
            ReplyStep::More(reader) => {
                self.info = reader.info;
                DownloadAction::ReadPacket
            },
            ReplyStep::Complete(reply) => {
                if reply.ok {
                    self.end(Outcome::Done)
                } else {
                    let reason = reply.response;
                    let command = self.command.as_str().to_owned();
                    proof {
                        reveal_strlit("OKAY");
                        reveal_strlit("FAIL");
                        assert("OKAY"@[0] != "FAIL"@[0]);
                    }
                    self.end(Outcome::Failed(Error::Fastboot { command, reason }))
                }
            },
            ReplyStep::Failed(e) => self.end(Outcome::Failed(e)),
        }
    }

    /// Takes in how the last action went and gives the next one.
    pub fn resume(&mut self, reply: DownloadReply) -> (action: DownloadAction)
        requires
            old(self).wf(),
            old(self).awaits(reply),
        ensures
            final(self).wf(),
            Self::advances(*old(self), reply, *final(self), action),
    {
        match reply {
            DownloadReply::Failed => self.end(Outcome::Rethrow),
            DownloadReply::Done => match self.state {
                DownloadState::Command => {
                    self.state = DownloadState::Ack;
                    DownloadAction::ReadPacket
                },
                DownloadState::Slice => {
                    self.sent = self.end_of_slice();
                    self.state = DownloadState::Progress;
                    DownloadAction::Report { sent: self.sent }
                },
                _ => self.go_on(),
            },
            DownloadReply::Packet(packet) => {
                if self.state == DownloadState::Ack {
                    match packet {
                        Packet::Text(ack) => self.take_ack(ack.as_str()),
                        Packet::Truncated => {
                            let e = reply::fastboot_error(self.command.as_str(), "device sent a truncated reply");
                            self.end(Outcome::Failed(e))
                        },
                        Packet::Garbled => {
                            let e = reply::unintelligible_reply(self.command.as_str());
                            self.end(Outcome::Failed(e))
                        },
                    }
                } else {
                    self.take_reply(packet)
                }
            },
        }
    }
}

/// The slices of a download follow one another without a gap, none is empty or longer than a transfer, and the count
/// of bytes that is reported never goes back.
pub proof fn slices_follow_one_another(pre: Download, reply: DownloadReply, post: Download, action: DownloadAction)
    requires
        pre.wf(),
        pre.awaits(reply),
        Download::advances(pre, reply, post, action),
    ensures
        action matches DownloadAction::Slice { from, to } ==> {
            &&& from == post.sent
            &&& from < to <= post.size
            &&& to - from <= TRANSFER_CHUNK_BYTES
            &&& to == post.slice_end()
        },
        action matches DownloadAction::Report { sent } ==> {
            &&& pre.sent < sent <= pre.size
            &&& sent == pre.slice_end()
            &&& post.sent == sent
        },
        !(action is Report) ==> post.sent == pre.sent,
{
}

/// A download that succeeds has sent the whole buffer, and the last packet was OKAY.
pub proof fn download_succeeds_on_okay(pre: Download, reply: DownloadReply, post: Download, action: DownloadAction)
    requires
        pre.wf(),
        pre.awaits(reply),
        Download::advances(pre, reply, post, action),
        action matches DownloadAction::Finish(Outcome::Done),
    ensures
        pre.sent == pre.size,
        reply matches DownloadReply::Packet(Packet::Text(t)) && reply::tag_of(t@) == "OKAY"@,
{
}

/// A device that answers with the size that was announced agrees, and one that names another size does not.
pub proof fn answers_have_to_name_the_size(
    named: nat,
    size: usize,
    quoted: Seq<char>,
    command: Seq<char>,
    judged: Result<(), Error>,
)
    requires
        named < 0x1_0000_0000,
        named <= usize::MAX,
        agrees(
            "DATA"@ + text::zero_padded(text::digits(named, 16, false), 8),
            quoted,
            size,
            command,
            judged,
        ),
    ensures
        judged is Ok <==> named == size,
        named != size ==> (judged matches Err(Error::Fastboot { command: c, reason }) && c@ == command && reason@
            == "device accepted "@ + text::decimal(named) + " bytes but we offered "@ + text::decimal(size as nat)),
{
    let digits = text::zero_padded(text::digits(named, 16, false), 8);
    let ack = "DATA"@ + digits;
    let line = (Command::Download { size: named as u64 }).line();
    reveal_strlit("DATA");
    reveal_strlit("download:");
    super::command::downloads_are_announced_in_hex(named as u64);
    assert(line.skip(9) =~= digits);
    assert(digits.len() == 8);
    lemma_hex_width(named, digits);
    text::cuts_fall_between_characters(ack, Seq::empty());
    text::cuts_fall_between_characters("DATA"@, digits);
    assert(ack + Seq::<char>::empty() =~= ack);
    reveal_with_fuel(text::width, 5);
    assert(text::width("DATA"@) == 4);
    assert(text::width(ack) == 12);
    text::prefixes_come_first(ack, "DATA"@, digits);
    assert(ack.subrange(4, 12) =~= digits);
    assert(!text::white_space(digits.first()) && !text::white_space(digits.last()));
    text::trimming_leaves_the_middle(Seq::empty(), digits, Seq::empty());
    assert(Seq::<char>::empty() + digits + Seq::<char>::empty() =~= digits);
}

/// Hexadecimal digits are one byte wide and no white space.
proof fn lemma_hex_width(named: nat, digits: Seq<char>)
    requires
        digits == text::zero_padded(text::digits(named, 16, false), 8),
        digits.len() == 8,
    ensures
        text::width(digits) == 8,
        forall|i: int| 0 <= i < 8 ==> !text::white_space(#[trigger] digits[i]),
{
    let shown = text::digits(named, 16, false);
    text::padding_puts_zeros_in_front(shown, 8);
    text::spelled_numbers_are_read_back(named, 16, false);
    let gap = digits.len() - shown.len();
    assert forall|i: int| 0 <= i < 8 implies text::digit_value(#[trigger] digits[i], 16) is Some by {
        if i >= gap {
            assert(digits[i] == digits.skip(gap)[i - gap]);
            assert(text::digit_value(shown[i - gap], 16) is Some);
        }
    }
    lemma_digit_width(digits);
}

proof fn lemma_digit_width(digits: Seq<char>)
    requires
        forall|i: int| 0 <= i < digits.len() ==> text::digit_value(#[trigger] digits[i], 16) is Some,
    ensures
        text::width(digits) == digits.len(),
    decreases digits.len(),
{
    if digits.len() > 0 {
        assert(text::digit_value(digits[0], 16) is Some);
        let rest = digits.drop_first();
        assert forall|i: int| 0 <= i < rest.len() implies text::digit_value(#[trigger] rest[i], 16) is Some by {
            assert(rest[i] == digits[i + 1]);
        }
        lemma_digit_width(rest);
    }
}

/// An ASCII answer is read by its characters: `DATA` and then up to eight digits, or another tag and what it says.
pub proof fn ascii_answers_are_read_by_position(
    ack: Seq<char>,
    quoted: Seq<char>,
    size: usize,
    command: Seq<char>,
    judged: Result<(), Error>,
)
    requires
        vstd::utf8::is_ascii_chars(ack),
        ack.len() >= 4,
        agrees(ack, quoted, size, command, judged),
    ensures
        ack.take(4) == "DATA"@ && ack.len() >= 12 ==> (judged is Ok <==> text::number_in(
            text::trimmed(ack.subrange(4, 12)),
            16,
        ) == Some(size as nat)),
        ack.take(4) == "DATA"@ && ack.len() < 12 ==> (judged is Ok <==> text::number_in(text::trimmed(ack.skip(4)), 16)
            == Some(size as nat)),
        ack.take(4) != "DATA"@ ==> (judged matches Err(Error::Fastboot { command: c, reason }) && c@ == command
            && reason@
            == ack.skip(4)),
{
    reveal_strlit("DATA");
    lemma_ascii_width(ack);
    lemma_ascii_width(ack.take(4));
    text::cuts_fall_between_characters(ack.take(4), ack.skip(4));
    assert(ack.take(4) + ack.skip(4) =~= ack);
    assert(ack.take(4) =~= ack.subrange(0, 4));
    if ack.len() >= 12 {
        lemma_ascii_width(ack.take(12));
        text::cuts_fall_between_characters(ack.take(12), ack.skip(12));
        assert(ack.take(12) + ack.skip(12) =~= ack);
    } else {
        assert(ack.subrange(4, ack.len() as int) =~= ack.skip(4));
        if text::cut(ack, 12) is Some {
            text::cuts_have_their_width(ack, 12);
            lemma_ascii_width(ack.take(text::cut(ack, 12).unwrap() as int));
        }
    }
}

/// ASCII characters are one byte wide.
proof fn lemma_ascii_width(chars: Seq<char>)
    requires
        vstd::utf8::is_ascii_chars(chars),
    ensures
        text::width(chars) == chars.len(),
    decreases chars.len(),
{
    if chars.len() > 0 {
        lemma_ascii_width(chars.drop_first());
    }
}

/// A device that answers with the size that was announced is sent the first slice; one that answers with another is
/// not.
pub proof fn slices_wait_for_the_answer(pre: Download, ack: String, post: Download, action: DownloadAction)
    requires
        pre.wf(),
        pre.state == DownloadState::Ack,
        pre.sent == 0,
        pre.size < 0x1_0000_0000,
        vstd::utf8::is_ascii_chars(ack@),
        ack@.len() >= 12,
        Download::advances(pre, DownloadReply::Packet(Packet::Text(ack)), post, action),
    ensures
        ack@.take(4) == "DATA"@ && text::number_in(text::trimmed(ack@.subrange(4, 12)), 16) == Some(pre.size as nat)
            <==> action is Slice,
        action is Slice || action is Finish,
{
    let judged = choose|judged: Result<(), Error>|
        #![trigger agrees(ack@, text::debug_text(ack@), pre.size, pre.command@, judged)]
        {
            &&& agrees(ack@, text::debug_text(ack@), pre.size, pre.command@, judged)
            &&& match judged {
                Ok(_) => Download::goes_on(pre, post, action),
                Err(e) => Download::ends(pre, post, action) && action == DownloadAction::Finish(Outcome::Failed(e)),
            }
        };
    ascii_answers_are_read_by_position(ack@, text::debug_text(ack@), pre.size, pre.command@, judged);
}

/// A packet that is too short or cannot be taken apart ends a download with an error that says so.
pub proof fn bad_packets_end_a_download(pre: Download, packet: Packet, post: Download, action: DownloadAction)
    requires
        pre.wf(),
        pre.awaits(DownloadReply::Packet(packet)),
        !(packet is Text),
        Download::advances(pre, DownloadReply::Packet(packet), post, action),
    ensures
        action matches DownloadAction::Finish(Outcome::Failed(Error::Fastboot { command, reason })) && {
            &&& command@ == pre.command@
            &&& packet is Truncated ==> reason@ == "device sent a truncated reply"@
            &&& packet is Garbled ==> reason@ == "device sent an unintelligible reply"@
        },
{
}

/// A download sends its command, reads the answer, sends slices of 1 MiB, the last one may be shorter, each from where
/// the one before ended and reported behind it, and reads the reply. Any failure to send or read ends it.
pub proof fn downloads_send_slice_after_slice(
    pre: Download,
    reply: DownloadReply,
    post: Download,
    action: DownloadAction,
)
    requires
        pre.wf(),
        pre.awaits(reply),
        Download::advances(pre, reply, post, action),
    ensures
        post.state != DownloadState::Finished ==> post.command@ == pre.command@ && post.size == pre.size,
        post.size == pre.size,
        reply is Failed ==> action == DownloadAction::Finish(Outcome::Rethrow),
        pre.state == DownloadState::Command && reply is Done ==> action is ReadPacket && post.state
            == DownloadState::Ack && post.sent == pre.sent,
        action matches DownloadAction::Slice { from, to } ==> {
            &&& from == pre.sent == post.sent
            &&& to == (if pre.size - pre.sent > 1048576 {
                pre.sent + 1048576
            } else {
                pre.size as int
            })
            &&& post.state == DownloadState::Slice
        },
        pre.state == DownloadState::Slice && reply is Done ==> {
            let end = if pre.size - pre.sent > 1048576 {
                pre.sent + 1048576
            } else {
                pre.size as int
            };
            &&& post.sent == end
            &&& action matches DownloadAction::Report { sent } && sent == end
            &&& post.state == DownloadState::Progress
        },
        pre.state == DownloadState::Progress ==> {
            &&& pre.sent < pre.size ==> action is Slice
            &&& pre.sent == pre.size ==> action is ReadPacket && post.state == DownloadState::Reply
        },
{
}

/// The reply to a download ends it with OKAY and FAIL, which says why; INFO and TEXT go on, and anything else is an
/// error.
pub proof fn download_replies_decide(pre: Download, packet: String, post: Download, action: DownloadAction)
    requires
        pre.wf(),
        pre.state == DownloadState::Reply,
        text::cut(packet@, 4) is Some,
        Download::advances(pre, DownloadReply::Packet(Packet::Text(packet)), post, action),
    ensures
        reply::tag_of(packet@) == "OKAY"@ <==> action == DownloadAction::Finish(Outcome::Done),
        reply::tag_of(packet@) == "INFO"@ || reply::tag_of(packet@) == "TEXT"@ <==> action is ReadPacket,
        reply::tag_of(packet@) == "FAIL"@ ==> (action matches DownloadAction::Finish(
            Outcome::Failed(Error::Fastboot { command, reason }),
        ) && command@ == pre.command@ && reason@ == reply::body_of(packet@)),
        !seq!["OKAY"@, "FAIL"@, "INFO"@, "TEXT"@].contains(reply::tag_of(packet@)) ==> (
        action matches DownloadAction::Finish(Outcome::Failed(Error::Fastboot { command, reason })) && command@
            == pre.command@ && reason@ == "unexpected reply tag "@ + text::debug_text(reply::tag_of(packet@))),
        action is Finish ==> post.state == DownloadState::Finished,
{
    let tags = seq!["OKAY"@, "FAIL"@, "INFO"@, "TEXT"@];
    assert(tags[0] == "OKAY"@ && tags[1] == "FAIL"@ && tags[2] == "INFO"@ && tags[3] == "TEXT"@);
    reveal_strlit("OKAY");
    reveal_strlit("FAIL");
    reveal_strlit("INFO");
    reveal_strlit("TEXT");
    assert("OKAY"@[0] == 'O' && "FAIL"@[0] == 'F' && "INFO"@[0] == 'I' && "TEXT"@[0] == 'T');
}

/// The lines of a reply are kept: INFO adds its text as a line, and TEXT lengthens the last one, or starts the first.
/// Nothing else of the download changes.
pub proof fn info_lines_are_kept(pre: Download, packet: String, post: Download, action: DownloadAction)
    requires
        pre.wf(),
        pre.state == DownloadState::Reply,
        text::cut(packet@, 4) is Some,
        Download::advances(pre, DownloadReply::Packet(Packet::Text(packet)), post, action),
        reply::tag_of(packet@) == "INFO"@ || reply::tag_of(packet@) == "TEXT"@,
    ensures
        ({
            let count = pre.info@.len() as int;
            let body = reply::body_of(packet@);
            &&& reply::tag_of(packet@) == "INFO"@ || count == 0 ==> {
                &&& post.info@.len() == count + 1
                &&& post.info@[count]@ == body
                &&& forall|i: int| 0 <= i < count ==> (#[trigger] post.info@[i])@ == pre.info@[i]@
            }
            &&& reply::tag_of(packet@) == "TEXT"@ && count > 0 ==> {
                &&& post.info@.len() == count
                &&& post.info@[count - 1]@ == pre.info@[count - 1]@ + body
                &&& forall|i: int| 0 <= i < count - 1 ==> (#[trigger] post.info@[i])@ == pre.info@[i]@
            }
        }),
        post.size == pre.size,
        post.sent == pre.sent,
        post.state == DownloadState::Reply,
{
    reveal_strlit("INFO");
    reveal_strlit("TEXT");
    assert("INFO"@[0] == 'I' && "TEXT"@[0] == 'T');
    let before = reply::lines(pre.info@);
    let after = reply::lines(post.info@);
    assert(before.len() == pre.info@.len() && after.len() == post.info@.len());
    assert forall|i: int| 0 <= i < post.info@.len() implies (#[trigger] post.info@[i])@ == after[i] by {}
    assert forall|i: int| 0 <= i < pre.info@.len() implies (#[trigger] pre.info@[i])@ == before[i] by {}
}

/// A slice of a download may take half a minute.
pub proof fn slices_have_half_a_minute()
    ensures
        DOWNLOAD_MILLIS == 30000,
{
}

} // verus!
