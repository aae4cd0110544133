//! Fastboot replies: packets that carry a four-character tag each.
use vstd::prelude::*;

use crate::error;
use crate::error::Error;
use crate::text;

verus! {

/// Bytes of a reply packet.
pub const PACKET_BYTES: usize = 64;

/// Fallback for a device that does not say how much it can take at once.
pub const DEFAULT_MAX_DOWNLOAD_BYTES: usize = 0x7000000;

/// A parsed fastboot reply.
#[derive(Debug, Clone)]
pub struct FastbootReply {
    /// Whether the last packet was OKAY rather than FAIL.
    pub ok: bool,
    /// The INFO lines, in order.
    pub info: Vec<String>,
    /// What the last packet says.
    pub response: String,
}

/// The lines of a reply as texts.
pub open spec fn lines(info: Seq<String>) -> Seq<Seq<char>> {
    info.map_values(|line: String| line@)
}

/// Lines joined by line breaks.
pub open spec fn joined(lines: Seq<Seq<char>>) -> Seq<char>
    decreases lines.len(),
{
    if lines.len() == 0 {
        Seq::empty()
    } else if lines.len() == 1 {
        lines[0]
    } else {
        joined(lines.drop_last()) + seq!['\n'] + lines.last()
    }
}

impl FastbootReply {
    /// The INFO lines joined back into the console output that they came from.
    pub fn text(&self) -> (output: String)
        ensures
            output@ == joined(lines(self.info@)),
    {
        let mut output = String::new();
        assert(output@ =~= Seq::<char>::empty());
        let ghost all = lines(self.info@);
        let mut i: usize = 0;
        assert(all.take(0) =~= Seq::<Seq<char>>::empty());
        while i < self.info.len()
            invariant
                i <= self.info@.len(),
                all == lines(self.info@),
                output@ == joined(all.take(i as int)),
            decreases self.info@.len() - i,
        {
            assert(all.take(i + 1).drop_last() =~= all.take(i as int));
            assert(all.take(i + 1).last() == self.info@[i as int]@);
            if i > 0 {
                output.push('\n');
            }
            output.append(self.info[i].as_str());
            i = i + 1;
            assert(output@ =~= joined(all.take(i as int)));
        }
        assert(all.take(all.len() as int) =~= all);
        output
    }
}

/// A reply packet as text.
pub enum Packet {
    /// Fewer than four bytes came.
    Truncated,
    /// The text has a character across the end of the tag.
    Garbled,
    Text(String),
}

/// Turns the bytes of a packet into text, replacing what is not UTF-8.
pub fn packet_text(packet: &[u8]) -> (shown: Packet)
    ensures
        shown is Truncated <==> packet@.len() < 4,
        shown is Garbled <==> packet@.len() >= 4 && text::cut(text::lossy_text(packet@), 4) is None,
        shown matches Packet::Text(t) ==> t@ == text::lossy_text(packet@) && text::cut(t@, 4) is Some,
{
    if packet.len() < 4 {
        return Packet::Truncated;
    }
    let shown = text::from_utf8_lossy(packet);
    let chars = text::chars_of(shown.as_str());
    match text::find_cut(&chars, 4) {
        Some(_) => Packet::Text(shown),
        None => Packet::Garbled,
    }
}

/// The tag of a packet.
pub open spec fn tag_of(packet: Seq<char>) -> Seq<char> {
    packet.take(text::cut(packet, 4).unwrap() as int)
}

/// What a packet says behind its tag.
pub open spec fn body_of(packet: Seq<char>) -> Seq<char> {
    packet.skip(text::cut(packet, 4).unwrap() as int)
}

/// Splits a packet into tag and body, unless a character lies across the end of the tag.
pub(crate) fn split_packet(packet: &str) -> (parts: Option<(String, String)>)
    ensures
        parts is Some <==> text::cut(packet@, 4) is Some,
        parts matches Some((tag, body)) ==> tag@ == tag_of(packet@) && body@ == body_of(packet@),
{
    let chars = text::chars_of(packet);
    let at: usize = match text::find_cut(&chars, 4) {
        Some(at) => at,
        None => return None,
    };
    let tag = text::text_between(&chars, 0, at);
    let body = text::text_between(&chars, at, chars.len());
    assert(tag@ =~= tag_of(packet@));
    assert(body@ =~= body_of(packet@));
    Some((tag, body))
}

/// The INFO lines of a reply that is still coming in.
pub struct ReplyReader {
    pub info: Vec<String>,
}

/// What a packet makes of a reply.
pub enum ReplyStep {
    /// More packets follow.
    More(ReplyReader),
    Complete(FastbootReply),
    Failed(Error),
}

/// INFO lines with a continuation added to the last one, or standing on its own when there is none.
pub open spec fn continued(lines: Seq<Seq<char>>, body: Seq<char>) -> Seq<Seq<char>> {
    if lines.len() == 0 {
        seq![body]
    } else {
        lines.drop_last().push(lines.last() + body)
    }
}

/// An error that a command is answered with.
pub fn fastboot_error(command: &str, reason: &str) -> (error: Error)
    ensures
        error::is_fastboot(error, command@, reason@),
{
    Error::Fastboot { command: command.to_owned(), reason: reason.to_owned() }
}

/// What is said of an answer that cannot be taken apart.
pub open spec fn unintelligible() -> Seq<char> {
    "device sent an unintelligible reply"@
}

/// The error for an answer that cannot be taken apart.
pub fn unintelligible_reply(command: &str) -> (error: Error)
    ensures
        error::is_fastboot(error, command@, unintelligible()),
{
    fastboot_error(command, "device sent an unintelligible reply")
}

/// The error for a tag that no reply has, shown in its quoted form.
pub fn unexpected_tag(command: &str, quoted: &str) -> (error: Error)
    ensures
        error::is_fastboot(error, command@, "unexpected reply tag "@ + quoted@),
{
    let mut reason = "unexpected reply tag ".to_owned();
    reason.append(quoted);
    Error::Fastboot { command: command.to_owned(), reason }
}

impl ReplyReader {
    /// A reply of which nothing has come in.
    pub fn new() -> (reader: Self)
        ensures
            reader.info@.len() == 0,
    {
        ReplyReader { info: Vec::new() }
    }

    /// Takes in a packet: INFO adds a line, TEXT continues one, OKAY and FAIL end the reply, and anything else is an
    /// error, as is a packet that is too short for a tag or has none that can be told.
    pub fn accept(self, command: &str, packet: Packet) -> (step: ReplyStep)
        ensures
            match packet {
                Packet::Truncated => step matches ReplyStep::Failed(e) && error::is_fastboot(
                    e,
                    command@,
                    "device sent a truncated reply"@,
                ),
                Packet::Garbled => step matches ReplyStep::Failed(e) && error::is_fastboot(
                    e,
                    command@,
                    unintelligible(),
                ),
                Packet::Text(t) => if text::cut(t@, 4) is None {
                    step matches ReplyStep::Failed(e) && error::is_fastboot(e, command@, unintelligible())
                } else {
                    let tag = tag_of(t@);
                    let body = body_of(t@);
                    let before = lines(self.info@);
                    if tag == "INFO"@ {
                        step matches ReplyStep::More(r) && lines(r.info@) == before.push(body)
                    } else if tag == "TEXT"@ {
                        step matches ReplyStep::More(r) && lines(r.info@) == continued(before, body)
                    } else if tag == "OKAY"@ || tag == "FAIL"@ {
                        step matches ReplyStep::Complete(r) && {
                            &&& r.ok == (tag == "OKAY"@)
                            &&& r.info@ == self.info@
                            &&& r.response@ == body
                        }
                    } else {
                        step matches ReplyStep::Failed(e) && error::is_fastboot(
                            e,
                            command@,
                            "unexpected reply tag "@ + text::debug_text(tag),
                        )
                    }
                },
            },
    {
        let packet = match packet {
            Packet::Text(packet) => packet,
            Packet::Truncated => {
                return ReplyStep::Failed(fastboot_error(command, "device sent a truncated reply"));
            },
            Packet::Garbled => return ReplyStep::Failed(unintelligible_reply(command)),
        };
        let (tag, body) = match split_packet(packet.as_str()) {
            Some(parts) => parts,
            None => return ReplyStep::Failed(unintelligible_reply(command)),
        };
        let mut info = self.info;
        if text::same_text(tag.as_str(), "INFO") {
            info.push(body);
            assert(lines(info@) =~= lines(self.info@).push(body_of(packet@)));
            return ReplyStep::More(ReplyReader { info });
        }
        if text::same_text(tag.as_str(), "TEXT") {
            let ghost before = lines(info@);
            match info.pop() {
                Some(mut last) => {
                    last.append(body.as_str());
                    info.push(last);
                },
                None => {
                    info.push(body);
                },
            }
            assert(lines(info@) =~= continued(before, body_of(packet@)));
            return ReplyStep::More(ReplyReader { info });
        }
        if text::same_text(tag.as_str(), "OKAY") {
            return ReplyStep::Complete(FastbootReply { ok: true, info, response: body });
        }
        if text::same_text(tag.as_str(), "FAIL") {
            proof {
                reveal_strlit("OKAY");
                reveal_strlit("FAIL");
                assert("OKAY"@[0] != "FAIL"@[0]);
            }
            return ReplyStep::Complete(FastbootReply { ok: false, info, response: body });
        }
        let quoted = text::debug_form(tag.as_str());
        ReplyStep::Failed(unexpected_tag(command, quoted.as_str()))
    }
}

/// A packet whose text opens with one of the four tags is split right behind it.
pub proof fn tags_are_four_characters(packet: Seq<char>, tag: Seq<char>)
    requires
        tag == "INFO"@ || tag == "TEXT"@ || tag == "OKAY"@ || tag == "FAIL"@,
        text::has_prefix(packet, tag),
    ensures
        text::cut(packet, 4) is Some,
        tag_of(packet) == tag,
        body_of(packet) == packet.skip(4),
{
    reveal_strlit("INFO");
    reveal_strlit("TEXT");
    reveal_strlit("OKAY");
    reveal_strlit("FAIL");
    text::lemma_cut_behind_tag(packet, tag);
    assert(tag_of(packet) =~= tag);
}

/// Passes a reply on if it is OKAY; otherwise what it says is the reason of an error.
pub fn expect_okay(command: &str, reply: FastbootReply) -> (expected: Result<FastbootReply, Error>)
    ensures
        expected is Ok <==> reply.ok,
        expected matches Ok(r) ==> r == reply,
        expected matches Err(e) ==> error::is_fastboot(e, command@, reply.response@),
{
    if !reply.ok {
        return Err(Error::Fastboot { command: command.to_owned(), reason: reply.response });
    }
    Ok(reply)
}

/// The size that a text gives, in hexadecimal behind `0x` or `0X` and in decimal otherwise.
pub open spec fn size_in(raw: Seq<char>) -> Option<nat> {
    if text::has_prefix(raw, "0x"@) || text::has_prefix(raw, "0X"@) {
        text::number_in(raw.skip(2), 16)
    } else {
        text::number_in(raw, 10)
    }
}

/// Parses a size; zero, and a number that is too large, is none.
pub fn parse_size(raw: &str) -> (size: Option<usize>)
    ensures
        size is Some <==> size_in(raw@) is Some && 0 < size_in(raw@).unwrap() <= usize::MAX,
        size matches Some(n) ==> size_in(raw@) == Some(n as nat),
{
    proof {
        reveal_strlit("0x");
        reveal_strlit("0X");
    }
    let parsed: Option<usize> = match text::strip_prefix(raw, "0x") {
        Some(hex) => {
            assert(hex@ =~= raw@.skip(2));
            text::parse_number(hex.as_str(), 16)
        },
        None => match text::strip_prefix(raw, "0X") {
            Some(hex) => {
                assert(hex@ =~= raw@.skip(2));
                text::parse_number(hex.as_str(), 16)
            },
            None => text::parse_number(raw, 10),
        },
    };
    match parsed {
        Some(n) => if n > 0 {
            Some(n)
        } else {
            None
        },
        None => None,
    }
}

/// How much the device takes at once, by what it says about `max-download-size`, if it says anything.
pub fn max_download_size(said: Option<&str>) -> (limit: usize)
    ensures
        limit > 0,
        match said {
            Some(raw) => match size_in(text::trimmed(raw@)) {
                Some(n) => limit == (if 0 < n <= usize::MAX {
                    n
                } else {
                    DEFAULT_MAX_DOWNLOAD_BYTES as nat
                }),
                None => limit == DEFAULT_MAX_DOWNLOAD_BYTES,
            },
            None => limit == DEFAULT_MAX_DOWNLOAD_BYTES,
        },
{
    match said {
        Some(raw) => {
            let inner = text::trim(raw);
            match parse_size(inner.as_str()) {
                Some(n) => n,
                None => DEFAULT_MAX_DOWNLOAD_BYTES,
            }
        },
        None => DEFAULT_MAX_DOWNLOAD_BYTES,
    }
}

/// Lines are joined by one line break between each two.
pub proof fn lines_are_joined_by_breaks(lines: Seq<Seq<char>>, last: Seq<char>)
    ensures
        joined(Seq::<Seq<char>>::empty()) == Seq::<char>::empty(),
        lines.len() == 0 ==> joined(lines.push(last)) == last,
        lines.len() > 0 ==> joined(lines.push(last)) == joined(lines) + seq!['\n'] + last,
{
    assert(lines.push(last).drop_last() =~= lines);
}

/// A continuation lengthens the last line and leaves the others; without a line it becomes one.
pub proof fn continuations_lengthen_the_last_line(lines: Seq<Seq<char>>, body: Seq<char>)
    ensures
        lines.len() == 0 ==> continued(lines, body) == seq![body],
        lines.len() > 0 ==> {
            &&& continued(lines, body).len() == lines.len()
            &&& continued(lines, body).last() == lines.last() + body
            &&& forall|i: int| 0 <= i < lines.len() - 1 ==> continued(lines, body)[i] == lines[i]
        },
{
}

/// A packet is its tag and its body, and the tag takes four bytes.
pub proof fn packets_are_tag_and_body(packet: Seq<char>)
    requires
        text::cut(packet, 4) is Some,
    ensures
        packet == tag_of(packet) + body_of(packet),
        text::width(tag_of(packet)) == 4,
{
    text::cuts_have_their_width(packet, 4);
    text::lemma_longer_cut(packet, 4, 4);
    assert(packet =~= tag_of(packet) + body_of(packet));
}

/// A size is read in hexadecimal behind either mark, and in decimal without one.
pub proof fn sizes_are_read_in_both_bases(n: nat, upper: bool)
    ensures
        size_in("0x"@ + text::digits(n, 16, upper)) == Some(n),
        size_in("0X"@ + text::digits(n, 16, upper)) == Some(n),
        size_in(text::decimal(n)) == Some(n),
{
    reveal_strlit("0x");
    reveal_strlit("0X");
    let hex = text::digits(n, 16, upper);
    let dec = text::decimal(n);
    text::spelled_numbers_are_read_back(n, 16, upper);
    text::spelled_numbers_are_read_back(n, 10, false);
    text::prefixes_come_first("0x"@, "0x"@, hex);
    text::prefixes_come_first("0X"@, "0X"@, hex);
    assert(("0x"@ + hex).skip(2) =~= hex);
    assert(("0X"@ + hex).skip(2) =~= hex);
    if dec.len() >= 2 {
        assert(text::digit_value(dec[1], 10) is Some);
        assert(dec.subrange(0, 2)[1] == dec[1]);
    }
}

/// A size is hexadecimal exactly behind `0x` or `0X`, and then it is all that stands behind that.
pub proof fn marks_decide_the_base(raw: Seq<char>)
    ensures
        raw.len() >= 2 && raw[0] == '0' && (raw[1] == 'x' || raw[1] == 'X') ==> size_in(raw) == text::number_in(
            raw.skip(2),
            16,
        ),
        !(raw.len() >= 2 && raw[0] == '0' && (raw[1] == 'x' || raw[1] == 'X')) ==> size_in(raw) == text::number_in(
            raw,
            10,
        ),
{
    reveal_strlit("0x");
    reveal_strlit("0X");
    if raw.len() >= 2 {
        let mark = raw.subrange(0, 2);
        assert(mark[0] == raw[0] && mark[1] == raw[1]);
        assert(mark == "0x"@ <==> raw[0] == '0' && raw[1] == 'x') by {
            if raw[0] == '0' && raw[1] == 'x' {
                assert(mark =~= "0x"@);
            }
        }
        assert(mark == "0X"@ <==> raw[0] == '0' && raw[1] == 'X') by {
            if raw[0] == '0' && raw[1] == 'X' {
                assert(mark =~= "0X"@);
            }
        }
    }
}

/// A device that does not say how much it takes is taken to take 112 MiB, and a packet has
/// 64 bytes.
pub proof fn limits_have_their_values()
    ensures
        DEFAULT_MAX_DOWNLOAD_BYTES == 117440512,
        PACKET_BYTES == 64,
        unintelligible() == "device sent an unintelligible reply"@,
{
}

} // verus!
