//! Vendor U-Boot commands: how they are spelled, sent and answered.
use vstd::prelude::*;
use vstd::utf8::*;

use super::memory::ControlOut;
use super::{memory, REQ_BULKCMD};
use crate::bytes;
use crate::error;
use crate::error::Error;
use crate::text;

verus! {

/// Where data is staged before a command picks it up.
pub const ADDR_TMP: u32 = 0x1080000;

/// Bytes of the buffer that a response is read into.
pub const RESPONSE_BYTES: usize = 512;

/// A vendor U-Boot command.
pub enum Command {
    /// Select the eMMC.
    SelectDevice,
    /// Select a hardware partition of the eMMC.
    SelectHwpart { hwpart: u8 },
    /// Unlock the storage for writing.
    UnlockKey,
    /// Write staged sectors to the user area.
    WriteSectors { lba: u64, sectors: u64 },
    /// Write staged sectors to the start of a boot hardware partition.
    WriteBoot { sectors: u64 },
    /// Erase sectors of the user area.
    EraseSectors { lba: u64, sectors: u64 },
    /// Read bytes of a named partition into the staging area.
    ReadPartition { name: String, offset: u64, length: u64 },
    /// Write staged bytes to a named partition.
    WritePartition { name: String, offset: u64, length: u64 },
    /// Set up the environment.
    InitEnv,
    /// Import a staged text environment.
    ImportEnv { size: u64 },
}


impl Command {
    /// What the command line says.
    pub open spec fn line(self) -> Seq<char> {
        match self {
            Command::SelectDevice => "mmc dev 1"@,
            Command::SelectHwpart { hwpart } => "mmc dev 1 "@ + text::decimal(hwpart as nat),
            Command::UnlockKey => "amlmmc key"@,
            Command::WriteSectors { lba, sectors } => "mmc write "@ + text::hex_upper(ADDR_TMP as nat) + " "@
                + text::hex_upper(lba as nat) + " "@ + text::hex_upper(sectors as nat),
            Command::WriteBoot { sectors } => "mmc write "@ + text::hex_upper(ADDR_TMP as nat) + " 0 "@
                + text::hex_upper(sectors as nat),
            Command::EraseSectors { lba, sectors } => "mmc erase "@ + text::hex_upper(lba as nat) + " "@
                + text::hex_upper(sectors as nat),
            Command::ReadPartition { name, offset, length } => "amlmmc read "@ + name@ + " "@ + text::hex_lower(
                ADDR_TMP as nat,
            ) + " "@ + text::hex_lower(offset as nat) + " "@ + text::hex_lower(length as nat),
            Command::WritePartition { name, offset, length } => "amlmmc write "@ + name@ + " "@ + text::hex_lower(
                ADDR_TMP as nat,
            ) + " "@ + text::hex_lower(offset as nat) + " "@ + text::hex_lower(length as nat),
            Command::InitEnv => "amlmmc env"@,
            Command::ImportEnv { size } => "env import -t "@ + text::hex_upper(ADDR_TMP as nat) + " "@
                + text::hex_upper(size as nat),
        }
    }

    fn partition_line(verb: &str, name: &str, offset: u64, length: u64) -> (line: String)
        ensures
            line@ == verb@ + name@ + " "@ + text::hex_lower(ADDR_TMP as nat) + " "@ + text::hex_lower(offset as nat)
                + " "@ + text::hex_lower(length as nat),
    {
        let mut line = verb.to_owned();
        line.append(name);
        line.append(" ");
        text::push_hex(&mut line, ADDR_TMP as u64, false);
        line.append(" ");
        text::push_hex(&mut line, offset, false);
        line.append(" ");
        text::push_hex(&mut line, length, false);
        line
    }

    /// Spells the command line.
    pub fn render(&self) -> (line: String)
        ensures
            line@ == self.line(),
    {
        match self {
            Command::SelectDevice => "mmc dev 1".to_owned(),
            Command::SelectHwpart { hwpart } => {
                let mut line = "mmc dev 1 ".to_owned();
                text::push_decimal(&mut line, *hwpart as u64);
                line
            },
            Command::UnlockKey => "amlmmc key".to_owned(),
            Command::WriteSectors { lba, sectors } => {
                let mut line = "mmc write ".to_owned();
                text::push_hex(&mut line, ADDR_TMP as u64, true);
                line.append(" ");
                text::push_hex(&mut line, *lba, true);
                line.append(" ");
                text::push_hex(&mut line, *sectors, true);
                line
            },
            Command::WriteBoot { sectors } => {
                let mut line = "mmc write ".to_owned();
                text::push_hex(&mut line, ADDR_TMP as u64, true);
                line.append(" 0 ");
                text::push_hex(&mut line, *sectors, true);
                line
            },
            Command::EraseSectors { lba, sectors } => {
                let mut line = "mmc erase ".to_owned();
                text::push_hex(&mut line, *lba, true);
                line.append(" ");
                text::push_hex(&mut line, *sectors, true);
                line
            },
            Command::ReadPartition { name, offset, length } => {
                Self::partition_line("amlmmc read ", name.as_str(), *offset, *length)
            },
            Command::WritePartition { name, offset, length } => {
                Self::partition_line("amlmmc write ", name.as_str(), *offset, *length)
            },
            Command::InitEnv => "amlmmc env".to_owned(),
            Command::ImportEnv { size } => {
                let mut line = "env import -t ".to_owned();
                text::push_hex(&mut line, ADDR_TMP as u64, true);
                line.append(" ");
                text::push_hex(&mut line, *size, true);
                line
            },
        }
    }
}

/// The transfer that runs a command: its bytes and a zero byte.
pub fn bulkcmd(line: &str) -> (transfer: ControlOut)
    ensures
        memory::sends(transfer, REQ_BULKCMD, 0, 0, encode_utf8(line@).push(0)),
        transfer.request == 0x34 && transfer.value == 0 && transfer.index == 0,
        transfer.data@ == encode_utf8(line@) + seq![0u8],
{
    let spelled = line.as_bytes();
    let mut data = bytes::copy_between(spelled, 0, spelled.len());
    data.push(0);
    assert(data@ =~= encode_utf8(line@).push(0));
    assert(data@ =~= encode_utf8(line@) + seq![0u8]);
    ControlOut { request: REQ_BULKCMD, value: 0, index: 0, data }
}

/// The data without the zero bytes at its two ends.
pub open spec fn without_outer_zeros(data: Seq<u8>) -> Seq<u8>
    decreases data.len(),
{
    if data.len() == 0 {
        data
    } else if data.first() == 0 {
        without_outer_zeros(data.drop_first())
    } else if data.last() == 0 {
        without_outer_zeros(data.drop_last())
    } else {
        data
    }
}

/// Drops the zero bytes at the two ends.
fn strip_outer_zeros(data: &[u8]) -> (inner: Vec<u8>)
    ensures
        inner@ == without_outer_zeros(data@),
{
    let mut from: usize = 0;
    let mut to: usize = data.len();
    assert(data@.subrange(0, data@.len() as int) =~= data@);
    while from < to && data[from] == 0
        invariant
            from <= to == data@.len(),
            without_outer_zeros(data@.subrange(from as int, to as int)) == without_outer_zeros(data@),
        decreases to - from,
    {
        assert(data@.subrange(from as int, to as int).drop_first() =~= data@.subrange(from + 1, to as int));
        from = from + 1;
    }
    while from < to && data[to - 1] == 0
        invariant
            from <= to <= data@.len(),
            from < to ==> data@[from as int] != 0,
            without_outer_zeros(data@.subrange(from as int, to as int)) == without_outer_zeros(data@),
        decreases to - from,
    {
        assert(data@.subrange(from as int, to as int).drop_last() =~= data@.subrange(from as int, to - 1));
        to = to - 1;
    }
    bytes::copy_between(data, from, to)
}

/// Whether a response reports success: it says so in any mixture of cases.
pub open spec fn reports_success(response: Seq<char>) -> bool {
    text::has_part(text::lowered(response), "success"@)
}

/// Judges a response by its lower-case form: it has to say `success`.
pub fn judge_response(response: String, lower: &str) -> (judged: Result<String, Error>)
    ensures
        judged is Ok <==> text::has_part(lower@, "success"@),
        judged matches Ok(shown) ==> shown@ == response@,
        judged matches Err(e) ==> error::is_invalid(
            e,
            "Bulk command failed, response did not contain 'success': "@ + response@,
        ),
{
    if !text::contains(lower, "success") {
        let mut shown = "Bulk command failed, response did not contain 'success': ".to_owned();
        shown.append(response.as_str());
        return Err(Error::InvalidOperation(shown));
    }
    Ok(response)
}

/// Reads the response to a command. `reply` is what the device sent.
pub fn bulkcmd_reply(reply: &[u8]) -> (response: Result<String, Error>)
    ensures
        ({
            let inner = without_outer_zeros(reply@);
            match response {
                Ok(shown) => {
                    &&& reply@.len() > 0
                    &&& valid_utf8(inner)
                    &&& reports_success(decode_utf8(inner))
                    &&& shown@ == decode_utf8(inner)
                },
                Err(e) => if reply@.len() == 0 {
                    error::is_invalid(e, "No response received for bulk command"@)
                } else if !valid_utf8(inner) {
                    e is Utf8Error
                } else {
                    &&& !reports_success(decode_utf8(inner))
                    &&& error::is_invalid(
                        e,
                        "Bulk command failed, response did not contain 'success': "@ + decode_utf8(inner),
                    )
                },
            }
        }),
{
    if reply.len() == 0 {
        return Err(error::invalid("No response received for bulk command"));
    }
    let inner = strip_outer_zeros(reply);
    let response = match text::from_utf8(inner) {
        Ok(response) => response,
        Err(e) => return Err(Error::Utf8Error(e)),
    };
    let lower = text::lower(response.as_str());
    judge_response(response, lower.as_str())
}

/// The staging area is spelled the same in every command.
proof fn lemma_staging_address()
    ensures
        text::hex_upper(ADDR_TMP as nat) == seq!['0', 'x', '1', '0', '8', '0', '0', '0', '0'],
        text::hex_lower(ADDR_TMP as nat) == seq!['0', 'x', '1', '0', '8', '0', '0', '0', '0'],
{
    reveal_with_fuel(text::digits, 8);
    assert(text::hex_upper(ADDR_TMP as nat) =~= seq!['0', 'x', '1', '0', '8', '0', '0', '0', '0']);
    assert(text::hex_lower(ADDR_TMP as nat) =~= seq!['0', 'x', '1', '0', '8', '0', '0', '0', '0']);
}

/// Every command line word for word: the device is 1, data is staged at 0x1080000, and the numbers come in the order
/// of place, then amount.
pub proof fn lines_are_spelled_out(hwpart: u8, lba: u64, sectors: u64, name: String, offset: u64, length: u64)
    ensures
        Command::SelectDevice.line() == "mmc dev 1"@,
        (Command::SelectHwpart { hwpart }).line() == "mmc dev 1 "@ + text::decimal(hwpart as nat),
        Command::UnlockKey.line() == "amlmmc key"@,
        (Command::WriteSectors { lba, sectors }).line() == "mmc write 0x1080000 "@ + text::hex_upper(lba as nat) + " "@
            + text::hex_upper(sectors as nat),
        (Command::WriteBoot { sectors }).line() == "mmc write 0x1080000 0 "@ + text::hex_upper(sectors as nat),
        (Command::EraseSectors { lba, sectors }).line() == "mmc erase "@ + text::hex_upper(lba as nat) + " "@
            + text::hex_upper(sectors as nat),
        (Command::ReadPartition { name, offset, length }).line() == "amlmmc read "@ + name@ + " 0x1080000 "@
            + text::hex_lower(offset as nat) + " "@ + text::hex_lower(length as nat),
        (Command::WritePartition { name, offset, length }).line() == "amlmmc write "@ + name@ + " 0x1080000 "@
            + text::hex_lower(offset as nat) + " "@ + text::hex_lower(length as nat),
        Command::InitEnv.line() == "amlmmc env"@,
        (Command::ImportEnv { size: length }).line() == "env import -t 0x1080000 "@ + text::hex_upper(length as nat),
{
    lemma_staging_address();
    reveal_strlit(" ");
    reveal_strlit(" 0 ");
    reveal_strlit("mmc write ");
    reveal_strlit("mmc write 0x1080000 ");
    reveal_strlit("mmc write 0x1080000 0 ");
    reveal_strlit(" 0x1080000 ");
    reveal_strlit("env import -t ");
    reveal_strlit("env import -t 0x1080000 ");
    let at = seq!['0', 'x', '1', '0', '8', '0', '0', '0', '0'];
    assert("mmc write "@ + at + " "@ =~= "mmc write 0x1080000 "@);
    assert("mmc write "@ + at + " 0 "@ =~= "mmc write 0x1080000 0 "@);
    assert(" "@ + at + " "@ =~= " 0x1080000 "@);
    assert("env import -t "@ + at + " "@ =~= "env import -t 0x1080000 "@);
    let from = text::hex_lower(offset as nat);
    let count = text::hex_lower(length as nat);
    assert("amlmmc read "@ + name@ + " "@ + at + " "@ + from + " "@ + count =~= "amlmmc read "@ + name@ + (" "@ + at
        + " "@) + from + " "@ + count);
    assert("amlmmc write "@ + name@ + " "@ + at + " "@ + from + " "@ + count =~= "amlmmc write "@ + name@ + (" "@ + at
        + " "@) + from + " "@ + count);
}

/// Dropping zeros takes them off both ends and leaves what is between.
pub proof fn outer_zeros_are_dropped(before: nat, middle: Seq<u8>, behind: nat)
    requires
        middle.len() > 0 ==> middle.first() != 0 && middle.last() != 0,
    ensures
        without_outer_zeros(Seq::new(before, |i: int| 0u8) + middle + Seq::new(behind, |i: int| 0u8)) == middle,
    decreases before + behind,
{
    let head = Seq::new(before, |i: int| 0u8);
    let tail = Seq::new(behind, |i: int| 0u8);
    let whole = head + middle + tail;
    if before > 0 {
        let shorter = Seq::new((before - 1) as nat, |i: int| 0u8);
        assert(whole.drop_first() =~= shorter + middle + tail);
        outer_zeros_are_dropped((before - 1) as nat, middle, behind);
    } else if behind > 0 {
        let shorter = Seq::new((behind - 1) as nat, |i: int| 0u8);
        if middle.len() == 0 {
            assert(whole.drop_first() =~= head + middle + shorter);
        } else {
            assert(whole.drop_last() =~= head + middle + shorter);
        }
        outer_zeros_are_dropped(before, middle, (behind - 1) as nat);
    } else {
        assert(whole =~= middle);
    }
}

/// An ASCII response reports success exactly when the seven letters of the word stand in it somewhere, each in either
/// case.
pub proof fn success_is_told_in_any_case(response: Seq<char>)
    requires
        is_ascii_chars(response),
    ensures
        reports_success(response) <==> exists|at: int|
            0 <= at <= response.len() - 7 && #[trigger] text::ascii_lowered(response).subrange(at, at + 7) == seq![
                's',
                'u',
                'c',
                'c',
                'e',
                's',
                's',
            ],
{
    reveal_strlit("success");
    let lower = text::ascii_lowered(response);
    let word = seq!['s', 'u', 'c', 'c', 'e', 's', 's'];
    assert("success"@ =~= word);
    if exists|at: int| 0 <= at <= response.len() - 7 && #[trigger] lower.subrange(at, at + 7) == word {
        let at = choose|at: int| 0 <= at <= response.len() - 7 && #[trigger] lower.subrange(at, at + 7) == word;
        assert(text::stands_at(lower, word, at));
    }
    if reports_success(response) {
        let at = choose|at: int| text::stands_at(lower, "success"@, at);
        assert(lower.subrange(at, at + 7) == word);
    }
}

/// A response is read in one packet of 512 bytes.
pub proof fn responses_have_their_size()
    ensures
        RESPONSE_BYTES == 512,
{
}

} // verus!
