//! Fastboot commands: how they are spelled, and the limit on their length.
use vstd::prelude::*;
use vstd::utf8::*;

use crate::bytes;
use crate::error;
use crate::error::Error;
use crate::text;

verus! {

/// Most bytes of a command. U-Boot cuts a longer one off without complaint.
pub const MAX_COMMAND_BYTES: usize = 64;

/// Where a download lands in memory.
pub const FASTBOOT_BUF_ADDR: u32 = 0x6000000;

/// Milliseconds that a command and its reply may take.
pub const COMMAND_MILLIS: u64 = 10000;

/// Milliseconds that the reply to a command that waits for the eMMC may take.
pub const COMMIT_MILLIS: u64 = 300000;

/// A fastboot command.
pub enum Command {
    GetVar { name: String },
    /// Announce a download.
    Download { size: u64 },
    /// Write what was downloaded last to a partition.
    Flash { partition: String },
    Erase { partition: String },
    /// Run a U-Boot command and bring back its output.
    Console { line: String },
    /// Bring back pending output.
    DrainConsole,
    /// Point a partition alias at a range of sectors.
    SetRawTarget { alias: String, start_lba: u64, sectors: u64 },
    /// Drop a partition alias.
    ClearRawTarget { alias: String },
    /// Select a hardware partition of the eMMC.
    SelectHwpart { hwpart: u8 },
    /// Import the downloaded text environment.
    ImportEnv { size: u64 },
    /// Save the environment.
    SaveEnv,
    Reboot,
    RebootBootloader,
    /// Hand the device back to the boot ROM.
    RebootMaskrom,
    Continue,
    /// Set the active slot.
    SetActive { slot: String },
}

impl Command {
    /// What the command line says.
    pub open spec fn line(self) -> Seq<char> {
        match self {
            Command::GetVar { name } => "getvar:"@ + name@,
            Command::Download { size } => "download:"@ + text::zero_padded(text::digits(size as nat, 16, false), 8),
            Command::Flash { partition } => "flash:"@ + partition@,
            Command::Erase { partition } => "erase:"@ + partition@,
            Command::Console { line } => "oem console "@ + line@,
            Command::DrainConsole => "oem console"@,
            Command::SetRawTarget { alias, start_lba, sectors } => "oem console setenv fastboot_raw_partition_"@
                + alias@ + " "@ + text::decimal(start_lba as nat) + " "@ + text::decimal(sectors as nat),
            Command::ClearRawTarget { alias } => "oem console setenv fastboot_raw_partition_"@ + alias@,
            Command::SelectHwpart { hwpart } => "oem console mmc dev 0 "@ + text::decimal(hwpart as nat),
            Command::ImportEnv { size } => "oem console env import -t "@ + text::hex_lower(FASTBOOT_BUF_ADDR as nat)
                + " "@ + text::decimal(size as nat),
            Command::SaveEnv => "oem console saveenv"@,
            Command::Reboot => "reboot"@,
            Command::RebootBootloader => "reboot-bootloader"@,
            Command::RebootMaskrom => "oem maskrom"@,
            Command::Continue => "continue"@,
            Command::SetActive { slot } => "set_active:"@ + slot@,
        }
    }

    /// Whether the reply may have to wait for the eMMC.
    pub open spec fn commits(self) -> bool {
        match self {
            Command::Flash { .. } | Command::Erase { .. } | Command::Console { .. } | Command::SetRawTarget { .. }
            | Command::ClearRawTarget { .. } | Command::SelectHwpart { .. } | Command::ImportEnv { .. }
            | Command::SaveEnv => true,
            _ => false,
        }
    }

    fn joined(head: &str, tail: &str) -> (line: String)
        ensures
            line@ == head@ + tail@,
    {
        let mut line = head.to_owned();
        line.append(tail);
        line
    }

    /// Spells the command line.
    pub fn render(&self) -> (line: String)
        ensures
            line@ == self.line(),
    {
        match self {
            Command::GetVar { name } => Self::joined("getvar:", name.as_str()),
            Command::Download { size } => {
                let mut line = "download:".to_owned();
                text::push_hex_padded(&mut line, *size, 8);
                line
            },
            Command::Flash { partition } => Self::joined("flash:", partition.as_str()),
            Command::Erase { partition } => Self::joined("erase:", partition.as_str()),
            Command::Console { line } => Self::joined("oem console ", line.as_str()),
            Command::DrainConsole => "oem console".to_owned(),
            Command::SetRawTarget { alias, start_lba, sectors } => {
                let mut line = Self::joined("oem console setenv fastboot_raw_partition_", alias.as_str());
                line.append(" ");
                text::push_decimal(&mut line, *start_lba);
                line.append(" ");
                text::push_decimal(&mut line, *sectors);
                line
            },
            Command::ClearRawTarget { alias } => {
                Self::joined("oem console setenv fastboot_raw_partition_", alias.as_str())
            },
            Command::SelectHwpart { hwpart } => {
                let mut line = "oem console mmc dev 0 ".to_owned();
                text::push_decimal(&mut line, *hwpart as u64);
                line
            },
            Command::ImportEnv { size } => {
                let mut line = "oem console env import -t ".to_owned();
                text::push_hex(&mut line, FASTBOOT_BUF_ADDR as u64, false);
                line.append(" ");
                text::push_decimal(&mut line, *size);
                line
            },
            Command::SaveEnv => "oem console saveenv".to_owned(),
            Command::Reboot => "reboot".to_owned(),
            Command::RebootBootloader => "reboot-bootloader".to_owned(),
            Command::RebootMaskrom => "oem maskrom".to_owned(),
            Command::Continue => "continue".to_owned(),
            Command::SetActive { slot } => Self::joined("set_active:", slot.as_str()),
        }
    }

    /// How long to wait for the reply.
    pub fn reply_millis(&self) -> (millis: u64)
        ensures
            millis == (if self.commits() {
                COMMIT_MILLIS
            } else {
                COMMAND_MILLIS
            }),
    {
        match self {
            Command::Flash { .. } | Command::Erase { .. } | Command::Console { .. } | Command::SetRawTarget { .. }
            | Command::ClearRawTarget { .. } | Command::SelectHwpart { .. } | Command::ImportEnv { .. }
            | Command::SaveEnv => COMMIT_MILLIS,
            _ => COMMAND_MILLIS,
        }
    }
}

/// The bytes of a command line; one over the limit is refused.
pub fn encode_command(line: &str) -> (encoded: Result<Vec<u8>, Error>)
    ensures
        encoded is Ok <==> encode_utf8(line@).len() <= 64,
        encoded matches Ok(sent) ==> sent@ == encode_utf8(line@),
        encoded matches Err(e) ==> error::is_fastboot(
            e,
            line@,
            "command is "@ + text::decimal(encode_utf8(line@).len()) + " bytes, over the "@ + text::decimal(
                MAX_COMMAND_BYTES as nat,
            ) + "-byte fastboot limit"@,
        ),
{
    let spelled = line.as_bytes();
    let length: usize = spelled.len();
    if length > MAX_COMMAND_BYTES {
        let mut reason = "command is ".to_owned();
        text::push_decimal(&mut reason, length as u64);
        reason.append(" bytes, over the ");
        text::push_decimal(&mut reason, MAX_COMMAND_BYTES as u64);
        reason.append("-byte fastboot limit");
        return Err(Error::Fastboot { command: line.to_owned(), reason });
    }
    let sent = bytes::copy_between(spelled, 0, length);
    assert(sent@ =~= encode_utf8(line@));
    Ok(sent)
}

/// Ten to the power `k`.
pub open spec fn power_of_ten(k: nat) -> nat
    decreases k,
{
    if k == 0 {
        1
    } else {
        10 * power_of_ten((k - 1) as nat)
    }
}

/// A number below a power of ten has no more digits than that power has zeros, and all of them are ASCII.
proof fn lemma_decimal_digits(n: nat, k: nat)
    requires
        k >= 1,
        n < power_of_ten(k),
    ensures
        text::decimal(n).len() <= k,
        is_ascii_chars(text::decimal(n)),
    decreases k,
{
    reveal_with_fuel(power_of_ten, 2);
    if n >= 10 {
        lemma_decimal_digits(n / 10, (k - 1) as nat);
    }
}

/// Any alias of two ASCII characters can be pointed at any range below sector ten to the tenth that has fewer than
/// ten to the eighth sectors: the command keeps to the limit.
pub proof fn raw_target_fits(alias: String, start_lba: u64, sectors: u64)
    requires
        alias@.len() == 2,
        is_ascii_chars(alias@),
        start_lba < 1_00000_00000,
        sectors < 1_0000_0000,
    ensures
        encode_utf8((Command::SetRawTarget { alias, start_lba, sectors }).line()).len() <= 64,
{
    let line = (Command::SetRawTarget { alias, start_lba, sectors }).line();
    reveal_strlit("oem console setenv fastboot_raw_partition_");
    reveal_strlit(" ");
    reveal_with_fuel(power_of_ten, 11);
    lemma_decimal_digits(start_lba as nat, 10);
    lemma_decimal_digits(sectors as nat, 8);
    assert(is_ascii_chars("oem console setenv fastboot_raw_partition_"@));
    assert(is_ascii_chars(line));
    is_ascii_chars_encode_utf8(line);
}

/// Selects a hardware partition of the eMMC: the user area, or one of the two boot partitions.
pub fn select_hwpart(hwpart: u8) -> (command: Result<Command, Error>)
    ensures
        command is Ok <==> hwpart <= 2,
        command matches Ok(c) ==> c == (Command::SelectHwpart { hwpart }),
        command matches Err(e) ==> error::is_invalid(
            e,
            "eMMC hwpart must be 0, 1 or 2, got "@ + text::decimal(hwpart as nat),
        ),
{
    if hwpart > 2 {
        let mut shown = "eMMC hwpart must be 0, 1 or 2, got ".to_owned();
        text::push_decimal(&mut shown, hwpart as u64);
        return Err(Error::InvalidOperation(shown));
    }
    Ok(Command::SelectHwpart { hwpart })
}

/// Every command line word for word.
pub proof fn lines_are_spelled_out(
    name: String,
    size: u64,
    start_lba: u64,
    sectors: u64,
    hwpart: u8,
)
    ensures
        (Command::GetVar { name }).line() == "getvar:"@ + name@,
        (Command::Flash { partition: name }).line() == "flash:"@ + name@,
        (Command::Erase { partition: name }).line() == "erase:"@ + name@,
        (Command::Console { line: name }).line() == "oem console "@ + name@,
        Command::DrainConsole.line() == "oem console"@,
        (Command::SetRawTarget { alias: name, start_lba, sectors }).line()
            == "oem console setenv fastboot_raw_partition_"@ + name@ + " "@ + text::decimal(start_lba as nat) + " "@
            + text::decimal(sectors as nat),
        (Command::ClearRawTarget { alias: name }).line() == "oem console setenv fastboot_raw_partition_"@ + name@,
        (Command::SelectHwpart { hwpart }).line() == "oem console mmc dev 0 "@ + text::decimal(hwpart as nat),
        (Command::ImportEnv { size }).line() == "oem console env import -t 0x6000000 "@ + text::decimal(size as nat),
        Command::SaveEnv.line() == "oem console saveenv"@,
        Command::Reboot.line() == "reboot"@,
        Command::RebootBootloader.line() == "reboot-bootloader"@,
        Command::RebootMaskrom.line() == "oem maskrom"@,
        Command::Continue.line() == "continue"@,
        (Command::SetActive { slot: name }).line() == "set_active:"@ + name@,
{
    reveal_strlit(" ");
    reveal_strlit("oem console env import -t ");
    reveal_strlit("oem console env import -t 0x6000000 ");
    reveal_with_fuel(text::digits, 8);
    assert(text::hex_lower(FASTBOOT_BUF_ADDR as nat) =~= seq!['0', 'x', '6', '0', '0', '0', '0', '0', '0']);
    assert("oem console env import -t "@ + seq!['0', 'x', '6', '0', '0', '0', '0', '0', '0'] + " "@
        =~= "oem console env import -t 0x6000000 "@);
}

/// A download is announced with its size in at least eight hexadecimal digits, which read back as that size.
pub proof fn downloads_are_announced_in_hex(size: u64)
    ensures
        ({
            let line = (Command::Download { size }).line();
            &&& line.take(9) == "download:"@
            &&& line.len() >= 17
            &&& size < 0x1_0000_0000 ==> line.len() == 17
            &&& text::number_in(line.skip(9), 16) == Some(size as nat)
        }),
{
    reveal_strlit("download:");
    let shown = text::digits(size as nat, 16, false);
    let line = (Command::Download { size }).line();
    text::padding_puts_zeros_in_front(shown, 8);
    text::spelled_numbers_are_read_back(size as nat, 16, false);
    assert(line.take(9) =~= "download:"@);
    let digits = text::zero_padded(shown, 8);
    assert(line.skip(9) =~= digits);
    lemma_leading_zeros(shown, (digits.len() - shown.len()) as nat);
    assert(digits =~= Seq::new((digits.len() - shown.len()) as nat, |i: int| '0') + shown);
    assert(digits[0] != '+') by {
        if digits.len() == shown.len() {
            assert(text::digit_value(shown[0], 16) is Some);
        }
    }
    assert(text::behind_plus(digits) == digits);
    if size < 0x1_0000_0000 {
        reveal_with_fuel(power_of_sixteen, 9);
        lemma_hex_below(size as nat, 8);
    }
}

/// Zeros in front of a number do not change it.
proof fn lemma_leading_zeros(shown: Seq<char>, count: nat)
    requires
        text::all_digits(shown, 16),
    ensures
        ({
            let whole = Seq::new(count, |i: int| '0') + shown;
            text::all_digits(whole, 16) && text::number_of(whole, 16) == text::number_of(shown, 16)
        }),
    decreases shown.len(), count,
{
    let zeros = Seq::new(count, |i: int| '0');
    let whole = zeros + shown;
    assert forall|i: int| 0 <= i < whole.len() implies (#[trigger] text::digit_value(whole[i], 16)) is Some by {
        if i >= count {
            assert(text::digit_value(shown[i - count], 16) is Some);
        }
    }
    if shown.len() > 0 {
        let less = shown.drop_last();
        assert forall|i: int| 0 <= i < less.len() implies (#[trigger] text::digit_value(less[i], 16)) is Some by {
            assert(text::digit_value(shown[i], 16) is Some);
        }
        lemma_leading_zeros(less, count);
        assert(whole.drop_last() =~= zeros + less);
    } else if count > 0 {
        lemma_leading_zeros(shown, (count - 1) as nat);
        assert(whole.drop_last() =~= Seq::new((count - 1) as nat, |i: int| '0') + shown);
    }
}

/// Sixteen to the power `k`.
spec fn power_of_sixteen(k: nat) -> nat
    decreases k,
{
    if k == 0 {
        1
    } else {
        16 * power_of_sixteen((k - 1) as nat)
    }
}

/// A number below a power of sixteen has no more hexadecimal digits than that power has zeros.
proof fn lemma_hex_below(n: nat, k: nat)
    requires
        k >= 1,
        n < power_of_sixteen(k),
    ensures
        text::digits(n, 16, false).len() <= k,
    decreases k,
{
    reveal_with_fuel(power_of_sixteen, 2);
    if n >= 16 {
        lemma_hex_below(n / 16, (k - 1) as nat);
    }
}

/// What writes to the eMMC, or may, is waited for five minutes, and everything else ten seconds.
pub proof fn writes_are_waited_for(command: Command)
    ensures
        command.commits() <==> (command is Flash || command is Erase || command is Console || command is SetRawTarget
            || command is ClearRawTarget || command is SelectHwpart || command is ImportEnv || command is SaveEnv),
        COMMIT_MILLIS == 300000,
        COMMAND_MILLIS == 10000,
{
}

} // verus!
