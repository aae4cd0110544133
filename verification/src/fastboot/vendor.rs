//! Vendor commands on mainline U-Boot, and what its console output says about a command.
use vstd::prelude::*;

use crate::error;
use crate::error::Error;
use crate::text;

verus! {

/// Whether a lower-case command has no meaning on mainline U-Boot: it sets up the vendor's partition table or keys.
pub open spec fn is_vendor_only(lower: Seq<char>) -> bool {
    ||| text::has_prefix(lower, "disk_initial"@)
    ||| text::has_prefix(lower, "amlmmc key"@)
    ||| text::has_prefix(lower, "amlmmc part"@)
    ||| text::has_prefix(lower, "amlmmc partition"@)
}

/// Whether a lower-case command selects the eMMC under its vendor number, with or without more behind it.
pub open spec fn selects_vendor_device(lower: Seq<char>) -> bool {
    text::has_number(lower, "mmc dev 1"@) || text::has_number(lower, "amlmmc dev 1"@)
}

/// What becomes of a command without outer white space, by its lower-case form.
///
/// A command of `mmc` itself is no vendor-only one. Selecting a device takes only characters that are the lower case
/// of nothing outside ASCII, so the command's own ASCII letters tell.
pub open spec fn translated(command: Seq<char>, lower: Seq<char>) -> Option<Seq<char>> {
    if !text::has_prefix(command, "mmc"@) && is_vendor_only(lower) {
        None
    } else if selects_vendor_device(text::ascii_lowered(command)) {
        Some("mmc dev 0 0"@)
    } else if text::has_prefix(command, "amlmmc"@) {
        Some("mmc"@ + command.skip(6))
    } else {
        Some(command)
    }
}

fn vendor_only(lower: &str) -> (found: bool)
    ensures
        found == is_vendor_only(lower@),
{
    text::starts_with(lower, "disk_initial") || text::starts_with(lower, "amlmmc key") || text::starts_with(
        lower,
        "amlmmc part",
    ) || text::starts_with(lower, "amlmmc partition")
}

/// Rewrites a command without outer white space, by its lower-case form.
pub fn translate_lowered(command: &str, lower: &str) -> (rewritten: Option<String>)
    ensures
        is_rewritten(rewritten, translated(command@, lower@)),
{
    if !text::starts_with(command, "mmc") && vendor_only(lower) {
        return None;
    }
    let small = text::ascii_lower_text(command);
    if text::starts_with_number(small.as_str(), "mmc dev 1") || text::starts_with_number(
        small.as_str(),
        "amlmmc dev 1",
    ) {
        return Some("mmc dev 0 0".to_owned());
    }
    match text::strip_prefix(command, "amlmmc") {
        Some(rest) => {
            proof {
                reveal_strlit("amlmmc");
                assert(rest@ =~= command@.skip(6));
            }
            let mut line = "mmc".to_owned();
            line.append(rest.as_str());
            Some(line)
        },
        None => Some(command.to_owned()),
    }
}

/// Whether a rewritten command is the given one, or both are missing.
pub open spec fn is_rewritten(rewritten: Option<String>, wanted: Option<Seq<char>>) -> bool {
    match rewritten {
        Some(line) => wanted == Some(line@),
        None => wanted is None,
    }
}

/// What becomes of a command on mainline U-Boot: a line for its console, or nothing.
pub open spec fn rewriting(command: Seq<char>) -> Option<Seq<char>> {
    translated(text::trimmed(command), text::lowered(text::trimmed(command)))
}

/// Rewrites a vendor command for mainline U-Boot, or drops it where it has no meaning there.
pub fn translate_vendor_command(command: &str) -> (rewritten: Option<String>)
    ensures
        is_rewritten(rewritten, rewriting(command@)),
{
    let inner = text::trim(command);
    let lower = text::lower(inner.as_str());
    translate_lowered(inner.as_str(), lower.as_str())
}

/// A command that starts with `mmc` and does not select the vendor's device is left as it is.
proof fn lemma_mmc_is_kept(line: Seq<char>)
    requires
        text::has_prefix(line, "mmc"@),
        !selects_vendor_device(text::ascii_lowered(line)),
        !text::white_space(line.last()),
    ensures
        text::trimmed(line) == line,
        rewriting(line) == Some(line),
        !text::has_prefix(line, "amlmmc"@),
{
    reveal_strlit("mmc");
    reveal_strlit("amlmmc");
    assert(line.subrange(0, 3)[0] == 'm');
    assert(line.len() >= 6 ==> line.subrange(0, 6)[0] == 'm');
}

/// The replacement for selecting the eMMC does not select the vendor's device.
proof fn lemma_replacement()
    ensures
        ({
            let line = "mmc dev 0 0"@;
            &&& text::has_prefix(line, "mmc"@)
            &&& !selects_vendor_device(text::ascii_lowered(line))
            &&& !text::white_space(line.last())
        }),
{
    let line = "mmc dev 0 0"@;
    reveal_strlit("mmc");
    reveal_strlit("mmc dev 0 0");
    reveal_strlit("mmc dev 1");
    reveal_strlit("amlmmc dev 1");
    assert(line.subrange(0, 3) =~= "mmc"@);
    assert(text::ascii_lowered(line).subrange(0, 9)[8] == '0');
}

/// Dropping the vendor's prefix from a command that does not select the vendor's device leaves one that does not.
proof fn lemma_prefix_dropped(inner: Seq<char>)
    requires
        text::has_prefix(inner, "amlmmc"@),
        !selects_vendor_device(text::ascii_lowered(inner)),
    ensures
        ({
            let line = "mmc"@ + inner.skip(6);
            &&& text::has_prefix(line, "mmc"@)
            &&& !selects_vendor_device(text::ascii_lowered(line))
            &&& line.last() == inner.last()
        }),
{
    reveal_strlit("mmc");
    reveal_strlit("amlmmc");
    reveal_strlit("mmc dev 1");
    reveal_strlit("amlmmc dev 1");
    let line = "mmc"@ + inner.skip(6);
    let lower = text::ascii_lowered(line);
    let before = text::ascii_lowered(inner);
    assert forall|i: int| 0 <= i < 6 implies inner[i] == "amlmmc"@[i] by {
        assert(inner[i] == inner.subrange(0, 6)[i]);
    }
    assert(line.subrange(0, 3) =~= "mmc"@);
    assert(before =~= seq!['a', 'm', 'l'] + lower);
    if text::has_prefix(lower, "mmc dev 1"@) {
        assert forall|i: int| 0 <= i < 9 implies lower[i] == "mmc dev 1"@[i] by {
            assert(lower[i] == lower.subrange(0, 9)[i]);
        }
        assert(before.subrange(0, 12) =~= "amlmmc dev 1"@);
    }
    assert(lower[0] == 'm');
    assert(lower.len() >= 12 ==> lower.subrange(0, 12)[0] == 'm');
}

/// A command that was rewritten is not changed by rewriting it again: it has no white space around it, does not start
/// with the vendor's prefix, and does not select the vendor's device in any mixture of cases. White space around a
/// command makes no difference.
pub proof fn rewriting_twice_changes_nothing(command: Seq<char>, line: Seq<char>)
    requires
        rewriting(command) == Some(line),
    ensures
        rewriting(line) == Some(line),
        rewriting(text::trimmed(command)) == Some(line),
        text::trimmed(line) == line,
        !text::has_prefix(line, "amlmmc"@),
        !selects_vendor_device(text::ascii_lowered(line)),
{
    let inner = text::trimmed(command);
    text::lemma_trimmed(command);
    if selects_vendor_device(text::ascii_lowered(inner)) {
        lemma_replacement();
        lemma_mmc_is_kept(line);
    } else if text::has_prefix(inner, "amlmmc"@) {
        reveal_strlit("amlmmc");
        lemma_prefix_dropped(inner);
        lemma_mmc_is_kept(line);
    }
}

/// Whether lower-case output reads like a complaint.
pub open spec fn is_complaint(lower: Seq<char>) -> bool {
    ||| text::has_part(lower, "error"@)
    ||| text::has_part(lower, "failed"@)
    ||| text::has_part(lower, "unknown command"@)
}

/// Whether lower-case output reads like a complaint.
pub fn complains_lowered(lower: &str) -> (found: bool)
    ensures
        found == is_complaint(lower@),
{
    text::contains(lower, "error") || text::contains(lower, "failed") || text::contains(lower, "unknown command")
}

/// Whether console output reads like a complaint, in any mixture of cases. The console reports nothing else of a
/// command that failed.
pub fn complains(output: &str) -> (found: bool)
    ensures
        found == is_complaint(text::lowered(output@)),
{
    let lower = text::lower(output);
    complains_lowered(lower.as_str())
}

/// Whether lower-case output says that U-Boot does not know a command.
pub open spec fn is_unknown(lower: Seq<char>) -> bool {
    text::has_part(lower, "unknown command"@)
}

/// What is wrong with a command by the console output, in its own and in its lower-case form. `quoted` is the quoted
/// form of the command.
pub open spec fn complaint_about(quoted: Seq<char>, output: Seq<char>, lower: Seq<char>) -> Seq<char> {
    if is_unknown(lower) {
        "the bootloader does not understand "@ + quoted
    } else {
        "the bootloader complained: "@ + text::trimmed(output)
    }
}

/// Judges console output, given its lower-case form: a complaint is an error. `quoted` is the quoted form of the
/// command.
pub fn judge_console_lowered(quoted: &str, output: &str, lower: &str) -> (judged: Result<(), Error>)
    ensures
        judged is Ok <==> !is_complaint(lower@),
        judged matches Err(e) ==> error::is_invalid(e, complaint_about(quoted@, output@, lower@)),
{
    if text::contains(lower, "unknown command") {
        let mut shown = "the bootloader does not understand ".to_owned();
        shown.append(quoted);
        return Err(Error::InvalidOperation(shown));
    }
    if complains_lowered(lower) {
        let mut shown = "the bootloader complained: ".to_owned();
        let inner = text::trim(output);
        shown.append(inner.as_str());
        return Err(Error::InvalidOperation(shown));
    }
    Ok(())
}

/// Judges what the console printed for a command.
pub fn judge_console(command: &str, output: &str) -> (judged: Result<(), Error>)
    ensures
        judged is Ok <==> !is_complaint(text::lowered(output@)),
        judged matches Err(e) ==> error::is_invalid(
            e,
            complaint_about(text::debug_text(command@), output@, text::lowered(output@)),
        ),
{
    let lower = text::lower(output);
    let quoted = text::debug_form(command);
    judge_console_lowered(quoted.as_str(), output, lower.as_str())
}

/// A command is dropped exactly when, without the white space around it and in lower case, it starts with one of the
/// three that set up the vendor's partition table and keys. One that is written with `mmc` in front starts with none
/// of them.
pub proof fn only_vendor_setup_is_dropped(command: Seq<char>)
    ensures
        ({
            let inner = text::trimmed(command);
            let lower = text::lowered(inner);
            rewriting(command) is None <==> {
                &&& !(inner.len() >= 3 && inner[0] == 'm' && inner[1] == 'm' && inner[2] == 'c')
                &&& (lower.len() >= 12 && lower.take(12) == "disk_initial"@) || (lower.len() >= 10 && lower.take(10)
                    == "amlmmc key"@) || (lower.len() >= 11 && lower.take(11) == "amlmmc part"@)
            }
        }),
{
    reveal_strlit("mmc");
    reveal_strlit("disk_initial");
    reveal_strlit("amlmmc key");
    reveal_strlit("amlmmc part");
    reveal_strlit("amlmmc partition");
    let inner = text::trimmed(command);
    let lower = text::lowered(inner);
    if text::has_prefix(inner, "mmc"@) {
        assert(inner.subrange(0, 3)[0] == 'm' && inner.subrange(0, 3)[1] == 'm' && inner.subrange(0, 3)[2] == 'c');
    }
    if inner.len() >= 3 && inner[0] == 'm' && inner[1] == 'm' && inner[2] == 'c' {
        assert(inner.subrange(0, 3) =~= "mmc"@);
    }
    if lower.len() >= 12 {
        assert(lower.take(12) =~= lower.subrange(0, 12));
    }
    if lower.len() >= 10 {
        assert(lower.take(10) =~= lower.subrange(0, 10));
    }
    if lower.len() >= 11 {
        assert(lower.take(11) =~= lower.subrange(0, 11));
    }
    if text::has_prefix(lower, "amlmmc partition"@) {
        assert(lower.subrange(0, 11) =~= lower.subrange(0, 16).subrange(0, 11));
        assert("amlmmc partition"@.subrange(0, 11) =~= "amlmmc part"@);
    }
}

/// A command that is not dropped, is none of `amlmmc` and does not select device 1 is passed on as it is, without the
/// white space around it.
pub proof fn other_commands_are_passed_through(command: Seq<char>)
    requires
        ({
            let inner = text::trimmed(command);
            let lower = text::lowered(inner);
            let small = text::ascii_lowered(inner);
            &&& !(lower.len() >= 12 && lower.take(12) == "disk_initial"@)
            &&& !(lower.len() >= 10 && lower.take(10) == "amlmmc key"@)
            &&& !(lower.len() >= 11 && lower.take(11) == "amlmmc part"@)
            &&& !(inner.len() >= 6 && inner.take(6) == "amlmmc"@)
            &&& !(small.len() >= 9 && small.take(9) == "mmc dev 1"@ && (small.len() == 9 || !('0' <= small[9]
                && small[9] <= '9')))
            &&& !(small.len() >= 12 && small.take(12) == "amlmmc dev 1"@ && (small.len() == 12 || !('0' <= small[12]
                && small[12] <= '9')))
        }),
    ensures
        rewriting(command) == Some(text::trimmed(command)),
{
    only_vendor_setup_is_dropped(command);
    reveal_strlit("mmc dev 1");
    reveal_strlit("amlmmc dev 1");
    reveal_strlit("amlmmc");
    let inner = text::trimmed(command);
    let small = text::ascii_lowered(inner);
    if small.len() >= 9 {
        assert(small.take(9) =~= small.subrange(0, 9));
    }
    if small.len() >= 12 {
        assert(small.take(12) =~= small.subrange(0, 12));
    }
    if inner.len() >= 6 {
        assert(inner.take(6) =~= inner.subrange(0, 6));
    }
}

/// Selecting device 1, for `mmc` or for `amlmmc`, in any case and with anything but a digit behind it, becomes
/// selecting the user area of device 0; any other device is left alone.
pub proof fn device_one_becomes_device_zero(command: Seq<char>)
    requires
        rewriting(command) is Some,
    ensures
        ({
            let small = text::ascii_lowered(text::trimmed(command));
            let plain = small.len() >= 9 && small.take(9) == "mmc dev 1"@ && (small.len() == 9 || !('0' <= small[9]
                && small[9] <= '9'));
            let forked = small.len() >= 12 && small.take(12) == "amlmmc dev 1"@ && (small.len() == 12 || !('0'
                <= small[12] && small[12] <= '9'));
            &&& plain || forked ==> rewriting(command) == Some("mmc dev 0 0"@)
            &&& !plain && !forked && rewriting(command) == Some("mmc dev 0 0"@) ==> text::trimmed(command)
                == "mmc dev 0 0"@ || text::trimmed(command) == "amlmmc dev 0 0"@
        }),
{
    reveal_strlit("mmc");
    reveal_strlit("mmc dev 0 0");
    reveal_strlit("amlmmc dev 0 0");
    reveal_strlit("mmc dev 1");
    reveal_strlit("amlmmc dev 1");
    reveal_strlit("amlmmc");
    let inner = text::trimmed(command);
    let small = text::ascii_lowered(inner);
    if small.len() >= 9 {
        assert(small.take(9) =~= small.subrange(0, 9));
    }
    if small.len() >= 12 {
        assert(small.take(12) =~= small.subrange(0, 12));
    }
    if text::has_prefix(inner, "amlmmc"@) {
        text::prefixes_come_first(inner, "amlmmc"@, Seq::empty());
        if "mmc"@ + inner.skip(6) == "mmc dev 0 0"@ {
            assert(inner.skip(6) =~= "mmc dev 0 0"@.skip(3));
            assert(inner =~= "amlmmc dev 0 0"@);
        }
    }
}

/// Any other command of `amlmmc` becomes the same command of `mmc`: the prefix goes, and all behind it stays.
pub proof fn the_fork_becomes_mmc(rest: Seq<char>)
    requires
        ({
            let inner = "amlmmc"@ + rest;
            let lower = text::lowered(inner);
            let small = text::ascii_lowered(inner);
            &&& rest.len() > 0 ==> !text::white_space(rest.last())
            &&& !(lower.len() >= 12 && lower.take(12) == "disk_initial"@)
            &&& !(lower.len() >= 10 && lower.take(10) == "amlmmc key"@)
            &&& !(lower.len() >= 11 && lower.take(11) == "amlmmc part"@)
            &&& !(small.len() >= 12 && small.take(12) == "amlmmc dev 1"@ && (small.len() == 12 || !('0' <= small[12]
                && small[12] <= '9')))
        }),
    ensures
        rewriting("amlmmc"@ + rest) == Some("mmc"@ + rest),
{
    let inner = "amlmmc"@ + rest;
    let small = text::ascii_lowered(inner);
    reveal_strlit("amlmmc");
    reveal_strlit("mmc dev 1");
    reveal_strlit("amlmmc dev 1");
    text::trimming_leaves_the_middle(Seq::empty(), inner, Seq::empty());
    assert(Seq::<char>::empty() + inner + Seq::<char>::empty() =~= inner);
    only_vendor_setup_is_dropped(inner);
    text::prefixes_come_first(inner, "amlmmc"@, rest);
    assert(inner.skip(6) =~= rest);
    assert(small[0] == 'a');
    if small.len() >= 9 {
        assert(small.subrange(0, 9)[0] == 'a');
    }
    if small.len() >= 12 {
        assert(small.take(12) =~= small.subrange(0, 12));
    }
}

/// ASCII output is a complaint exactly when `error`, `failed` or `unknown command` stands in it, in any case.
pub proof fn complaints_are_told_by_their_words(output: Seq<char>)
    requires
        vstd::utf8::is_ascii_chars(output),
    ensures
        ({
            let lower = text::ascii_lowered(output);
            is_complaint(text::lowered(output)) <==> {
                ||| exists|at: int| 0 <= at <= lower.len() - 5 && #[trigger] lower.subrange(at, at + 5) == "error"@
                ||| exists|at: int| 0 <= at <= lower.len() - 6 && #[trigger] lower.subrange(at, at + 6) == "failed"@
                ||| exists|at: int|
                    0 <= at <= lower.len() - 15 && #[trigger] lower.subrange(at, at + 15) == "unknown command"@
            }
        }),
        is_unknown(text::lowered(output)) ==> is_complaint(text::lowered(output)),
{
    reveal_strlit("error");
    reveal_strlit("failed");
    reveal_strlit("unknown command");
    let lower = text::ascii_lowered(output);
    lemma_part(lower, "error"@, 5);
    lemma_part(lower, "failed"@, 6);
    lemma_part(lower, "unknown command"@, 15);
}

/// A part of `count` characters is found exactly where it stands.
proof fn lemma_part(lower: Seq<char>, part: Seq<char>, count: int)
    requires
        part.len() == count,
    ensures
        text::has_part(lower, part) <==> exists|at: int|
            0 <= at <= lower.len() - count && #[trigger] lower.subrange(at, at + count) == part,
{
    if exists|at: int| 0 <= at <= lower.len() - count && #[trigger] lower.subrange(at, at + count) == part {
        let at = choose|at: int| 0 <= at <= lower.len() - count && #[trigger] lower.subrange(at, at + count) == part;
        assert(text::stands_at(lower, part, at));
    }
    if text::has_part(lower, part) {
        let at = choose|at: int| text::stands_at(lower, part, at);
        assert(lower.subrange(at, at + count) == part);
    }
}

/// An unknown command is named in the error, and any other complaint is shown as it was printed.
pub proof fn complaints_are_passed_on(quoted: Seq<char>, output: Seq<char>, lower: Seq<char>)
    ensures
        text::has_part(lower, "unknown command"@) ==> complaint_about(quoted, output, lower)
            == "the bootloader does not understand "@ + quoted,
        !text::has_part(lower, "unknown command"@) ==> complaint_about(quoted, output, lower)
            == "the bootloader complained: "@ + text::trimmed(output),
{
}

} // verus!
