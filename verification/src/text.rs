//! Plain text: searching, trimming, and the spelling of numbers.
//!
//! Every string is seen as the sequence of its characters.
use vstd::prelude::*;
use vstd::utf8::*;

verus! {

/// `String::push` of std: adds one character at the end of the string.
pub assume_specification[ std::string::String::push ](s: &mut std::string::String, c: char)
    ensures
        final(s)@ == old(s)@.push(c),
;

/// The characters of the Unicode property `White_Space`.
pub open spec fn white_space(c: char) -> bool {
    let u = c as u32;
    ||| 0x9 <= u <= 0xd
    ||| u == 0x20
    ||| u == 0x85
    ||| u == 0xa0
    ||| u == 0x1680
    ||| 0x2000 <= u <= 0x200a
    ||| u == 0x2028
    ||| u == 0x2029
    ||| u == 0x202f
    ||| u == 0x205f
    ||| u == 0x3000
}

/// `char::is_whitespace` of std: whether a character has the Unicode property `White_Space`.
pub assume_specification[ char::is_whitespace ](c: char) -> (found: bool)
    ensures
        found == white_space(c),
;

/// What `str::to_lowercase` of std makes of a text.
pub uninterp spec fn lowercase(text: Seq<char>) -> Seq<char>;

/// The lower-case form of an ASCII character; any other character stays as it is.
pub open spec fn ascii_lower(c: char) -> char {
    if 'A' <= c && c <= 'Z' {
        (c as u32 + 32) as char
    } else {
        c
    }
}

/// A text with each of its characters replaced by its ASCII lower-case form.
pub open spec fn ascii_lowered(text: Seq<char>) -> Seq<char> {
    text.map_values(|c: char| ascii_lower(c))
}

/// `str::to_lowercase` of std, which maps every character to its Unicode lower-case form. The result is a function
/// of the text alone. On text that is all ASCII it is the text with each of 'A' to 'Z' replaced by 'a' to 'z'.
#[verifier::external_body]
pub(crate) fn to_lowercase(text: &str) -> (lower: String)
    ensures
        lower@ == lowercase(text@),
        is_ascii_chars(text@) ==> lower@ == ascii_lowered(text@),
{
    text.to_lowercase()
}

/// The lower-case form of a text: letter by letter where it is all ASCII, else what std makes of it.
pub open spec fn lowered(text: Seq<char>) -> Seq<char> {
    if is_ascii_chars(text) {
        ascii_lowered(text)
    } else {
        lowercase(text)
    }
}

/// The lower-case form of a text.
pub fn lower(text: &str) -> (small: String)
    ensures
        small@ == lowered(text@),
{
    to_lowercase(text)
}

/// A text with each of 'A' to 'Z' replaced by 'a' to 'z'.
pub fn ascii_lower_text(text: &str) -> (small: String)
    ensures
        small@ == ascii_lowered(text@),
{
    let mut small: String = String::new();
    assert(small@ =~= ascii_lowered(text@.take(0)));
    for c in it: text.chars()
        invariant
            it.seq() == text@,
            small@ == ascii_lowered(text@.take(it.index())),
    {
        let next: char = if 'A' <= c && c <= 'Z' {
            (c as u8 + 32) as char
        } else {
            c
        };
        small.push(next);
        assert(ascii_lowered(text@.take(it.index() + 1)) =~= ascii_lowered(text@.take(it.index())).push(next));
    }
    assert(text@.take(text@.len() as int) =~= text@);
    small
}

/// How `{:?}` of std spells a text: in double quotes, with escapes.
pub uninterp spec fn debug_text(text: Seq<char>) -> Seq<char>;

/// The `Debug` form of `str` of std. The result is a function of the text alone.
#[verifier::external_body]
pub(crate) fn debug_form(text: &str) -> (quoted: String)
    ensures
        quoted@ == debug_text(text@),
{
    format!("{:?}", text)
}

/// `String::from_utf8` of std: the text that the bytes spell, or an error if and only if they are not UTF-8.
#[verifier::external_body]
pub(crate) fn from_utf8(bytes: Vec<u8>) -> (text: Result<String, std::string::FromUtf8Error>)
    ensures
        text is Ok <==> valid_utf8(bytes@),
        text matches Ok(t) ==> t@ == decode_utf8(bytes@),
{
    String::from_utf8(bytes)
}

/// What `String::from_utf8_lossy` of std makes of bytes.
pub uninterp spec fn lossy_text(bytes: Seq<u8>) -> Seq<char>;

/// `String::from_utf8_lossy` of std: the text that the bytes spell, with what is not UTF-8 replaced by U+FFFD. The
/// result is a function of the bytes alone. Bytes that are UTF-8 are decoded as they stand.
#[verifier::external_body]
pub(crate) fn from_utf8_lossy(bytes: &[u8]) -> (text: String)
    ensures
        text@ == lossy_text(bytes@),
        valid_utf8(bytes@) ==> text@ == decode_utf8(bytes@),
{
    String::from_utf8_lossy(bytes).into_owned()
}

/// Whether `text` opens with `prefix`.
pub open spec fn has_prefix(text: Seq<char>, prefix: Seq<char>) -> bool {
    prefix.len() <= text.len() && text.subrange(0, prefix.len() as int) == prefix
}

/// Whether `part` stands in `text` from character `at` on.
pub open spec fn stands_at(text: Seq<char>, part: Seq<char>, at: int) -> bool {
    0 <= at && at + part.len() <= text.len() && text.subrange(at, at + part.len()) == part
}

/// Whether `part` stands anywhere in `text`.
pub open spec fn has_part(text: Seq<char>, part: Seq<char>) -> bool {
    exists|at: int| stands_at(text, part, at)
}

/// A text without its leading and trailing white space.
pub open spec fn trimmed(text: Seq<char>) -> Seq<char>
    decreases text.len(),
{
    if text.len() == 0 {
        text
    } else if white_space(text.first()) {
        trimmed(text.drop_first())
    } else if white_space(text.last()) {
        trimmed(text.drop_last())
    } else {
        text
    }
}

/// A trimmed text neither starts nor ends with white space, and is not changed by trimming.
pub proof fn lemma_trimmed(text: Seq<char>)
    ensures
        trimmed(text).len() > 0 ==> !white_space(trimmed(text).first()) && !white_space(trimmed(text).last()),
        trimmed(trimmed(text)) == trimmed(text),
    decreases text.len(),
{
    if text.len() > 0 {
        if white_space(text.first()) {
            lemma_trimmed(text.drop_first());
        } else if white_space(text.last()) {
            lemma_trimmed(text.drop_last());
        }
    }
}

/// The characters of a text.
pub fn chars_of(text: &str) -> (chars: Vec<char>)
    ensures
        chars@ == text@,
{
    let mut chars: Vec<char> = Vec::new();
    for c in it: text.chars()
        invariant
            it.seq() == text@,
            chars@ == text@.take(it.index()),
    {
        chars.push(c);
        assert(text@.take(it.index() + 1) =~= text@.take(it.index()).push(c));
    }
    assert(text@.take(text@.len() as int) =~= text@);
    chars
}

/// The text of `chars` between `from` and `to`.
pub fn text_between(chars: &Vec<char>, from: usize, to: usize) -> (text: String)
    requires
        from <= to <= chars@.len(),
    ensures
        text@ == chars@.subrange(from as int, to as int),
{
    let mut text: String = String::new();
    let mut i: usize = from;
    assert(text@ =~= chars@.subrange(from as int, from as int));
    while i < to
        invariant
            from <= i <= to <= chars@.len(),
            text@ == chars@.subrange(from as int, i as int),
        decreases to - i,
    {
        text.push(chars[i]);
        assert(chars@.subrange(from as int, i + 1) =~= chars@.subrange(from as int, i as int).push(chars@[i as int]));
        i = i + 1;
    }
    text
}

/// Whether two texts are the same.
pub fn same_text(a: &str, b: &str) -> (same: bool)
    ensures
        same == (a@ == b@),
{
    let left: String = a.to_owned();
    let right: String = b.to_owned();
    left == right
}

/// Whether `part` stands in `chars` from position `at` on.
fn chars_stand_at(chars: &Vec<char>, part: &Vec<char>, at: usize) -> (found: bool)
    requires
        at + part@.len() <= chars@.len(),
    ensures
        found == stands_at(chars@, part@, at as int),
{
    let end: usize = chars.len();
    let mut i: usize = 0;
    while i < part.len()
        invariant
            i <= part@.len(),
            at + part@.len() <= chars@.len() == end,
            forall|j: int| 0 <= j < i ==> chars@[at + j] == part@[j],
        decreases part@.len() - i,
    {
        if chars[at + i] != part[i] {
            assert(chars@.subrange(at as int, at + part@.len())[i as int] != part@[i as int]);
            return false;
        }
        i = i + 1;
    }
    assert(chars@.subrange(at as int, at + part@.len()) =~= part@);
    true
}

/// Whether `text` opens with `prefix`.
pub fn starts_with(text: &str, prefix: &str) -> (found: bool)
    ensures
        found == has_prefix(text@, prefix@),
{
    let chars: Vec<char> = chars_of(text);
    let part: Vec<char> = chars_of(prefix);
    if part.len() > chars.len() {
        return false;
    }
    chars_stand_at(&chars, &part, 0)
}

/// Whether a text opens with `prefix` and no digit follows: where the prefix ends in a number, that is all of it.
pub open spec fn has_number(text: Seq<char>, prefix: Seq<char>) -> bool {
    &&& has_prefix(text, prefix)
    &&& text.len() == prefix.len() || digit_value(text[prefix.len() as int], 10) is None
}

/// Whether a text opens with `prefix` and no digit follows.
pub fn starts_with_number(text: &str, prefix: &str) -> (found: bool)
    ensures
        found == has_number(text@, prefix@),
{
    if !starts_with(text, prefix) {
        return false;
    }
    let chars: Vec<char> = chars_of(text);
    let next: usize = chars_of(prefix).len();
    next == chars.len() || digit_of(chars[next], 10).is_none()
}

/// What follows `prefix` in a text that opens with it.
pub fn strip_prefix(text: &str, prefix: &str) -> (rest: Option<String>)
    ensures
        rest is Some <==> has_prefix(text@, prefix@),
        rest matches Some(r) ==> r@ == text@.subrange(prefix@.len() as int, text@.len() as int),
{
    if starts_with(text, prefix) {
        let chars: Vec<char> = chars_of(text);
        let skip: usize = chars_of(prefix).len();
        Some(text_between(&chars, skip, chars.len()))
    } else {
        None
    }
}

/// Whether `part` stands anywhere in `text`.
pub fn contains(text: &str, part: &str) -> (found: bool)
    ensures
        found == has_part(text@, part@),
{
    let chars: Vec<char> = chars_of(text);
    let wanted: Vec<char> = chars_of(part);
    if wanted.len() > chars.len() {
        return false;
    }
    let last: usize = chars.len() - wanted.len();
    let mut at: usize = 0;
    while at < last
        invariant
            at <= last,
            last + wanted@.len() == chars@.len(),
            chars@ == text@,
            wanted@ == part@,
            forall|j: int| 0 <= j < at ==> !stands_at(text@, part@, j),
        decreases last - at,
    {
        if chars_stand_at(&chars, &wanted, at) {
            return true;
        }
        at = at + 1;
    }
    assert(forall|j: int| stands_at(text@, part@, j) ==> j <= last);
    chars_stand_at(&chars, &wanted, last)
}

/// A text without its leading and trailing white space.
pub fn trim(text: &str) -> (inner: String)
    ensures
        inner@ == trimmed(text@),
{
    let chars: Vec<char> = chars_of(text);
    let mut from: usize = 0;
    let mut to: usize = chars.len();
    assert(chars@.subrange(0, chars@.len() as int) =~= chars@);
    while from < to && chars[from].is_whitespace()
        invariant
            from <= to == chars@.len(),
            trimmed(chars@.subrange(from as int, to as int)) == trimmed(chars@),
        decreases to - from,
    {
        let ghost whole = chars@.subrange(from as int, to as int);
        assert(whole.drop_first() =~= chars@.subrange(from + 1, to as int));
        from = from + 1;
    }
    while from < to && chars[to - 1].is_whitespace()
        invariant
            from <= to <= chars@.len(),
            from < to ==> !white_space(chars@[from as int]),
            trimmed(chars@.subrange(from as int, to as int)) == trimmed(chars@),
        decreases to - from,
    {
        let ghost whole = chars@.subrange(from as int, to as int);
        assert(whole.drop_last() =~= chars@.subrange(from as int, to - 1));
        to = to - 1;
    }
    text_between(&chars, from, to)
}

/// The character for a digit of value `d`, with letters for ten and above.
pub open spec fn digit(d: nat, upper: bool) -> char {
    if d < 10 {
        (48 + d) as char
    } else if upper {
        (55 + d) as char
    } else {
        (87 + d) as char
    }
}

/// The digits of `n` in `base`, most significant first, without leading zeros.
pub open spec fn digits(n: nat, base: nat, upper: bool) -> Seq<char>
    decreases n,
{
    if n < base || base < 2 {
        seq![digit(n, upper)]
    } else {
        proof {
            assert(n / base < n) by (nonlinear_arith)
                requires
                    n >= base,
                    base >= 2,
            ;
        }
        digits(n / base, base, upper).push(digit(n % base, upper))
    }
}

/// The decimal spelling of `n`.
pub open spec fn decimal(n: nat) -> Seq<char> {
    digits(n, 10, false)
}

/// `n` in hexadecimal with lower-case letters, behind `0x`.
pub open spec fn hex_lower(n: nat) -> Seq<char> {
    seq!['0', 'x'] + digits(n, 16, false)
}

/// `n` in hexadecimal with upper-case letters, behind `0x`.
pub open spec fn hex_upper(n: nat) -> Seq<char> {
    seq!['0', 'x'] + digits(n, 16, true)
}

/// Adds the digits of `n` in `base` to a text.
fn push_digits(text: &mut String, n: u64, base: u64, upper: bool)
    requires
        2 <= base <= 16,
    ensures
        final(text)@ == old(text)@ + digits(n as nat, base as nat, upper),
    decreases n,
{
    if n >= base {
        assert(n / base < n) by (nonlinear_arith)
            requires
                n >= base,
                base >= 2,
        ;
        push_digits(text, n / base, base, upper);
    }
    let d: u64 = n % base;
    assert(d < base) by (nonlinear_arith)
        requires
            d == n % base,
            base >= 2,
    ;
    let c: char = if d < 10 {
        (48 + d as u8) as char
    } else if upper {
        (55 + d as u8) as char
    } else {
        (87 + d as u8) as char
    };
    text.push(c);
    proof {
        if n >= base {
            assert(text@ =~= old(text)@ + digits((n / base) as nat, base as nat, upper).push(c));
        } else {
            assert(n % base == n) by (nonlinear_arith)
                requires
                    n < base,
            ;
            assert(text@ =~= old(text)@ + seq![c]);
        }
    }
}

/// Adds the decimal spelling of `n` to a text.
pub fn push_decimal(text: &mut String, n: u64)
    ensures
        final(text)@ == old(text)@ + decimal(n as nat),
{
    push_digits(text, n, 10, false);
}

/// Adds `n` in hexadecimal, behind `0x`, to a text.
pub fn push_hex(text: &mut String, n: u64, upper: bool)
    ensures
        final(text)@ == old(text)@ + (if upper { hex_upper(n as nat) } else { hex_lower(n as nat) }),
{
    text.push('0');
    text.push('x');
    push_digits(text, n, 16, upper);
    proof {
        let tail = digits(n as nat, 16, upper);
        assert(text@ =~= old(text)@ + (seq!['0', 'x'] + tail));
    }
}

/// Digits with zeros put in front until they are at least `width` long.
pub open spec fn zero_padded(shown: Seq<char>, width: nat) -> Seq<char> {
    if shown.len() >= width {
        shown
    } else {
        Seq::new((width - shown.len()) as nat, |i: int| '0') + shown
    }
}

/// Adds `n` in lower-case hexadecimal, padded with zeros to `width` digits, to a text.
pub fn push_hex_padded(text: &mut String, n: u64, width: usize)
    ensures
        final(text)@ == old(text)@ + zero_padded(digits(n as nat, 16, false), width as nat),
{
    let mut shown: String = String::new();
    push_digits(&mut shown, n, 16, false);
    assert(shown@ =~= digits(n as nat, 16, false));
    let length: usize = chars_of(&shown).len();
    let missing: usize = if length < width {
        width - length
    } else {
        0
    };
    let mut i: usize = 0;
    assert(text@ =~= old(text)@ + Seq::new(0, |j: int| '0'));
    while i < missing
        invariant
            i <= missing,
            text@ == old(text)@ + Seq::new(i as nat, |j: int| '0'),
        decreases missing - i,
    {
        text.push('0');
        i = i + 1;
        assert(text@ =~= old(text)@ + Seq::new(i as nat, |j: int| '0'));
    }
    text.append(&shown);
    assert(text@ =~= old(text)@ + zero_padded(shown@, width as nat));
}

/// The value of a character as a digit in `radix`, which is ten or sixteen.
pub open spec fn digit_value(c: char, radix: nat) -> Option<nat> {
    if '0' <= c && c <= '9' {
        Some((c as u32 - 48) as nat)
    } else if radix == 16 && 'a' <= c && c <= 'f' {
        Some((c as u32 - 87) as nat)
    } else if radix == 16 && 'A' <= c && c <= 'F' {
        Some((c as u32 - 55) as nat)
    } else {
        None
    }
}

/// Whether every character is a digit in `radix`.
pub open spec fn all_digits(chars: Seq<char>, radix: nat) -> bool {
    forall|i: int| 0 <= i < chars.len() ==> (#[trigger] digit_value(chars[i], radix)) is Some
}

/// The number that digits spell, most significant first.
pub open spec fn number_of(chars: Seq<char>, radix: nat) -> nat
    decreases chars.len(),
{
    if chars.len() == 0 {
        0
    } else {
        number_of(chars.drop_last(), radix) * radix + digit_value(chars.last(), radix).unwrap()
    }
}

/// The characters behind an optional plus sign.
pub open spec fn behind_plus(chars: Seq<char>) -> Seq<char> {
    if chars.len() > 0 && chars[0] == '+' {
        chars.drop_first()
    } else {
        chars
    }
}

/// The number that a text spells: an optional plus sign and then nothing but digits, at least one.
pub open spec fn number_in(text: Seq<char>, radix: nat) -> Option<nat> {
    let body = behind_plus(text);
    if body.len() > 0 && all_digits(body, radix) {
        Some(number_of(body, radix))
    } else {
        None
    }
}

/// The start of a run of digits spells no larger a number than the whole.
proof fn lemma_number_of_prefix(chars: Seq<char>, upto: int, radix: nat)
    requires
        0 <= upto <= chars.len(),
        radix >= 1,
    ensures
        number_of(chars.take(upto), radix) <= number_of(chars, radix),
    decreases chars.len() - upto,
{
    if upto == chars.len() {
        assert(chars.take(upto) =~= chars);
    } else {
        lemma_number_of_prefix(chars, upto + 1, radix);
        assert(chars.take(upto + 1).drop_last() =~= chars.take(upto));
        let shorter = number_of(chars.take(upto), radix);
        assert(shorter * radix >= shorter) by (nonlinear_arith)
            requires
                radix >= 1,
        ;
    }
}

fn digit_of(c: char, radix: usize) -> (value: Option<usize>)
    ensures
        value is Some <==> digit_value(c, radix as nat) is Some,
        value matches Some(v) ==> digit_value(c, radix as nat) == Some(v as nat),
{
    let u: u32 = c as u32;
    if 48 <= u && u <= 57 {
        Some((u - 48) as usize)
    } else if radix == 16 && 97 <= u && u <= 102 {
        Some((u - 87) as usize)
    } else if radix == 16 && 65 <= u && u <= 70 {
        Some((u - 55) as usize)
    } else {
        None
    }
}

/// Reads a number in `radix`: an optional plus sign and then digits. Nothing, where the text spells no number or one
/// that is too large.
pub fn parse_number(text: &str, radix: usize) -> (value: Option<usize>)
    requires
        radix == 10 || radix == 16,
    ensures
        value matches Some(v) ==> number_in(text@, radix as nat) == Some(v as nat),
        value is None ==> {
            ||| number_in(text@, radix as nat) is None
            ||| number_in(text@, radix as nat).unwrap() > usize::MAX
        },
{
    let chars: Vec<char> = chars_of(text);
    let from: usize = if chars.len() > 0 && chars[0] == '+' {
        1
    } else {
        0
    };
    let ghost body = behind_plus(text@);
    assert(body =~= chars@.skip(from as int));
    if chars.len() == from {
        return None;
    }
    let mut value: usize = 0;
    let mut i: usize = from;
    assert(body.take(0) =~= Seq::<char>::empty());
    while i < chars.len()
        invariant
            from <= i <= chars@.len(),
            radix == 10 || radix == 16,
            body == chars@.skip(from as int),
            body.len() > 0,
            number_in(text@, radix as nat) == (if all_digits(body, radix as nat) {
                Some(number_of(body, radix as nat))
            } else {
                None
            }),
            forall|j: int| 0 <= j < i - from ==> (#[trigger] digit_value(body[j], radix as nat)) is Some,
            value == number_of(body.take(i - from), radix as nat),
        decreases chars@.len() - i,
    {
        proof {
            lemma_number_of_prefix(body, i + 1 - from, radix as nat);
            assert(body.take(i + 1 - from).drop_last() =~= body.take(i - from));
            assert(body[i - from] == chars@[i as int]);
        }
        let d: usize = match digit_of(chars[i], radix) {
            Some(d) => d,
            None => {
                assert(digit_value(body[i - from], radix as nat) is None);
                return None;
            },
        };
        let scaled: usize = match value.checked_mul(radix) {
            Some(v) => v,
            None => {
                return None;
            },
        };
        value = match scaled.checked_add(d) {
            Some(v) => v,
            None => {
                return None;
            },
        };
        i = i + 1;
    }
    assert(body.take(body.len() as int) =~= body);
    Some(value)
}

/// How many bytes a character takes in UTF-8.
pub open spec fn char_width(c: char) -> nat {
    let u = c as u32;
    if u < 0x80 {
        1
    } else if u < 0x800 {
        2
    } else if u < 0x1_0000 {
        3
    } else {
        4
    }
}

/// How many bytes a text takes in UTF-8.
pub open spec fn width(chars: Seq<char>) -> nat
    decreases chars.len(),
{
    if chars.len() == 0 {
        0
    } else {
        char_width(chars[0]) + width(chars.drop_first())
    }
}

/// How many characters make up the first `bytes` bytes of a text in UTF-8; nothing, where a character lies across
/// that border or the text is shorter.
pub open spec fn cut(chars: Seq<char>, bytes: nat) -> Option<nat>
    decreases chars.len(),
{
    if bytes == 0 {
        Some(0)
    } else if chars.len() == 0 || char_width(chars[0]) > bytes {
        None
    } else {
        match cut(chars.drop_first(), (bytes - char_width(chars[0])) as nat) {
            Some(count) => Some(count + 1),
            None => None,
        }
    }
}

fn width_of(c: char) -> (bytes: usize)
    ensures
        bytes == char_width(c),
        1 <= bytes <= 4,
{
    let u: u32 = c as u32;
    if u < 0x80 {
        1
    } else if u < 0x800 {
        2
    } else if u < 0x1_0000 {
        3
    } else {
        4
    }
}

/// Finds how many characters make up the first `bytes` bytes of a text.
pub fn find_cut(chars: &Vec<char>, bytes: usize) -> (count: Option<usize>)
    ensures
        count is Some <==> cut(chars@, bytes as nat) is Some,
        count matches Some(n) ==> cut(chars@, bytes as nat) == Some(n as nat) && n <= chars@.len(),
{
    let mut left: usize = bytes;
    let mut i: usize = 0;
    assert(chars@.skip(0) =~= chars@);
    while left > 0
        invariant
            i <= chars@.len(),
            match cut(chars@.skip(i as int), left as nat) {
                Some(n) => cut(chars@, bytes as nat) == Some((i + n) as nat),
                None => cut(chars@, bytes as nat) is None,
            },
        decreases left,
    {
        if i >= chars.len() {
            return None;
        }
        let step: usize = width_of(chars[i]);
        if step > left {
            return None;
        }
        assert(chars@.skip(i as int).drop_first() =~= chars@.skip(i + 1));
        left = left - step;
        i = i + 1;
    }
    Some(i)
}

/// Whether a text takes at most `bytes` bytes in UTF-8.
pub fn width_up_to(chars: &Vec<char>, bytes: usize) -> (short: bool)
    ensures
        short == (width(chars@) <= bytes),
{
    let mut left: usize = bytes;
    let mut i: usize = 0;
    assert(chars@.skip(0) =~= chars@);
    while i < chars.len()
        invariant
            i <= chars@.len(),
            left <= bytes,
            width(chars@) == (bytes - left) + width(chars@.skip(i as int)),
        decreases chars@.len() - i,
    {
        let step: usize = width_of(chars[i]);
        assert(chars@.skip(i as int).drop_first() =~= chars@.skip(i + 1));
        if step > left {
            return false;
        }
        left = left - step;
        i = i + 1;
    }
    true
}

/// A cut at more bytes has no fewer characters before it.
pub proof fn lemma_longer_cut(chars: Seq<char>, few: nat, many: nat)
    requires
        few <= many,
        cut(chars, few) is Some,
    ensures
        cut(chars, few).unwrap() <= chars.len(),
        cut(chars, many) matches Some(n) ==> cut(chars, few).unwrap() <= n <= chars.len(),
    decreases chars.len(),
{
    if many > 0 && chars.len() > 0 && char_width(chars[0]) <= many {
        let w = char_width(chars[0]);
        if few > 0 {
            lemma_longer_cut(chars.drop_first(), (few - w) as nat, (many - w) as nat);
        } else {
            assert(cut(chars.drop_first(), 0) == Some(0nat));
            lemma_longer_cut(chars.drop_first(), 0, (many - w) as nat);
        }
    }
}

/// A text that opens with four ASCII characters can be cut behind them.
pub proof fn lemma_cut_behind_tag(text: Seq<char>, tag: Seq<char>)
    requires
        tag.len() == 4,
        forall|i: int| 0 <= i < 4 ==> (#[trigger] tag[i]) as u32 <= 0x7f,
        has_prefix(text, tag),
    ensures
        cut(text, 4) == Some(4nat),
{
    let t0 = text;
    let t1 = t0.drop_first();
    let t2 = t1.drop_first();
    let t3 = t2.drop_first();
    assert(text.subrange(0, 4)[0] == tag[0]);
    assert(text.subrange(0, 4)[1] == tag[1]);
    assert(text.subrange(0, 4)[2] == tag[2]);
    assert(text.subrange(0, 4)[3] == tag[3]);
    reveal_with_fuel(cut, 5);
    assert(t3[0] == text[3]);
}

/// Digits are written most significant first: one more digit at the end multiplies by the base and adds its value, and
/// a number below the base is its one digit.
pub proof fn digits_are_positional(n: nat, d: nat, base: nat, upper: bool)
    requires
        2 <= base <= 16,
        d < base,
    ensures
        digits(d, base, upper).len() == 1,
        d < 10 ==> digits(d, base, upper)[0] as u32 == 0x30 + d,
        d >= 10 && upper ==> digits(d, base, upper)[0] as u32 == 0x41 + d - 10,
        d >= 10 && !upper ==> digits(d, base, upper)[0] as u32 == 0x61 + d - 10,
        n > 0 ==> {
            let longer = digits(n * base + d, base, upper);
            &&& longer.drop_last() == digits(n, base, upper)
            &&& longer.last() == digits(d, base, upper)[0]
            &&& longer.len() == digits(n, base, upper).len() + 1
        },
{
    if n > 0 {
        let whole = n * base + d;
        vstd::arithmetic::div_mod::lemma_fundamental_div_mod_converse(
            whole as int,
            base as int,
            n as int,
            d as int,
        );
        assert(whole >= base) by (nonlinear_arith)
            requires
                n >= 1,
                whole == n * base + d,
        ;
        assert(whole / base == n && whole % base == d);
        assert(digits(whole, base, upper) == digits(n, base, upper).push(digit(d, upper)));
        assert(digits(whole, base, upper).drop_last() =~= digits(n, base, upper));
    }
}

/// Decimal numbers grow by one of '0' to '9' at their end.
pub proof fn decimal_is_positional(n: nat, d: nat)
    requires
        d < 10,
    ensures
        decimal(d).len() == 1 && decimal(d)[0] as u32 == 0x30 + d,
        n > 0 ==> {
            let longer = decimal(10 * n + d);
            longer.drop_last() == decimal(n) && longer.last() as u32 == 0x30 + d
                && longer.len() == decimal(n).len() + 1
        },
{
    digits_are_positional(n, d, 10, false);
}

/// Hexadecimal numbers stand behind `0x`, and the same digits in both cases spell the same number.
pub proof fn hex_stands_behind_its_mark(n: nat)
    ensures
        hex_lower(n).len() == digits(n, 16, false).len() + 2,
        hex_lower(n)[0] == '0' && hex_lower(n)[1] == 'x',
        hex_lower(n).skip(2) == digits(n, 16, false),
        hex_upper(n).len() == digits(n, 16, true).len() + 2,
        hex_upper(n)[0] == '0' && hex_upper(n)[1] == 'x',
        hex_upper(n).skip(2) == digits(n, 16, true),
{
    assert(hex_lower(n).skip(2) =~= digits(n, 16, false));
    assert(hex_upper(n).skip(2) =~= digits(n, 16, true));
}

/// A number that is spelled is read back as it was.
pub proof fn spelled_numbers_are_read_back(n: nat, radix: nat, upper: bool)
    requires
        radix == 10 || radix == 16,
    ensures
        digits(n, radix, upper).len() >= 1,
        all_digits(digits(n, radix, upper), radix),
        number_of(digits(n, radix, upper), radix) == n,
        number_in(digits(n, radix, upper), radix) == Some(n),
        number_in(seq!['+'] + digits(n, radix, upper), radix) == Some(n),
    decreases n,
{
    let shown = digits(n, radix, upper);
    if n >= radix {
        assert(n / radix < n) by (nonlinear_arith)
            requires
                n >= radix,
                radix >= 2,
        ;
        spelled_numbers_are_read_back(n / radix, radix, upper);
        vstd::arithmetic::div_mod::lemma_fundamental_div_mod(n as int, radix as int);
        let before = digits(n / radix, radix, upper);
        let last = digit(n % radix, upper);
        assert(shown == before.push(last));
        assert(shown.drop_last() =~= before);
        assert(digit_value(last, radix) == Some(n % radix));
        assert forall|i: int| 0 <= i < shown.len() implies (#[trigger] digit_value(shown[i], radix)) is Some by {
            if i < before.len() {
                assert(digit_value(before[i], radix) is Some);
            }
        }
        assert(number_of(shown, radix) == number_of(before, radix) * radix + n % radix);
        assert(number_of(before, radix) * radix == radix * (n / radix)) by (nonlinear_arith)
            requires
                number_of(before, radix) == n / radix,
        ;
    } else {
        assert(digit_value(digit(n, upper), radix) == Some(n));
        reveal_with_fuel(number_of, 2);
        assert(shown.drop_last() =~= Seq::<char>::empty());
    }
    assert(digit_value(shown[0], radix) is Some);
    assert(behind_plus(shown) == shown);
    assert(behind_plus(seq!['+'] + shown) =~= shown);
}

/// A text with a character that is no digit, other than one plus sign in front, spells no number; nor does one without
/// digits.
pub proof fn only_digits_are_numbers(text: Seq<char>, radix: nat, at: int)
    requires
        radix == 10 || radix == 16,
        text.len() == 0 || text == seq!['+'] || (0 <= at < text.len() && !(at == 0 && text[0] == '+') && !(('0'
            <= text[at] && text[at] <= '9') || (radix == 16 && (('a' <= text[at] && text[at] <= 'f') || ('A'
            <= text[at] && text[at] <= 'F'))))),
    ensures
        number_in(text, radix) is None,
{
    let body = behind_plus(text);
    if text.len() > 0 && text != seq!['+'] {
        let k = if text[0] == '+' { at - 1 } else { at };
        assert(body[k] == text[at]);
        assert(digit_value(body[k], radix) is None);
    }
}

/// Padding puts zeros in front, as many as are missing, and keeps the digits.
pub proof fn padding_puts_zeros_in_front(shown: Seq<char>, width: nat)
    ensures
        zero_padded(shown, width).len() == (if shown.len() < width {
            width
        } else {
            shown.len()
        }),
        zero_padded(shown, width).skip(zero_padded(shown, width).len() - shown.len()) == shown,
        forall|i: int|
            0 <= i < zero_padded(shown, width).len() - shown.len() ==> zero_padded(shown, width)[i] == '0',
{
    assert(zero_padded(shown, width).skip(zero_padded(shown, width).len() - shown.len()) =~= shown);
}

/// Trimming takes white space off both ends and leaves what is between.
pub proof fn trimming_leaves_the_middle(before: Seq<char>, middle: Seq<char>, behind: Seq<char>)
    requires
        forall|i: int| 0 <= i < before.len() ==> white_space(before[i]),
        forall|i: int| 0 <= i < behind.len() ==> white_space(behind[i]),
        middle.len() > 0 ==> !white_space(middle.first()) && !white_space(middle.last()),
    ensures
        trimmed(before + middle + behind) == middle,
    decreases before.len() + behind.len(),
{
    let whole = before + middle + behind;
    if before.len() > 0 {
        assert(whole.drop_first() =~= before.drop_first() + middle + behind);
        trimming_leaves_the_middle(before.drop_first(), middle, behind);
    } else if behind.len() > 0 {
        if middle.len() == 0 {
            assert(whole =~= behind);
            assert(whole.drop_first() =~= before + middle + behind.drop_first());
            trimming_leaves_the_middle(before, middle, behind.drop_first());
        } else {
            assert(whole.first() == middle.first());
            assert(whole.drop_last() =~= before + middle + behind.drop_last());
            trimming_leaves_the_middle(before, middle, behind.drop_last());
        }
    } else {
        assert(whole =~= middle);
    }
}

/// A text opens with a prefix exactly when it is that prefix with something behind it.
pub proof fn prefixes_come_first(text: Seq<char>, prefix: Seq<char>, rest: Seq<char>)
    ensures
        has_prefix(prefix + rest, prefix),
        has_prefix(text, prefix) ==> text == prefix + text.skip(prefix.len() as int),
{
    assert((prefix + rest).subrange(0, prefix.len() as int) =~= prefix);
    if has_prefix(text, prefix) {
        assert(text =~= text.subrange(0, prefix.len() as int) + text.skip(prefix.len() as int));
    }
}

/// A part is found wherever it stands, and only where it stands.
pub proof fn parts_are_found(before: Seq<char>, part: Seq<char>, behind: Seq<char>, text: Seq<char>)
    ensures
        has_part(before + part + behind, part),
        has_part(text, part) ==> exists|at: int|
            0 <= at <= text.len() - part.len() && #[trigger] text.subrange(at, at + part.len()) == part,
{
    let whole = before + part + behind;
    let at = before.len() as int;
    assert(whole.subrange(at, at + part.len()) =~= part);
    assert(stands_at(whole, part, at));
}

/// Lowering by ASCII changes 'A' to 'Z' into 'a' to 'z' and nothing else.
pub proof fn ascii_letters_are_lowered(text: Seq<char>)
    ensures
        ascii_lowered(text).len() == text.len(),
        forall|i: int|
            #![trigger ascii_lowered(text)[i]]
            0 <= i < text.len() ==> if 0x41 <= text[i] as u32 <= 0x5a {
                ascii_lowered(text)[i] as u32 == text[i] as u32 + 0x20
            } else {
                ascii_lowered(text)[i] == text[i]
            },
        is_ascii_chars(text) ==> lowered(text) == ascii_lowered(text),
        !is_ascii_chars(text) ==> lowered(text) == lowercase(text),
{
}

/// A number at the end of a prefix is all of the number exactly when no digit follows.
pub proof fn numbers_end_at_a_non_digit(prefix: Seq<char>, rest: Seq<char>)
    ensures
        has_number(prefix + rest, prefix) <==> rest.len() == 0 || !('0' <= rest[0] && rest[0] <= '9'),
{
    let whole = prefix + rest;
    prefixes_come_first(prefix, prefix, rest);
    assert(has_prefix(whole, prefix));
    if rest.len() > 0 {
        assert(whole[prefix.len() as int] == rest[0]);
    }
}

/// A text is as wide as its UTF-8 form is long.
pub proof fn width_is_that_of_utf8(chars: Seq<char>)
    ensures
        width(chars) == encode_utf8(chars).len(),
    decreases chars.len(),
{
    if chars.len() > 0 {
        width_is_that_of_utf8(chars.drop_first());
        char_is_scalar(chars[0]);
    }
}

/// White space is the six ASCII characters for it, and the next-line, no-break, ogham, en quad to hair, line,
/// paragraph, narrow, mathematical and ideographic ones.
pub proof fn white_space_is_listed(c: char)
    ensures
        c < '\u{80}' ==> (white_space(c) <==> c == '\t' || c == '\n' || c == '\u{b}' || c == '\u{c}' || c == '\r' || c
            == ' '),
        c >= '\u{80}' ==> (white_space(c) <==> c == '\u{85}' || c == '\u{a0}' || c == '\u{1680}' || '\u{2000}' <= c
            && c <= '\u{200a}' || c == '\u{2028}' || c == '\u{2029}' || c == '\u{202f}' || c == '\u{205f}' || c
            == '\u{3000}'),
{
}

/// What is cut off has as many bytes as were asked for.
pub proof fn cuts_have_their_width(chars: Seq<char>, count: nat)
    requires
        cut(chars, count) is Some,
    ensures
        cut(chars, count).unwrap() <= chars.len(),
        width(chars.take(cut(chars, count).unwrap() as int)) == count,
    decreases chars.len(),
{
    let end = cut(chars, count).unwrap() as int;
    if count > 0 {
        let w = char_width(chars[0]);
        cuts_have_their_width(chars.drop_first(), (count - w) as nat);
        assert(chars.take(end).drop_first() =~= chars.drop_first().take(end - 1));
    }
}

/// What is cut off behind the bytes of a first part is that part.
pub proof fn cuts_fall_between_characters(first: Seq<char>, rest: Seq<char>)
    ensures
        width(first + rest) == width(first) + width(rest),
        cut(first + rest, width(first)) == Some(first.len()),
    decreases first.len(),
{
    let whole = first + rest;
    if first.len() == 0 {
        assert(whole =~= rest);
    } else {
        assert(whole.drop_first() =~= first.drop_first() + rest);
        cuts_fall_between_characters(first.drop_first(), rest);
    }
}

} // verus!
