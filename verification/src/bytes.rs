//! Bytes: little-endian words, zero runs, and the padding of a payload to whole blocks.
use vstd::prelude::*;

verus! {

/// One more than the largest 32-bit word.
pub const WORD_SPAN: u64 = 0x1_0000_0000;

/// The little-endian 32-bit word that starts at byte `at`.
pub open spec fn word_at(data: Seq<u8>, at: int) -> nat {
    (data[at] + 0x100 * data[at + 1] + 0x1_0000 * data[at + 2] + 0x100_0000 * data[at + 3]) as nat
}

/// The four bytes of a 32-bit word, least significant first.
pub open spec fn word_bytes(word: u32) -> Seq<u8> {
    seq![
        (word % 0x100) as u8,
        (word / 0x100 % 0x100) as u8,
        (word / 0x1_0000 % 0x100) as u8,
        (word / 0x100_0000) as u8,
    ]
}

/// `count` zero bytes.
pub open spec fn zeros(count: nat) -> Seq<u8> {
    Seq::new(count, |i: int| 0u8)
}

/// Whether every byte is zero.
pub open spec fn all_zero(data: Seq<u8>) -> bool {
    forall|i: int| 0 <= i < data.len() ==> data[i] == 0
}

/// The sum of the first `count` words.
pub open spec fn words_total(data: Seq<u8>, count: nat) -> nat
    decreases count,
{
    if count == 0 {
        0
    } else {
        words_total(data, (count - 1) as nat) + word_at(data, 4 * (count - 1))
    }
}

/// The sum of the first `count` words depends on nothing past them.
pub proof fn lemma_words_total_prefix(a: Seq<u8>, b: Seq<u8>, count: nat)
    requires
        4 * count <= a.len(),
        4 * count <= b.len(),
        forall|i: int| 0 <= i < 4 * count ==> a[i] == b[i],
    ensures
        words_total(a, count) == words_total(b, count),
    decreases count,
{
    if count > 0 {
        lemma_words_total_prefix(a, b, (count - 1) as nat);
    }
}

/// Reads the little-endian word at byte `at`.
pub fn read_word(data: &[u8], at: usize) -> (word: u32)
    requires
        at + 4 <= data@.len(),
    ensures
        word == word_at(data@, at as int),
        word == data@[at as int] + 0x100 * data@[at + 1] + 0x1_0000 * data@[at + 2] + 0x100_0000 * data@[at + 3],
{
    data[at] as u32 + 0x100 * (data[at + 1] as u32) + 0x1_0000 * (data[at + 2] as u32) + 0x100_0000 * (
    data[at + 3] as u32)
}

/// Adds the four bytes of a word, least significant first.
pub fn push_word(data: &mut Vec<u8>, word: u32)
    ensures
        final(data)@ == old(data)@ + word_bytes(word),
{
    data.push((word % 0x100) as u8);
    data.push((word / 0x100 % 0x100) as u8);
    data.push((word / 0x1_0000 % 0x100) as u8);
    data.push((word / 0x100_0000) as u8);
    assert(data@ =~= old(data)@ + word_bytes(word));
}

/// A word is what its own four bytes spell.
pub proof fn lemma_word_bytes(word: u32)
    ensures
        word_bytes(word).len() == 4,
        word_at(word_bytes(word), 0) == word,
{
}

/// Adds `count` zero bytes.
pub fn push_zeros(data: &mut Vec<u8>, count: usize)
    ensures
        final(data)@ == old(data)@ + zeros(count as nat),
        final(data)@.len() == old(data)@.len() + count,
        forall|j: int| old(data)@.len() <= j < final(data)@.len() ==> final(data)@[j] == 0,
{
    let mut i: usize = 0;
    assert(data@ =~= old(data)@ + zeros(0));
    while i < count
        invariant
            i <= count,
            data@ == old(data)@ + zeros(i as nat),
        decreases count - i,
    {
        data.push(0);
        i = i + 1;
        assert(data@ =~= old(data)@ + zeros(i as nat));
    }
}

/// Whether every byte between `from` and `to` is zero.
pub fn zero_between(data: &[u8], from: usize, to: usize) -> (zero: bool)
    requires
        from <= to <= data@.len(),
    ensures
        zero == all_zero(data@.subrange(from as int, to as int)),
        zero <==> forall|j: int| from <= j < to ==> data@[j] == 0,
{
    let mut i: usize = from;
    while i < to
        invariant
            from <= i <= to <= data@.len(),
            forall|j: int| from <= j < i ==> data@[j] == 0,
        decreases to - i,
    {
        if data[i] != 0 {
            assert(data@.subrange(from as int, to as int)[i - from] != 0);
            return false;
        }
        i = i + 1;
    }
    true
}

/// The sum of the first `count` words, modulo the word span.
pub fn wrapping_total(data: &[u8], count: usize) -> (total: u32)
    requires
        4 * count <= data@.len(),
    ensures
        total == words_total(data@, count as nat) % (WORD_SPAN as nat),
{
    let length: usize = data.len();
    let mut total: u32 = 0;
    let mut i: usize = 0;
    while i < count
        invariant
            i <= count,
            4 * count <= data@.len() == length,
            total == words_total(data@, i as nat) % (WORD_SPAN as nat),
        decreases count - i,
    {
        let word: u32 = read_word(data, 4 * i);
        total = ((total as u64 + word as u64) % WORD_SPAN) as u32;
        i = i + 1;
    }
    total
}

/// The bytes between `from` and `to`.
pub fn copy_between(data: &[u8], from: usize, to: usize) -> (part: Vec<u8>)
    requires
        from <= to <= data@.len(),
    ensures
        part@ == data@.subrange(from as int, to as int),
{
    let mut part: Vec<u8> = Vec::new();
    part.extend_from_slice(&data[from..to]);
    assert(part@ =~= data@.subrange(from as int, to as int));
    part
}

/// `a` divided by `b`, rounded up.
pub open spec fn div_up(a: nat, b: nat) -> nat {
    if a % b == 0 {
        a / b
    } else {
        a / b + 1
    }
}

/// `a` divided by 512, rounded up.
pub fn sectors_for(a: usize) -> (sectors: usize)
    ensures
        sectors == div_up(a as nat, 512),
        512 * sectors >= a,
        512 * sectors < a + 512,
{
    if a % 512 == 0 {
        a / 512
    } else {
        a / 512 + 1
    }
}

/// A word is spelled in four bytes, the least significant one first.
pub proof fn words_are_little_endian(word: u32)
    ensures
        word_bytes(word).len() == 4,
        word_bytes(word)[0] + 0x100 * word_bytes(word)[1] + 0x1_0000 * word_bytes(word)[2] + 0x100_0000 * word_bytes(
            word,
        )[3] == word,
{
}

/// A word is read back from wherever its bytes stand, whatever is around them.
pub proof fn words_are_read_where_they_stand(before: Seq<u8>, word: u32, behind: Seq<u8>)
    ensures
        word_at(before + word_bytes(word) + behind, before.len() as int) == word,
{
    let data = before + word_bytes(word) + behind;
    let at = before.len() as int;
    assert(data[at] == word_bytes(word)[0]);
    assert(data[at + 1] == word_bytes(word)[1]);
    assert(data[at + 2] == word_bytes(word)[2]);
    assert(data[at + 3] == word_bytes(word)[3]);
}

/// A run of zeros is as long as it is asked to be and holds nothing else.
pub proof fn zeros_are_zero(count: nat)
    ensures
        zeros(count).len() == count,
        forall|i: int| 0 <= i < count ==> zeros(count)[i] == 0,
        all_zero(zeros(count)),
{
}

/// One byte that is not zero is enough for data not to count as zero; without one it does.
pub proof fn nonzero_bytes_are_seen(data: Seq<u8>)
    ensures
        !all_zero(data) <==> exists|i: int| 0 <= i < data.len() && data[i] != 0,
{
}

/// A word in front of others adds its value to their sum, and no words have the sum zero.
pub proof fn words_add_up(word: u32, data: Seq<u8>, count: nat)
    requires
        4 * count <= data.len(),
    ensures
        words_total(data, 0) == 0,
        words_total(word_bytes(word) + data, count + 1) == word + words_total(data, count),
    decreases count,
{
    let whole = word_bytes(word) + data;
    words_are_read_where_they_stand(Seq::empty(), word, data);
    assert(Seq::<u8>::empty() + word_bytes(word) + data =~= whole);
    if count > 0 {
        words_add_up(word, data, (count - 1) as nat);
        assert(word_at(whole, 4 * count as int) == word_at(data, 4 * (count - 1)));
    } else {
        reveal_with_fuel(words_total, 2);
    }
}

/// Dividing and rounding up gives the smallest number of parts that hold everything.
pub proof fn rounding_up_is_tight(a: nat, b: nat)
    requires
        b > 0,
    ensures
        a <= b * div_up(a, b) < a + b,
{
    let q = (a / b) as int;
    let r = (a % b) as int;
    vstd::arithmetic::div_mod::lemma_fundamental_div_mod(a as int, b as int);
    vstd::arithmetic::div_mod::lemma_mod_bound(a as int, b as int);
    assert(b * (q + 1) == b * q + b) by (nonlinear_arith);
}

} // verus!
