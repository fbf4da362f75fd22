//! The Internet checksum: the one's-complement sum of big-endian 16-bit words,
//! carries folded back in, complemented.
use crate::endian::{be16, read_be16};
use vstd::arithmetic::div_mod::{lemma_fundamental_div_mod, lemma_mod_multiples_vanish};
use vstd::prelude::*;

verus! {

/// Longest buffer whose word sum is known to fit in a `u32`
/// (65536 words of at most 0xFFFF each).
pub const MAX_CHECKSUM_LEN: usize = 131072;

/// The `k`-th big-endian word of `b`; an odd last byte is the high byte of a
/// word padded with zero.
pub open spec fn word_at(b: Seq<u8>, k: int) -> nat {
    (b[2 * k] as int * 256 + if 2 * k + 1 < b.len() {
        b[2 * k + 1] as int
    } else {
        0
    }) as nat
}

/// Sum of the first `n` words of `b`.
pub open spec fn words_sum(b: Seq<u8>, n: nat) -> nat
    decreases n,
{
    if n == 0 {
        0
    } else {
        words_sum(b, (n - 1) as nat) + word_at(b, n - 1)
    }
}

/// Sum of all the words of `b`, the last one zero-padded when `b` has odd length.
pub open spec fn sum_words_of(b: Seq<u8>) -> nat {
    words_sum(b, (b.len() + 1) / 2)
}

/// Folds the carries above 16 bits back into the low 16 bits until none is left.
pub open spec fn fold(x: nat) -> nat
    decreases x,
{
    if x < 0x10000 {
        x
    } else {
        fold(x / 0x10000 + x % 0x10000)
    }
}

/// The Internet checksum of `b`: the complement of its folded word sum.
pub open spec fn checksum_of(b: Seq<u8>) -> int {
    0xFFFF - fold(sum_words_of(b))
}

/// Sums `bytes` as big-endian 16-bit words; an odd last byte counts as the high
/// byte of a zero-padded word.
pub fn sum_words(bytes: &[u8]) -> (r: u32)
    requires
        bytes@.len() <= MAX_CHECKSUM_LEN,
    ensures
        r as nat == sum_words_of(bytes@),
{
    let len = bytes.len();
    let mut sum: u32 = 0;
    let mut i: usize = 0;
    while i + 1 < len
        invariant
            len == bytes@.len(),
            len <= MAX_CHECKSUM_LEN,
            i % 2 == 0,
            i <= len,
            sum as nat == words_sum(bytes@, (i / 2) as nat),
            sum <= (i / 2) * 0xFFFF,
        decreases len - i,
    {
        let w = read_be16(bytes, i);
        assert(words_sum(bytes@, (i / 2 + 1) as nat) == sum + w);
        sum = sum + w as u32;
        i = i + 2;
    }
    if i < len {
        assert(words_sum(bytes@, (i / 2 + 1) as nat) == sum + bytes@[i as int] * 256);
        sum = sum + bytes[i] as u32 * 256;
        i = i + 2;
    }
    assert((i / 2) as nat == (len + 1) / 2);
    sum
}

/// The Internet checksum of `bytes`: the word sum, folded until it fits in 16
/// bits, then complemented. The empty buffer gives 0xFFFF.
pub fn calc_checksum(bytes: &[u8]) -> (r: u16)
    requires
        bytes@.len() <= MAX_CHECKSUM_LEN,
    ensures
        r as int == checksum_of(bytes@),
{
    let mut sum: u32 = sum_words(bytes);
    while sum >> 16 != 0
        invariant
            fold(sum as nat) == fold(sum_words_of(bytes@)),
        decreases sum,
    {
        let s = sum;
        assert(s >> 16 == s / 0x10000 && s & 0xFFFF == s % 0x10000) by (bit_vector);
        sum = (sum >> 16) + (sum & 0xFFFF);
    }
    let s = sum;
    assert(s >> 16 == 0 ==> (!s) as u16 == 0xFFFF - s && s < 0x10000) by (bit_vector);
    !sum as u16
}

/// Bytes 2 and 3 of `b`, the checksum field of an ICMP header, set to the
/// big-endian bytes of `c`.
pub open spec fn with_checksum_field(b: Seq<u8>, c: int) -> Seq<u8> {
    b.update(2, (c / 256) as u8).update(3, (c % 256) as u8)
}

proof fn lemma_fold_facts(x: nat)
    ensures
        fold(x) <= 0xFFFF,
        fold(x) % 0xFFFF == x % 0xFFFF,
        x > 0 ==> fold(x) > 0,
        x == 0 ==> fold(x) == 0,
    decreases x,
{
    if x >= 0x10000 {
        let q = x / 0x10000;
        let r = x % 0x10000;
        lemma_fundamental_div_mod(x as int, 0x10000);
        lemma_mod_multiples_vanish(q as int, (q + r) as int, 0xFFFF);
        assert(x == 0xFFFF * q + (q + r));
        lemma_fold_facts(q + r);
    }
}

proof fn lemma_words_sum_field(b: Seq<u8>, c: int, n: nat)
    requires
        b.len() >= 4,
        b[2] == 0,
        b[3] == 0,
        0 <= c <= 0xFFFF,
        2 <= n <= (b.len() + 1) / 2,
    ensures
        words_sum(with_checksum_field(b, c), n) == words_sum(b, n) + c,
    decreases n,
{
    let f = with_checksum_field(b, c);
    if n > 2 {
        lemma_words_sum_field(b, c, (n - 1) as nat);
        assert(word_at(f, n - 1) == word_at(b, n - 1));
    } else {
        assert(word_at(f, 0) == word_at(b, 0));
        assert(word_at(f, 1) == c);
        assert(word_at(b, 1) == 0);
        assert(words_sum(f, 0) == 0 && words_sum(b, 0) == 0);
        assert(words_sum(f, 1) == words_sum(f, 0) + word_at(f, 0));
        assert(words_sum(b, 1) == words_sum(b, 0) + word_at(b, 0));
        assert(words_sum(f, 2) == words_sum(f, 1) + word_at(f, 1));
        assert(words_sum(b, 2) == words_sum(b, 1) + word_at(b, 1));
    }
}

/// The checksum verifies itself: when the checksum field of `b` holds zero and
/// is then filled with `checksum_of(b)`, the folded word sum of the filled
/// buffer is 0xFFFF, so its own checksum is zero.
pub proof fn lemma_checksum_self_verifies(b: Seq<u8>)
    requires
        4 <= b.len() <= MAX_CHECKSUM_LEN,
        b[2] == 0,
        b[3] == 0,
    ensures
        fold(sum_words_of(with_checksum_field(b, checksum_of(b)))) == 0xFFFF,
        checksum_of(with_checksum_field(b, checksum_of(b))) == 0,
{
    let s = sum_words_of(b);
    lemma_fold_facts(s);
    let c = checksum_of(b);
    let f = with_checksum_field(b, c);
    lemma_words_sum_field(b, c, (b.len() + 1) / 2);
    let s2 = sum_words_of(f);
    assert(s2 == s + c);
    lemma_fold_facts(s2);
    if s == 0 {
        assert(s2 == 0xFFFF);
    } else {
        lemma_mod_multiples_vanish(1, s2 as int - 0xFFFF, 0xFFFF);
        assert(s2 % 0xFFFF == 0) by {
            lemma_fundamental_div_mod(s as int, 0xFFFF);
            lemma_fundamental_div_mod(fold(s) as int, 0xFFFF);
            lemma_mod_multiples_vanish((s / 0xFFFF - fold(s) / 0xFFFF + 1) as int, 0, 0xFFFF);
            assert(s2 == 0xFFFF * (s / 0xFFFF - fold(s) / 0xFFFF + 1) + 0);
        }
    }
}

} // verus!
