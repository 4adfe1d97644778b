//! The RFC 1071 internet checksum, as ICMP uses it.
//!
//! The checksum of a byte string is the one's complement of the end-around
//! carry fold of the sum of its 16-bit big-endian words; a trailing odd byte
//! is padded with a zero low byte.

use vstd::arithmetic::div_mod::{
    lemma_div_pos_is_pos, lemma_fundamental_div_mod, lemma_mod_bound, lemma_mod_multiples_vanish,
    lemma_sub_mod_noop,
};
use vstd::prelude::*;

verus! {

/// The 16-bit big-endian word at word index `i` of `s`; a trailing odd byte
/// stands alone as the high byte of its word.
pub open spec fn word_at(s: Seq<u8>, i: nat) -> int
    recommends
        2 * i < s.len(),
{
    if 2 * i + 1 < s.len() {
        s[(2 * i) as int] * 256 + s[(2 * i + 1) as int]
    } else {
        s[(2 * i) as int] * 256
    }
}

/// How many 16-bit words cover `s`.
pub open spec fn word_count(s: Seq<u8>) -> nat {
    ((s.len() + 1) / 2) as nat
}

/// The sum of the first `k` words of `s`.
pub open spec fn sum_words(s: Seq<u8>, k: nat) -> int
    decreases k,
{
    if k == 0 {
        0
    } else {
        sum_words(s, (k - 1) as nat) + word_at(s, (k - 1) as nat)
    }
}

/// The word sum the checksum is folded from.
pub open spec fn checksum_input_sum(s: Seq<u8>) -> int {
    sum_words(s, word_count(s))
}

/// End-around carry folding: add the carry above 16 bits back in until the
/// value fits in 16 bits.
pub open spec fn fold16(s: int) -> int
    recommends
        s >= 0,
    decreases s,
    when s >= 0
{
    if s < 0x10000 {
        s
    } else {
        fold16(s / 0x10000 + s % 0x10000)
    }
}

/// The RFC 1071 checksum of `s`: the one's complement of the folded word sum.
pub open spec fn spec_checksum(s: Seq<u8>) -> int {
    0xFFFF - fold16(checksum_input_sum(s))
}

/// One folding step strictly shrinks a value that does not fit in 16 bits.
proof fn lemma_fold16_step_decreases(s: int)
    requires
        s >= 0x10000,
    ensures
        0 <= s / 0x10000 + s % 0x10000 < s,
{
    lemma_fundamental_div_mod(s, 0x10000);
    lemma_mod_bound(s, 0x10000);
    lemma_div_pos_is_pos(s, 0x10000);
    let q = s / 0x10000;
    let r = s % 0x10000;
    assert(s == 0x10000 * q + r);
    assert(q >= 1);
    assert(q + r < 0x10000 * q + r) by (nonlinear_arith)
        requires
            q >= 1,
    ;
}

/// What folding preserves: the result fits in 16 bits, keeps the value's
/// residue modulo `0xFFFF`, never exceeds the value, and is zero only for
/// zero.
pub proof fn lemma_fold16_properties(s: int)
    requires
        s >= 0,
    ensures
        0 <= fold16(s) <= 0xFFFF,
        fold16(s) % 0xFFFF == s % 0xFFFF,
        fold16(s) <= s,
        s > 0 ==> fold16(s) > 0,
    decreases s,
{
    if s < 0x10000 {
    } else {
        lemma_fold16_step_decreases(s);
        let q = s / 0x10000;
        let r = s % 0x10000;
        lemma_fundamental_div_mod(s, 0x10000);
        lemma_mod_bound(s, 0x10000);
        lemma_div_pos_is_pos(s, 0x10000);
        lemma_fold16_properties(q + r);
        // s == 0x10000 * q + r == 0xFFFF * q + (q + r), so s and q + r agree
        // modulo 0xFFFF.
        assert(s == 0xFFFF * q + (q + r));
        lemma_mod_multiples_vanish(q, q + r, 0xFFFF);
        assert(q >= 1);
    }
}

/// Every word is non-negative, so word sums are monotone in `k` and
/// non-negative.
pub proof fn lemma_sum_words_nonneg(s: Seq<u8>, k: nat)
    ensures
        sum_words(s, k) >= 0,
    decreases k,
{
    if k > 0 {
        lemma_sum_words_nonneg(s, (k - 1) as nat);
    }
}

/// Two byte strings of equal length that agree everywhere but in bytes 2 and
/// 3 have word sums that differ exactly by the difference of word 1.
proof fn lemma_sum_words_differ_word_one(s1: Seq<u8>, s2: Seq<u8>, k: nat)
    requires
        s1.len() == s2.len(),
        s1.len() >= 4,
        k <= word_count(s1),
        forall|i: int| 0 <= i < s1.len() && i != 2 && i != 3 ==> s1[i] == s2[i],
    ensures
        k <= 1 ==> sum_words(s2, k) == sum_words(s1, k),
        k >= 2 ==> sum_words(s2, k) == sum_words(s1, k) - word_at(s1, 1) + word_at(s2, 1),
    decreases k,
{
    if k > 0 {
        lemma_sum_words_differ_word_one(s1, s2, (k - 1) as nat);
        let j = (k - 1) as nat;
        if j != 1 {
            assert(2 * j < s1.len());
            assert(2 * j != 2 && 2 * j != 3 && 2 * j + 1 != 2 && 2 * j + 1 != 3);
            assert(word_at(s2, j) == word_at(s1, j));
        }
    }
}

/// Writing checksum `c` into bytes 2 and 3 (big-endian) of a string whose
/// bytes 2 and 3 were zero adds exactly `c` to the word sum.
pub proof fn lemma_sum_after_checksum_write(s: Seq<u8>, c: int)
    requires
        s.len() >= 8,
        s[2] == 0,
        s[3] == 0,
        0 <= c <= 0xFFFF,
    ensures
        checksum_input_sum(s.update(2, (c / 256) as u8).update(3, (c % 256) as u8))
            == checksum_input_sum(s) + c,
{
    let s2 = s.update(2, (c / 256) as u8).update(3, (c % 256) as u8);
    lemma_mod_bound(c, 256);
    lemma_fundamental_div_mod(c, 256);
    assert(0 <= c / 256 < 256) by (nonlinear_arith)
        requires
            0 <= c <= 0xFFFF,
            c == 256 * (c / 256) + c % 256,
            0 <= c % 256 < 256,
    ;
    assert(word_at(s, 1) == 0);
    assert(word_at(s2, 1) == c);
    lemma_sum_words_differ_word_one(s, s2, word_count(s));
}

/// A value in `(0, 0xFFFF]` that is divisible by `0xFFFF` is `0xFFFF` itself.
proof fn lemma_multiple_in_range(x: int)
    requires
        0 < x <= 0xFFFF,
        x % 0xFFFF == 0,
    ensures
        x == 0xFFFF,
{
    lemma_fundamental_div_mod(x, 0xFFFF);
    let q = x / 0xFFFF;
    assert(x == 0xFFFF * q);
    assert(q == 1) by (nonlinear_arith)
        requires
            x == 0xFFFF * q,
            0 < x <= 0xFFFF,
    ;
}

/// Law: writing the checksum of a byte string (whose checksum field held
/// zero) into bytes 2 and 3 makes the checksum recomputed over the result
/// zero.  This is what lets a receiver validate a packet by summing all of
/// its words, checksum included.
pub proof fn lemma_recomputed_checksum_is_zero(s: Seq<u8>)
    requires
        s.len() >= 8,
        s[2] == 0,
        s[3] == 0,
    ensures
        spec_checksum(
            s.update(2, (spec_checksum(s) / 256) as u8).update(
                3,
                (spec_checksum(s) % 256) as u8,
            ),
        ) == 0,
{
    let sum0 = checksum_input_sum(s);
    lemma_sum_words_nonneg(s, word_count(s));
    lemma_fold16_properties(sum0);
    let c = spec_checksum(s);
    assert(0 <= c <= 0xFFFF);
    lemma_sum_after_checksum_write(s, c);
    let s2 = s.update(2, (c / 256) as u8).update(3, (c % 256) as u8);
    let sum1 = checksum_input_sum(s2);
    assert(sum1 == sum0 + 0xFFFF - fold16(sum0));
    lemma_fold16_properties(sum1);
    // sum0 - fold16(sum0) is divisible by 0xFFFF, hence so is sum1, hence so
    // is fold16(sum1); fold16(sum1) lies in (0, 0xFFFF], so it is 0xFFFF.
    lemma_sub_mod_noop(sum0, fold16(sum0), 0xFFFF);
    assert((sum0 - fold16(sum0)) % 0xFFFF == 0);
    lemma_mod_multiples_vanish(1, sum0 - fold16(sum0), 0xFFFF);
    assert(sum1 % 0xFFFF == (sum0 - fold16(sum0)) % 0xFFFF);
    assert(fold16(sum1) % 0xFFFF == 0);
    assert(sum1 >= 0xFFFF);
    assert(fold16(sum1) > 0);
    lemma_multiple_in_range(fold16(sum1));
}

/// Computes the RFC 1071 internet checksum of `data`.
///
/// Sums the 16-bit big-endian words (padding a trailing odd byte with a zero
/// low byte), folds the carries back in, and returns the one's complement of
/// the folded sum.
pub fn internet_checksum(data: &Vec<u8>) -> (r: u16)
    requires
        data@.len() < 0x10000,
    ensures
        r == spec_checksum(data@),
{
    let n = data.len();
    let mut acc: u64 = 0;
    let mut i: usize = 0;
    while i < n
        invariant
            i % 2 == 0,
            i <= n + 1,
            n == data@.len(),
            n < 0x10000,
            acc == sum_words(data@, (i / 2) as nat),
            acc <= 0xFFFF * (i / 2),
        decreases n + 1 - i,
    {
        let hi: u64 = data[i] as u64 * 256;
        let w: u64 = if i + 1 < n {
            hi + data[i + 1] as u64
        } else {
            hi
        };
        assert(w == word_at(data@, (i / 2) as nat));
        assert(sum_words(data@, (i / 2 + 1) as nat) == sum_words(data@, (i / 2) as nat)
            + word_at(data@, (i / 2) as nat));
        acc = acc + w;
        i = i + 2;
    }
    assert(i / 2 == word_count(data@));
    let ghost total = acc as int;
    let mut folded: u64 = acc;
    while folded > 0xFFFF
        invariant
            folded >= 0,
            fold16(folded as int) == fold16(total),
        decreases folded,
    {
        proof {
            lemma_fold16_step_decreases(folded as int);
        }
        folded = folded / 0x10000 + folded % 0x10000;
    }
    assert(fold16(folded as int) == folded as int);
    0xFFFF - (folded as u16)
}

} // verus!
