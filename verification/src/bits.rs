//! Bit-level vocabulary shared by the encoder and the decoders: single bits of
//! a 64-bit word, low-bit masks, and bit sequences in least-significant-first
//! order.

use vstd::arithmetic::power2::lemma2_to64;
use vstd::arithmetic::power2::lemma2_to64_rest;
use vstd::arithmetic::power2::pow2;
use vstd::bits::lemma_u64_pow2_no_overflow;
use vstd::bits::lemma_u64_shl_is_mul;
use vstd::prelude::*;

verus! {

/// Bit `i` of `x`, counted from the least significant bit. Positions outside
/// `0..64` hold no bit and read as `false`.
pub open spec fn bit(x: u64, i: int) -> bool {
    0 <= i < 64 && (x >> (i as u64)) & 1 == 1
}

/// The word whose `n` low bits are set and whose other bits are clear. It
/// saturates: from 64 bits on it is the all-ones word.
pub open spec fn low_mask(n: int) -> u64 {
    if n >= 64 {
        u64::MAX
    } else if n <= 0 {
        0
    } else {
        ((1u64 << (n as u64)) - 1) as u64
    }
}

/// The mask of `n` bits is the largest number of `n` binary digits.
pub proof fn lemma_low_mask_value(n: nat)
    requires
        n <= 64,
    ensures
        low_mask(n as int) == pow2(n) - 1,
{
    lemma2_to64();
    lemma2_to64_rest();
    if 0 < n < 64 {
        lemma_u64_pow2_no_overflow(n);
        lemma_u64_shl_is_mul(1, n as u64);
    }
}

/// The `n` low bits of `x`, least significant first.
pub open spec fn low_bits(x: u64, n: nat) -> Seq<bool> {
    Seq::new(n, |i: int| bit(x, i))
}

/// `n` copies of `value`.
pub open spec fn repeated(value: bool, n: nat) -> Seq<bool> {
    Seq::new(n, |i: int| value)
}

/// Reads one bit of a word.
pub(crate) fn bit_at(x: u64, i: u32) -> (b: bool)
    requires
        i < 64,
    ensures
        b == bit(x, i as int),
{
    (x >> i) & 1 == 1
}

/// Builds the saturating low-bit mask of `n` bits.
pub(crate) fn mask_of(n: u32) -> (m: u64)
    ensures
        m == low_mask(n as int),
{
    if n >= 64 {
        u64::MAX
    } else if n == 0 {
        0
    } else {
        assert((1u64 << n) >= 1) by (bit_vector)
            requires
                n < 64,
        ;
        (1u64 << n) - 1
    }
}

/// A masked word keeps exactly the bits below the mask's width.
pub proof fn lemma_masked_bit(x: u64, n: int, i: int)
    requires
        0 <= n,
    ensures
        bit(x & low_mask(n), i) == (i < n && bit(x, i)),
{
    if 0 <= i < 64 {
        let m = low_mask(n);
        let iu = i as u64;
        if n >= 64 {
            assert(x & u64::MAX == x) by (bit_vector);
        } else if n == 0 {
            assert(((x & 0) >> iu) & 1 == 0) by (bit_vector);
        } else {
            let nu = n as u64;
            assert((((x & m) >> iu) & 1 == 1) == (iu < nu && (x >> iu) & 1 == 1)) by (bit_vector)
                requires
                    0 < nu < 64,
                    iu < 64,
                    m == ((1u64 << nu) - 1) as u64,
            ;
        }
    }
}

/// Every bit below the width of a low-bit mask is set, and no other.
pub proof fn lemma_mask_bits(n: int, i: int)
    requires
        0 <= n,
    ensures
        bit(low_mask(n), i) == (0 <= i < 64 && i < n),
{
    lemma_masked_bit(u64::MAX, n, i);
    let m = low_mask(n);
    assert(u64::MAX & m == m) by (bit_vector);
    if 0 <= i < 64 {
        let iu = i as u64;
        assert((u64::MAX >> iu) & 1 == 1) by (bit_vector)
            requires
                iu < 64,
        ;
    }
}

/// Shifting right by `k` moves bit `k + i` down to position `i`.
pub proof fn lemma_shifted_bit(x: u64, k: int, i: int)
    requires
        0 <= k < 64,
        0 <= i,
    ensures
        bit(x >> (k as u64), i) == bit(x, k + i),
{
    if i < 64 {
        let ku = k as u64;
        let iu = i as u64;
        if k + i < 64 {
            let su = (k + i) as u64;
            assert(((x >> ku) >> iu) & 1 == (x >> su) & 1) by (bit_vector)
                requires
                    ku < 64,
                    iu < 64,
                    su == ku + iu,
                    su < 64,
            ;
        } else {
            assert(((x >> ku) >> iu) & 1 == 0) by (bit_vector)
                requires
                    ku < 64,
                    iu < 64,
                    ku + iu >= 64,
            ;
        }
    }
}

/// Two words that agree on their `n` low bits are equal under the mask of
/// `n` bits.
pub proof fn lemma_low_bits_determine(a: u64, b: u64, n: int)
    requires
        0 <= n <= 64,
        forall|i: int| 0 <= i < n ==> bit(a, i) == bit(b, i),
    ensures
        a & low_mask(n) == b & low_mask(n),
    decreases n,
{
    if n == 0 {
        assert(a & 0 == b & 0) by (bit_vector);
    } else {
        lemma_low_bits_determine(a, b, n - 1);
        let p = (n - 1) as u64;
        let m0 = low_mask(n - 1);
        let m1 = low_mask(n);
        assert(bit(a, n - 1) == bit(b, n - 1));
        assert(a & m1 == b & m1) by (bit_vector)
            requires
                p < 64,
                m0 == (if p == 0 { 0u64 } else { ((1u64 << p) - 1) as u64 }),
                m1 == (if p == 63 { 0xffff_ffff_ffff_ffffu64 } else { ((1u64 << ((p + 1) as u64)) - 1) as u64 }),
                a & m0 == b & m0,
                ((a >> p) & 1 == 1) == ((b >> p) & 1 == 1),
        ;
    }
}

/// Two words with the same 64 bits are the same word.
pub proof fn lemma_bits_determine(a: u64, b: u64)
    requires
        forall|i: int| 0 <= i < 64 ==> bit(a, i) == bit(b, i),
    ensures
        a == b,
{
    lemma_low_bits_determine(a, b, 64);
    assert(a & u64::MAX == a) by (bit_vector);
    assert(b & u64::MAX == b) by (bit_vector);
}

/// The word whose bit `i`, for `i` below `n`, is `bits[i]`; positions that
/// `bits` does not reach, and all from `n` on, are clear. It reads `bits` as a
/// binary numeral, least significant digit first.
pub open spec fn word_from(bits: Seq<bool>, n: nat) -> u64
    decreases n,
{
    if n == 0 {
        0
    } else {
        let low = word_from(bits, (n - 1) as nat);
        if n <= 64 && n - 1 < bits.len() && bits[n - 1] {
            low | (1u64 << ((n - 1) as u64))
        } else {
            low
        }
    }
}

/// The bits of `word_from(bits, n)` are the first `n` bits of `bits`.
pub proof fn lemma_word_from_bit(bits: Seq<bool>, n: nat, i: int)
    ensures
        bit(word_from(bits, n), i) == (0 <= i < 64 && i < n && i < bits.len() && bits[i]),
    decreases n,
{
    if n == 0 {
        if 0 <= i < 64 {
            let iu = i as u64;
            assert((0u64 >> iu) & 1 == 0) by (bit_vector);
        }
    } else {
        lemma_word_from_bit(bits, (n - 1) as nat, i);
        let low = word_from(bits, (n - 1) as nat);
        if n <= 64 && n - 1 < bits.len() && bits[n - 1] && 0 <= i < 64 {
            let p = (n - 1) as u64;
            let iu = i as u64;
            assert((((low | (1u64 << p)) >> iu) & 1 == 1) == (((low >> iu) & 1 == 1) || iu == p))
                by (bit_vector)
                requires
                    p < 64,
                    iu < 64,
            ;
        }
    }
}

/// Reading the `n` low bits of a word back as a numeral gives the word's
/// `n` low bits.
pub proof fn lemma_word_from_low_bits(x: u64, n: nat)
    requires
        n <= 64,
    ensures
        word_from(low_bits(x, n), n) == x & low_mask(n as int),
{
    let w = word_from(low_bits(x, n), n);
    let y = x & low_mask(n as int);
    assert forall|i: int| 0 <= i < 64 implies bit(w, i) == bit(y, i) by {
        lemma_word_from_bit(low_bits(x, n), n, i);
        lemma_masked_bit(x, n as int, i);
    }
    lemma_bits_determine(w, y);
}

/// The 64-bit words that hold `bits`, the first bit in the least significant
/// position of the first word; the unused high bits of the last word are
/// clear.
pub open spec fn packed(bits: Seq<bool>) -> Seq<u64> {
    Seq::new(((bits.len() + 63) / 64) as nat, |k: int| word_from(bits.skip(64 * k), 64))
}

} // verus!
