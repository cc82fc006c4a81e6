//! The growable bit vector that the encoder fills, kept behind a small set of
//! operations whose contracts are taken on trust from the `bitvec` crate.

use bitvec::order::Lsb0;
use bitvec::vec::BitVec;
use vstd::prelude::*;

use crate::bits::bit;
use crate::bits::repeated;

verus! {

/// A `bitvec::vec::BitVec<u64, Lsb0>`. The field is private and the only
/// operations on it are the ones below, so every buffer starts empty and grows
/// by single pushes: its first bit sits at bit 0 of its first storage word.
#[verifier::external_body]
pub struct BitBuffer {
    inner: BitVec<u64, Lsb0>,
}

/// The bits that a buffer holds, in the order in which they were pushed.
pub uninterp spec fn held_bits(buffer: BitBuffer) -> Seq<bool>;

/// Every bit of the 64-bit words that back a buffer, word by word and least
/// significant bit first: the held bits and, behind them, the unused bits of
/// the last word.
pub uninterp spec fn storage_bits(buffer: BitBuffer) -> Seq<bool>;

/// The largest number of bits that a buffer can hold.
pub open spec fn max_bits() -> int {
    (usize::MAX / 8) as int
}

/// The number of padding bits that round `len` bits up to whole 64-bit words.
pub open spec fn padding_len(len: nat) -> nat {
    (((len + 63) / 64) * 64 - len) as nat
}

impl BitBuffer {
    /// `BitVec::new`: the new vector holds no bit.
    #[verifier::external_body]
    pub(crate) fn new() -> (buffer: BitBuffer)
        ensures
            held_bits(buffer) == Seq::<bool>::empty(),
    {
        BitBuffer { inner: BitVec::new() }
    }

    /// `BitVec::push`: appends one bit behind the held ones. The crate panics
    /// when the vector already holds its maximum, `usize::MAX >> 3` bits; that
    /// case is left out here.
    #[verifier::external_body]
    pub(crate) fn push(&mut self, value: bool)
        requires
            held_bits(*old(self)).len() < max_bits(),
        ensures
            held_bits(*final(self)) == held_bits(*old(self)).push(value),
    {
        self.inner.push(value)
    }

    /// `BitVec::len`: the number of held bits, which never exceeds the
    /// crate's maximum.
    #[verifier::external_body]
    pub(crate) fn len(&self) -> (n: usize)
        ensures
            n == held_bits(*self).len(),
            n <= max_bits(),
    {
        self.inner.len()
    }

    /// `BitVec::set_uninitialized`: keeps the held bits and overwrites the
    /// unused bits of the storage words with `value`. Afterwards the storage
    /// is the held bits followed by copies of `value` up to the next multiple
    /// of 64.
    #[verifier::external_body]
    pub(crate) fn set_uninitialized(&mut self, value: bool)
        ensures
            held_bits(*final(self)) == held_bits(*old(self)),
            storage_bits(*final(self)) == held_bits(*old(self)) + repeated(
                value,
                padding_len(held_bits(*old(self)).len()),
            ),
    {
        self.inner.set_uninitialized(value)
    }

    /// `BitVec::into_vec`: hands out the storage words. Bit `j` of word `k` is
    /// storage bit `64 * k + j`, which is what the `Lsb0` order means.
    #[verifier::external_body]
    pub(crate) fn into_vec(self) -> (words: Vec<u64>)
        ensures
            words@.len() * 64 == storage_bits(self).len(),
            forall|k: int, j: int|
                0 <= k < words@.len() && 0 <= j < 64 ==> #[trigger] bit(words@[k], j)
                    == storage_bits(self)[64 * k + j],
    {
        self.inner.into_vec()
    }
}

} // verus!
