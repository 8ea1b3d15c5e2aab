//! The bit-vector backing of attribute subsets, held behind a trusted
//! boundary: the bitvec crate stores the bits, and each operation the
//! library relies on carries the contract that bitvec's source shows.

use vstd::prelude::*;

verus! {

/// A growable vector of bits, backed by bitvec's `BitVec`.
#[verifier::external_body]
pub struct BitBuf {
    bits: bitvec::vec::BitVec,
}

/// The bits a bit buffer holds, in index order.
pub uninterp spec fn bits_of(b: BitBuf) -> Seq<bool>;

impl BitBuf {
    /// Relies on bitvec's BitVec::repeat: a vector of `len` copies of the
    /// bit.
    #[verifier::external_body]
    pub fn new_false(len: usize) -> (r: BitBuf)
        ensures
            bits_of(r) == Seq::new(len as nat, |i: int| false),
    {
        BitBuf { bits: bitvec::vec::BitVec::repeat(false, len) }
    }

    /// Relies on bitvec's BitSlice::len: the number of bits.
    #[verifier::external_body]
    pub fn len(&self) -> (r: usize)
        ensures
            r == bits_of(*self).len(),
    {
        self.bits.len()
    }

    /// Relies on bitvec's Index for BitSlice: the bit at the index.
    #[verifier::external_body]
    pub fn get(&self, i: usize) -> (r: bool)
        requires
            i < bits_of(*self).len(),
        ensures
            r == bits_of(*self)[i as int],
    {
        self.bits[i]
    }

    /// Relies on bitvec's BitSlice::set: writes one bit, keeping the rest.
    #[verifier::external_body]
    pub fn set(&mut self, i: usize, v: bool)
        requires
            i < bits_of(*old(self)).len(),
        ensures
            bits_of(*final(self)) == bits_of(*old(self)).update(i as int, v),
    {
        self.bits.set(i, v);
    }

    /// Relies on bitvec's BitSlice::fill: writes one value into every bit.
    #[verifier::external_body]
    pub fn fill_false(&mut self)
        ensures
            bits_of(*final(self)) == Seq::new(bits_of(*old(self)).len(), |i: int| false),
    {
        self.bits.fill(false);
    }

    /// Relies on bitvec's BitSlice::copy_from_bitslice: copies all bits from
    /// a slice of the same length.
    #[verifier::external_body]
    pub fn copy_from(&mut self, other: &BitBuf)
        requires
            bits_of(*other).len() == bits_of(*old(self)).len(),
        ensures
            bits_of(*final(self)) == bits_of(*other),
    {
        self.bits.copy_from_bitslice(&other.bits);
    }

    /// Relies on bitvec's PartialEq for BitVec: equal lengths and equal bits
    /// at every index.
    #[verifier::external_body]
    pub fn equals(&self, other: &BitBuf) -> (r: bool)
        ensures
            r == (bits_of(*self) =~= bits_of(*other)),
    {
        self.bits == other.bits
    }
}

} // verus!
