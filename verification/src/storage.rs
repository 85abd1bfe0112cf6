//! Plain 128-bit storage that any vector type can be packed into and
//! unpacked from without changing its bits.
use vstd::prelude::*;

verus! {

/// 128 bits held outside of any vector type.
#[derive(Clone, Copy, Debug)]
pub struct vec128_storage {
    bits: u128,
}

impl vec128_storage {
    /// The stored bits.
    pub closed spec fn bits(self) -> u128 {
        self.bits
    }

    /// The storage that holds `b`.
    pub closed spec fn with_bits(b: u128) -> Self {
        vec128_storage { bits: b }
    }

    /// Stores `b`.
    pub(crate) fn store(b: u128) -> (r: Self)
        ensures
            r == Self::with_bits(b),
            r.bits() == b,
    {
        vec128_storage { bits: b }
    }

    /// Reads the stored bits.
    pub(crate) fn load(self) -> (r: u128)
        ensures
            r == self.bits(),
    {
        self.bits
    }
}

} // verus!
