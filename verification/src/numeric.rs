//! Real-valued settings carried without arithmetic.

use vstd::prelude::*;

verus! {

/// A double-precision number held by its IEEE-754 bit pattern. The library
/// stores, copies and compares such settings but never computes with them, so
/// the bit pattern is all it needs; callers convert with the standard
/// bit-pattern conversions of the double-precision type.
#[derive(Debug, Clone, Copy, PartialEq, Eq, Structural)]
pub struct FloatBits {
    pub bits: u64,
}

impl FloatBits {
    pub fn from_bits(bits: u64) -> (res: Self)
        ensures
            res.bits == bits,
    {
        FloatBits { bits }
    }

    pub fn to_bits(self) -> (bits: u64)
        ensures
            bits == self.bits,
    {
        self.bits
    }
}

} // verus!
