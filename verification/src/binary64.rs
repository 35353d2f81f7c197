//! Real quantities, held as IEEE 754 binary64 bit patterns.
//!
//! The core never does arithmetic on a quantity. It stores it, hands it on,
//! and asks one question of it: does it compare equal to zero?

use vstd::prelude::*;

verus! {

/// The bit pattern of positive zero.
pub const POSITIVE_ZERO_BITS: u64 = 0;

/// The bit pattern of negative zero: the sign bit alone.
pub const NEGATIVE_ZERO_BITS: u64 = 0x8000_0000_0000_0000;

/// A real quantity as the 64 bits of an IEEE 754 double.
#[derive(Clone, Copy, Debug, PartialEq, Eq, Structural)]
pub struct Binary64 {
    pub bits: u64,
}

impl Binary64 {
    /// Whether the quantity compares equal to zero. Both signed zeros do;
    /// nothing else does, a NaN included.
    pub open spec fn is_zero(self) -> bool {
        self.bits == POSITIVE_ZERO_BITS || self.bits == NEGATIVE_ZERO_BITS
    }

    /// The quantity with the given bit pattern.
    pub fn from_bits(bits: u64) -> (r: Self)
        ensures
            r.bits == bits,
    {
        Binary64 { bits }
    }

    /// The bit pattern of the quantity.
    pub fn to_bits(self) -> (r: u64)
        ensures
            r == self.bits,
    {
        self.bits
    }

    /// Positive zero, the value of a field that was never set.
    pub fn zero() -> (r: Self)
        ensures
            r.bits == POSITIVE_ZERO_BITS,
            r.is_zero(),
    {
        Binary64 { bits: POSITIVE_ZERO_BITS }
    }

    /// Tests whether the quantity compares equal to zero.
    pub fn equals_zero(self) -> (r: bool)
        ensures
            r == self.is_zero(),
    {
        self.bits == POSITIVE_ZERO_BITS || self.bits == NEGATIVE_ZERO_BITS
    }
}

} // verus!
