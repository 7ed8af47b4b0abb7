//! Real numbers as they travel through the gateway.

use vstd::prelude::*;

verus! {

/// A binary64 number, held by its bit pattern.
///
/// The gateway never computes with coordinates or altitudes: it moves them
/// from a request into the records that it sends on. Holding the bit pattern
/// keeps every value, the two zeros and each NaN included, exactly as it came.
#[derive(Clone, Copy, Debug, PartialEq, Eq, Structural)]
pub struct Real {
    /// The IEEE 754 binary64 encoding of the number.
    pub bits: u64,
}

impl Real {
    /// Positive zero.
    pub fn zero() -> (r: Real)
        ensures
            r == Real::spec_zero(),
    {
        Real { bits: 0 }
    }

    /// Positive zero, whose encoding has no bit set.
    pub open spec fn spec_zero() -> Real {
        Real { bits: 0 }
    }

    /// The number with the given encoding.
    pub fn from_bits(bits: u64) -> (r: Real)
        ensures
            r.bits == bits,
    {
        Real { bits }
    }

    /// The encoding of the number.
    pub fn to_bits(&self) -> (bits: u64)
        ensures
            bits == self.bits,
    {
        self.bits
    }
}

} // verus!
