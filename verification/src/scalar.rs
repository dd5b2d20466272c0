//! Single-precision numbers as bit patterns.

use vstd::prelude::*;

verus! {

/// Bits of `0.0`.
pub const ZERO_BITS: u32 = 0x0000_0000;

/// Bits of `0.5`.
pub const HALF_BITS: u32 = 0x3F00_0000;

/// Bits of `1.0`.
pub const ONE_BITS: u32 = 0x3F80_0000;

/// Bits of `4.0`.
pub const FOUR_BITS: u32 = 0x4080_0000;

/// Bits of `10.0`.
pub const TEN_BITS: u32 = 0x4120_0000;

/// Bits of `20.0`.
pub const TWENTY_BITS: u32 = 0x41A0_0000;

/// Bits of `30.0`.
pub const THIRTY_BITS: u32 = 0x41F0_0000;

/// Bits of `50.0`.
pub const FIFTY_BITS: u32 = 0x4248_0000;

/// Bits of `100.0`.
pub const HUNDRED_BITS: u32 = 0x42C8_0000;

/// Bits of `0.1`, rounded to nearest.
pub const TENTH_BITS: u32 = 0x3DCC_CCCD;

/// Bits of `0.0025`, rounded to nearest.
pub const QUARTER_PERCENT_BITS: u32 = 0x3B23_D70A;

/// Bits of `128 / 255`, the green channel of CSS green, rounded to nearest.
pub const CSS_GREEN_BITS: u32 = 0x3F00_8081;

/// Bits of the golden ratio less its integer part: `0.618034`.
pub const GOLDEN_FRACTION_BITS: u32 = 0x3F1E_377A;

/// Bits of pi less its integer part: `0.14159274`.
pub const PI_FRACTION_BITS: u32 = 0x3E10_FDB0;

/// Bits of Euler's number less its integer part: `0.71828175`.
pub const E_FRACTION_BITS: u32 = 0x3F37_E150;

/// A single-precision IEEE-754 number, held by its bit pattern.
///
/// Two scalars are equal when their bits are: `0.0` and `-0.0` differ, and a
/// NaN equals itself.
#[derive(Clone, Copy, Debug, PartialEq, Eq, Structural)]
pub struct Scalar {
    pub bits: u32,
}

impl Scalar {
    /// The scalar with the given bit pattern.
    pub fn from_bits(bits: u32) -> (s: Scalar)
        ensures
            s.bits == bits,
    {
        Scalar { bits }
    }

    /// The bit pattern of the scalar.
    pub fn to_bits(self) -> (bits: u32)
        ensures
            bits == self.bits,
    {
        self.bits
    }
}

} // verus!
