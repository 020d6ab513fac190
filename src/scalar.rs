//! Double-precision values carried as their IEEE-754 bit patterns.
//!
//! The native library reads and writes 64-bit binary floating point. The model
//! layer never computes with these numbers: it stores, moves and compares them.
//! Holding the bit pattern keeps that traffic exact.
use vstd::prelude::*;

verus! {

/// Bit pattern of `0.0`.
pub const ZERO_BITS: u64 = 0x0000_0000_0000_0000;

/// Bit pattern of `1.0`.
pub const ONE_BITS: u64 = 0x3FF0_0000_0000_0000;

/// Bit pattern of the most negative finite double.
pub const LOWEST_BITS: u64 = 0xFFEF_FFFF_FFFF_FFFF;

/// Bit pattern of the largest finite double.
pub const HIGHEST_BITS: u64 = 0x7FEF_FFFF_FFFF_FFFF;

/// A double-precision number, held as its bit pattern. Two values are equal
/// when their bit patterns are.
#[derive(Clone, Copy, PartialEq, Eq, Structural, Debug)]
pub struct Real {
    pub bits: u64,
}

impl Real {
    pub open spec fn highest_spec() -> Real {
        Real { bits: HIGHEST_BITS }
    }

    pub open spec fn lowest_spec() -> Real {
        Real { bits: LOWEST_BITS }
    }

    pub open spec fn zero_spec() -> Real {
        Real { bits: ZERO_BITS }
    }

    /// `1.0`.
    pub open spec fn one_spec() -> Real {
        Real { bits: ONE_BITS }
    }

    /// The number whose bit pattern is `bits`.
    pub fn from_bits(bits: u64) -> (r: Real)
        ensures
            r.bits == bits,
    {
        Real { bits }
    }

    /// The bit pattern of this number.
    pub fn to_bits(&self) -> (r: u64)
        ensures
            r == self.bits,
    {
        self.bits
    }

    /// `0.0`.
    pub fn zero() -> (r: Real)
        ensures
            r == Real::zero_spec(),
    {
        Real { bits: ZERO_BITS }
    }

    /// `1.0`.
    pub fn one() -> (r: Real)
        ensures
            r == Real::one_spec(),
    {
        Real { bits: ONE_BITS }
    }

    /// The most negative finite double, the default lower bound of a variable.
    pub fn lowest() -> (r: Real)
        ensures
            r == Real::lowest_spec(),
    {
        Real { bits: LOWEST_BITS }
    }

    /// The largest finite double, the default upper bound of a variable.
    pub fn highest() -> (r: Real)
        ensures
            r == Real::highest_spec(),
    {
        Real { bits: HIGHEST_BITS }
    }
}

} // verus!
