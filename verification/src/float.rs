//! Double-precision numbers as the bit patterns that carry them.

use vstd::prelude::*;

verus! {

/// The IEEE 754 bit pattern of a double. Positive finite doubles and +infinity
/// are ordered as their patterns are.
#[derive(Clone, Copy, Debug, PartialEq, Eq, Structural)]
pub struct Float64 {
    pub bits: u64,
}

/// 1.0
pub const ONE_BITS: u64 = 0x3ff0_0000_0000_0000;

/// Positive infinity
pub const INFINITY_BITS: u64 = 0x7ff0_0000_0000_0000;

/// The sign bit, which is also the pattern of -0.0
pub const SIGN_BIT: u64 = 0x8000_0000_0000_0000;

/// Negative infinity
pub const NEG_INFINITY_BITS: u64 = 0xfff0_0000_0000_0000;

impl Float64 {
    /// 0.0
    pub fn zero() -> (r: Float64)
        ensures
            r == (Float64 { bits: 0 }),
    {
        Float64 { bits: 0 }
    }

    /// 1.0
    pub fn one() -> (r: Float64)
        ensures
            r == (Float64 { bits: ONE_BITS }),
    {
        Float64 { bits: ONE_BITS }
    }

    pub fn from_bits(bits: u64) -> (r: Float64)
        ensures
            r.bits == bits,
    {
        Float64 { bits }
    }

    pub fn to_bits(self) -> (r: u64)
        ensures
            r == self.bits,
    {
        self.bits
    }

    /// Greater than zero: the sign is clear and the number is neither zero nor
    /// a NaN.
    pub open spec fn positive(self) -> bool {
        0 < self.bits <= INFINITY_BITS
    }

    /// Less than zero.
    pub open spec fn negative(self) -> bool {
        SIGN_BIT < self.bits <= NEG_INFINITY_BITS
    }

    /// Greater than one.
    pub open spec fn above_one(self) -> bool {
        ONE_BITS < self.bits <= INFINITY_BITS
    }

    pub fn is_positive(self) -> (r: bool)
        ensures
            r == self.positive(),
    {
        0 < self.bits && self.bits <= INFINITY_BITS
    }

    /// The number limited to the range 0.0 to 1.0. A NaN stays a NaN, and -0.0,
    /// which equals 0.0, stays as it is.
    pub open spec fn clamped_to_unit(self) -> Float64 {
        if self.negative() {
            Float64 { bits: 0 }
        } else if self.above_one() {
            Float64 { bits: ONE_BITS }
        } else {
            self
        }
    }

    pub fn clamp_to_unit(self) -> (r: Float64)
        ensures
            r == self.clamped_to_unit(),
            !r.negative() && !r.above_one(),
    {
        if SIGN_BIT < self.bits && self.bits <= NEG_INFINITY_BITS {
            Float64::zero()
        } else if ONE_BITS < self.bits && self.bits <= INFINITY_BITS {
            Float64::one()
        } else {
            self
        }
    }

    /// The number with its sign flipped.
    pub open spec fn negated(self) -> Float64 {
        if self.bits < SIGN_BIT {
            Float64 { bits: (self.bits + SIGN_BIT) as u64 }
        } else {
            Float64 { bits: (self.bits - SIGN_BIT) as u64 }
        }
    }

    pub fn negate(self) -> (r: Float64)
        ensures
            r == self.negated(),
    {
        if self.bits < SIGN_BIT {
            Float64 { bits: self.bits + SIGN_BIT }
        } else {
            Float64 { bits: self.bits - SIGN_BIT }
        }
    }
}

/// Flipping the sign twice gives the number back.
pub proof fn negation_is_its_own_inverse(x: Float64)
    ensures
        x.negated().negated() == x,
{
}

} // verus!
