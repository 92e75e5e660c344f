//! Single-precision values by their IEEE 754 encoding.
//!
//! Bit 31 is the sign, bits 30..23 the exponent and bits 22..0 the fraction.
//! With the sign removed, the encodings of the non-NaN values are ordered as
//! the magnitudes they stand for, which is all that this module relies on.

use vstd::prelude::*;

verus! {

/// The encoding's sign bit.
pub const SIGN_BIT: u32 = 0x8000_0000;

/// The encoding of positive infinity; every larger magnitude is a NaN.
pub const INFINITY_BITS: u32 = 0x7f80_0000;

/// The encoding of `1.0`.
pub const ONE_BITS: u32 = 0x3f80_0000;

/// The encoding of `0.5`.
pub const HALF_BITS: u32 = 0x3f00_0000;

/// A single-precision value, held as its encoding.
///
/// The derived `==` compares encodings: it tells `-0.0` from `0.0` and finds a
/// NaN equal to itself. [`Scalar::eq_value`] is the comparison of values.
#[derive(Clone, Copy, Debug, PartialEq, Eq, Structural)]
pub struct Scalar {
    pub bits: u32,
}

impl Scalar {
    /// The encoding without its sign bit.
    pub open spec fn magnitude(self) -> int {
        if self.bits >= SIGN_BIT {
            self.bits - SIGN_BIT
        } else {
            self.bits as int
        }
    }

    /// The sign bit is set (true of `-0.0` and of some NaNs as well).
    pub open spec fn negative_sign(self) -> bool {
        self.bits >= SIGN_BIT
    }

    /// The value is a NaN.
    pub open spec fn nan(self) -> bool {
        self.magnitude() > INFINITY_BITS
    }

    /// The value is positive or negative infinity.
    pub open spec fn infinite(self) -> bool {
        self.magnitude() == INFINITY_BITS
    }

    /// The value is neither infinite nor a NaN.
    pub open spec fn finite(self) -> bool {
        self.magnitude() < INFINITY_BITS
    }

    /// The value is `0.0` or `-0.0`.
    pub open spec fn zero(self) -> bool {
        self.magnitude() == 0
    }

    /// The place of a non-NaN value in the order of the values: the magnitude,
    /// negated under a set sign bit. Both zeros have rank 0.
    pub open spec fn rank(self) -> int {
        if self.negative_sign() {
            -self.magnitude()
        } else {
            self.magnitude()
        }
    }

    /// `self < other` as IEEE 754 defines it: false whenever a NaN is involved.
    pub open spec fn below(self, other: Scalar) -> bool {
        !self.nan() && !other.nan() && self.rank() < other.rank()
    }

    /// `self <= other` as IEEE 754 defines it.
    pub open spec fn at_most(self, other: Scalar) -> bool {
        !self.nan() && !other.nan() && self.rank() <= other.rank()
    }

    /// `self == other` as IEEE 754 defines it: the zeros are equal, a NaN
    /// equals nothing.
    pub open spec fn same_value(self, other: Scalar) -> bool {
        !self.nan() && !other.nan() && self.rank() == other.rank()
    }

    /// The value is strictly greater than zero.
    pub open spec fn positive(self) -> bool {
        !self.nan() && self.rank() > 0
    }

    /// `self` brought into `[low, high]`: `low` if `self < low`, else `high`
    /// if `self > high`, else `self`. A NaN is below and above nothing, so it
    /// is returned as it is, and a NaN bound bounds nothing.
    pub open spec fn clamped(self, low: Scalar, high: Scalar) -> Scalar {
        if self.below(low) {
            low
        } else if high.below(self) {
            high
        } else {
            self
        }
    }

    pub fn from_bits(bits: u32) -> (s: Scalar)
        ensures
            s.bits == bits,
    {
        Scalar { bits }
    }

    pub fn to_bits(&self) -> (bits: u32)
        ensures
            bits == self.bits,
    {
        self.bits
    }

    /// The value `0.0`.
    pub fn zero_value() -> (s: Scalar)
        ensures
            s.bits == 0,
            s.zero(),
            !s.negative_sign(),
    {
        Scalar { bits: 0 }
    }

    /// The value `1.0`.
    pub fn one_value() -> (s: Scalar)
        ensures
            s.bits == ONE_BITS,
            s.finite(),
            s.positive(),
    {
        Scalar { bits: ONE_BITS }
    }

    /// The value `0.5`.
    pub fn half_value() -> (s: Scalar)
        ensures
            s.bits == HALF_BITS,
            s.finite(),
            s.positive(),
    {
        Scalar { bits: HALF_BITS }
    }

    fn magnitude_bits(&self) -> (m: u32)
        ensures
            m == self.magnitude(),
    {
        if self.bits >= SIGN_BIT {
            self.bits - SIGN_BIT
        } else {
            self.bits
        }
    }

    fn rank_value(&self) -> (r: i64)
        ensures
            r == self.rank(),
    {
        let m: u32 = self.magnitude_bits();
        if self.bits >= SIGN_BIT {
            -(m as i64)
        } else {
            m as i64
        }
    }

    pub fn is_sign_negative(&self) -> (b: bool)
        ensures
            b == self.negative_sign(),
    {
        self.bits >= SIGN_BIT
    }

    pub fn is_nan(&self) -> (b: bool)
        ensures
            b == self.nan(),
    {
        self.magnitude_bits() > INFINITY_BITS
    }

    pub fn is_infinite(&self) -> (b: bool)
        ensures
            b == self.infinite(),
    {
        self.magnitude_bits() == INFINITY_BITS
    }

    pub fn is_finite(&self) -> (b: bool)
        ensures
            b == self.finite(),
    {
        self.magnitude_bits() < INFINITY_BITS
    }

    pub fn is_zero(&self) -> (b: bool)
        ensures
            b == self.zero(),
    {
        self.magnitude_bits() == 0
    }

    pub fn is_positive(&self) -> (b: bool)
        ensures
            b == self.positive(),
    {
        !self.is_nan() && self.rank_value() > 0
    }

    pub fn lt(&self, other: &Scalar) -> (b: bool)
        ensures
            b == self.below(*other),
    {
        !self.is_nan() && !other.is_nan() && self.rank_value() < other.rank_value()
    }

    pub fn le(&self, other: &Scalar) -> (b: bool)
        ensures
            b == self.at_most(*other),
    {
        !self.is_nan() && !other.is_nan() && self.rank_value() <= other.rank_value()
    }

    pub fn eq_value(&self, other: &Scalar) -> (b: bool)
        ensures
            b == self.same_value(*other),
    {
        !self.is_nan() && !other.is_nan() && self.rank_value() == other.rank_value()
    }

    /// Brings the value into `[low, high]`.
    pub fn clamp(self, low: Scalar, high: Scalar) -> (r: Scalar)
        ensures
            r == self.clamped(low, high),
            !self.nan() && low.at_most(high) ==> low.at_most(r) && r.at_most(high),
    {
        if self.lt(&low) {
            low
        } else if high.lt(&self) {
            high
        } else {
            self
        }
    }
}

} // verus!
