use vstd::prelude::*;

verus! {

/// Sign bit of an IEEE-754 binary32 encoding.
pub const SIGN_BIT: u32 = 0x8000_0000;

/// Encoding of positive infinity; magnitudes above it are NaNs.
pub const INFINITY_BITS: u32 = 0x7f80_0000;

/// Encoding of `0.0`.
pub const ZERO_BITS: u32 = 0;

/// Encoding of `1.0`.
pub const ONE_BITS: u32 = 0x3f80_0000;

/// Encoding of `2.0`.
pub const TWO_BITS: u32 = 0x4000_0000;

/// A single-precision sample or parameter, held as its IEEE-754 binary32
/// encoding.
///
/// The decision logic of this library only ever compares such values, so it
/// keeps the encoding and states the comparison over it: values compare as
/// the real numbers they denote, `-0.0` equals `0.0`, and every comparison
/// involving a NaN is false.
#[derive(Clone, Copy, Debug, PartialEq, Eq, Structural)]
pub struct Binary32 {
    pub bits: u32,
}

impl Binary32 {
    /// The magnitude part of the encoding (everything but the sign bit).
    pub open spec fn magnitude(self) -> nat {
        (self.bits % SIGN_BIT) as nat
    }

    pub open spec fn is_negative(self) -> bool {
        self.bits >= SIGN_BIT
    }

    pub open spec fn spec_is_nan(self) -> bool {
        self.magnitude() > INFINITY_BITS
    }

    /// An integer that orders non-NaN encodings as the values they denote.
    pub open spec fn order_key(self) -> int {
        if self.is_negative() {
            -(self.magnitude() as int)
        } else {
            self.magnitude() as int
        }
    }

    /// `self < other` as a floating-point comparison.
    pub open spec fn spec_lt(self, other: Binary32) -> bool {
        &&& !self.spec_is_nan()
        &&& !other.spec_is_nan()
        &&& self.order_key() < other.order_key()
    }

    /// `self <= other` as a floating-point comparison.
    pub open spec fn spec_le(self, other: Binary32) -> bool {
        &&& !self.spec_is_nan()
        &&& !other.spec_is_nan()
        &&& self.order_key() <= other.order_key()
    }

    pub fn from_bits(bits: u32) -> (r: Binary32)
        ensures
            r.bits == bits,
    {
        Binary32 { bits }
    }

    pub fn to_bits(&self) -> (r: u32)
        ensures
            r == self.bits,
    {
        self.bits
    }

    pub fn zero() -> (r: Binary32)
        ensures
            r.bits == ZERO_BITS,
    {
        Binary32 { bits: ZERO_BITS }
    }

    pub fn one() -> (r: Binary32)
        ensures
            r.bits == ONE_BITS,
    {
        Binary32 { bits: ONE_BITS }
    }

    pub fn is_nan(&self) -> (r: bool)
        ensures
            r == self.spec_is_nan(),
    {
        self.bits % SIGN_BIT > INFINITY_BITS
    }

    /// Floating-point `self < other`.
    pub fn lt(&self, other: &Binary32) -> (r: bool)
        ensures
            r == self.spec_lt(*other),
    {
        if self.is_nan() || other.is_nan() {
            return false;
        }
        let a = self.bits % SIGN_BIT;
        let b = other.bits % SIGN_BIT;
        let a_neg = self.bits >= SIGN_BIT;
        let b_neg = other.bits >= SIGN_BIT;
        if a_neg && b_neg {
            b < a
        } else if a_neg {
            // a <= 0 <= b; equal only when both are zeros
            a != 0 || b != 0
        } else if b_neg {
            false
        } else {
            a < b
        }
    }

    /// Floating-point `self <= other`.
    pub fn le(&self, other: &Binary32) -> (r: bool)
        ensures
            r == self.spec_le(*other),
    {
        if self.is_nan() || other.is_nan() {
            return false;
        }
        !other.lt(self)
    }

    /// Floating-point `self > other`.
    pub fn gt(&self, other: &Binary32) -> (r: bool)
        ensures
            r == other.spec_lt(*self),
    {
        other.lt(self)
    }
}

} // verus!
