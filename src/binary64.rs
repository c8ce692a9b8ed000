//! IEEE-754 binary64 values as bit patterns, with their classification and
//! their (partial) numeric order.

use vstd::prelude::*;

verus! {

/// Bit of the sign.
pub const SIGN_BIT: u64 = 0x8000_0000_0000_0000;

/// Bit pattern of positive infinity: the largest magnitude that is not a NaN.
pub const INFINITY_BITS: u64 = 0x7ff0_0000_0000_0000;

/// Bit pattern of positive zero.
pub const ZERO_BITS: u64 = 0x0;

/// The absolute value of a bit pattern: every bit but the sign.
pub open spec fn magnitude(bits: u64) -> nat {
    (bits % SIGN_BIT) as nat
}

/// The sign bit is set.
pub open spec fn sign_set(bits: u64) -> bool {
    bits >= SIGN_BIT
}

/// All exponent bits set and a nonzero fraction.
pub open spec fn nan_bits(bits: u64) -> bool {
    magnitude(bits) > INFINITY_BITS
}

/// An integer that orders the values that are not NaN as the reals they
/// denote: larger magnitudes are larger reals of the same sign, and both
/// zeros map to 0.
pub open spec fn order_key(bits: u64) -> int {
    if sign_set(bits) {
        -(magnitude(bits) as int)
    } else {
        magnitude(bits) as int
    }
}

/// A binary64 floating-point value, held as its bit pattern.
#[derive(Clone, Copy, Debug)]
pub struct Binary64 {
    pub bits: u64,
}

impl Binary64 {
    pub open spec fn is_nan_spec(self) -> bool {
        nan_bits(self.bits)
    }

    /// `self < other` as IEEE-754 compares: false where either is a NaN.
    pub open spec fn lt_spec(self, other: Binary64) -> bool {
        !nan_bits(self.bits) && !nan_bits(other.bits) && order_key(self.bits) < order_key(
            other.bits,
        )
    }

    /// `self <= other` as IEEE-754 compares: false where either is a NaN.
    pub open spec fn le_spec(self, other: Binary64) -> bool {
        !nan_bits(self.bits) && !nan_bits(other.bits) && order_key(self.bits) <= order_key(
            other.bits,
        )
    }

    pub fn from_bits(bits: u64) -> (r: Binary64)
        ensures
            r.bits == bits,
    {
        Binary64 { bits }
    }

    pub fn to_bits(&self) -> (r: u64)
        ensures
            r == self.bits,
    {
        self.bits
    }

    fn magnitude_of(&self) -> (r: u64)
        ensures
            r as nat == magnitude(self.bits),
    {
        if self.bits >= SIGN_BIT {
            self.bits - SIGN_BIT
        } else {
            self.bits
        }
    }

    pub fn is_nan(&self) -> (r: bool)
        ensures
            r == self.is_nan_spec(),
    {
        self.magnitude_of() > INFINITY_BITS
    }

    /// `self < other`, as the `<` of binary64 decides it.
    pub fn lt(&self, other: &Binary64) -> (r: bool)
        ensures
            r == self.lt_spec(*other),
    {
        if self.is_nan() || other.is_nan() {
            return false;
        }
        let a = self.magnitude_of();
        let b = other.magnitude_of();
        match (self.bits >= SIGN_BIT, other.bits >= SIGN_BIT) {
            (true, true) => a > b,
            (true, false) => !(a == 0 && b == 0),
            (false, true) => false,
            (false, false) => a < b,
        }
    }

    /// `self <= other`, as the `<=` of binary64 decides it.
    pub fn le(&self, other: &Binary64) -> (r: bool)
        ensures
            r == self.le_spec(*other),
    {
        if self.is_nan() || other.is_nan() {
            return false;
        }
        let a = self.magnitude_of();
        let b = other.magnitude_of();
        match (self.bits >= SIGN_BIT, other.bits >= SIGN_BIT) {
            (true, true) => a >= b,
            (true, false) => true,
            (false, true) => a == 0 && b == 0,
            (false, false) => a <= b,
        }
    }

    /// Restricts `self` to `[min, max]` as `f64::clamp` does: a NaN stays a
    /// NaN, and a value equal to a bound (a zero of either sign included) is
    /// kept as it is.
    pub fn clamp(self, min: Binary64, max: Binary64) -> (r: Binary64)
        requires
            min.le_spec(max),
        ensures
            r == clamp_spec(self, min, max),
    {
        if self.lt(&min) {
            min
        } else if max.lt(&self) {
            max
        } else {
            self
        }
    }
}

/// What `f64::clamp` returns where `min <= max` and neither bound is a NaN.
pub open spec fn clamp_spec(x: Binary64, min: Binary64, max: Binary64) -> Binary64 {
    if x.lt_spec(min) {
        min
    } else if max.lt_spec(x) {
        max
    } else {
        x
    }
}

/// `<` is asymmetric on binary64 values.
pub proof fn lemma_lt_asymmetric(a: Binary64, b: Binary64)
    ensures
        a.lt_spec(b) ==> !b.lt_spec(a),
{
}

/// A value that `clamp` returns lies within the bounds and is no NaN,
/// unless the value clamped was itself a NaN.
pub proof fn lemma_clamp_within(x: Binary64, min: Binary64, max: Binary64)
    requires
        min.le_spec(max),
        !x.is_nan_spec(),
    ensures
        min.le_spec(clamp_spec(x, min, max)),
        clamp_spec(x, min, max).le_spec(max),
        !clamp_spec(x, min, max).is_nan_spec(),
{
}

} // verus!
