//! Ratios and scores held as IEEE-754 binary64 bit patterns.
//!
//! Scores, thresholds and rates are fractions that callers hand in as `f64`.
//! The library keeps the exact binary64 encoding of each value (the result of
//! `f64::to_bits`) and decides comparisons on that encoding, so that a
//! decision is the one the floating-point comparison would make, bit for bit.
use vstd::prelude::*;

verus! {

/// The sign bit of a binary64 encoding.
pub const SIGN_BIT: u64 = 0x8000_0000_0000_0000;

/// The encoding of positive infinity: every larger magnitude is a NaN.
pub const INFINITY_BITS: u64 = 0x7ff0_0000_0000_0000;

/// A real number in `[0, 1]` or any other binary64 value, by its encoding.
#[derive(Clone, Copy, Debug)]
pub struct Ratio {
    pub bits: u64,
}

impl Ratio {
    /// The magnitude bits: the encoding with the sign bit cleared.
    pub open spec fn magnitude(self) -> int {
        if self.bits >= SIGN_BIT {
            self.bits - SIGN_BIT
        } else {
            self.bits as int
        }
    }

    /// A NaN has an all-ones exponent and a nonzero fraction.
    pub open spec fn spec_is_nan(self) -> bool {
        self.magnitude() > INFINITY_BITS
    }

    /// An integer that orders the non-NaN values as the reals they denote:
    /// magnitudes of positive values grow with the value, magnitudes of
    /// negative values shrink with it, and both zeros map to 0.
    pub open spec fn order_key(self) -> int {
        if self.bits >= SIGN_BIT {
            -self.magnitude()
        } else {
            self.magnitude()
        }
    }

    /// `self < other` as binary64 numbers (false when either is NaN).
    pub open spec fn spec_lt(self, other: Ratio) -> bool {
        !self.spec_is_nan() && !other.spec_is_nan() && self.order_key() < other.order_key()
    }

    /// `self <= other` as binary64 numbers (false when either is NaN).
    pub open spec fn spec_le(self, other: Ratio) -> bool {
        !self.spec_is_nan() && !other.spec_is_nan() && self.order_key() <= other.order_key()
    }

    /// `f64::max`: a NaN argument yields the other one.
    pub open spec fn spec_max(self, other: Ratio) -> Ratio {
        if self.spec_is_nan() {
            other
        } else if other.spec_is_nan() {
            self
        } else if self.spec_lt(other) {
            other
        } else {
            self
        }
    }

    /// `f64::clamp(0.0, 1.0)`: NaN stays NaN.
    pub open spec fn spec_clamp_unit(self) -> Ratio {
        if self.spec_lt(Ratio::zero_spec()) {
            Ratio::zero_spec()
        } else if Ratio::one_spec().spec_lt(self) {
            Ratio::one_spec()
        } else {
            self
        }
    }

    /// `0.0 <= self <= 1.0`.
    pub open spec fn spec_in_unit(self) -> bool {
        Ratio::zero_spec().spec_le(self) && self.spec_le(Ratio::one_spec())
    }

    pub open spec fn zero_spec() -> Ratio {
        Ratio { bits: 0 }
    }

    pub open spec fn one_spec() -> Ratio {
        Ratio { bits: 0x3ff0_0000_0000_0000 }
    }

    /// The value whose encoding is `bits`.
    pub fn from_bits(bits: u64) -> (r: Ratio)
        ensures
            r.bits == bits,
    {
        Ratio { bits }
    }

    /// The encoding of `self`.
    pub fn to_bits(&self) -> (bits: u64)
        ensures
            bits == self.bits,
    {
        self.bits
    }

    /// `0.0`.
    pub fn zero() -> (r: Ratio)
        ensures
            r == Ratio::zero_spec(),
    {
        Ratio { bits: 0 }
    }

    /// `1.0`.
    pub fn one() -> (r: Ratio)
        ensures
            r == Ratio::one_spec(),
    {
        Ratio { bits: 0x3ff0_0000_0000_0000 }
    }

    fn magnitude_bits(&self) -> (m: u64)
        ensures
            m == self.magnitude(),
    {
        if self.bits >= SIGN_BIT {
            self.bits - SIGN_BIT
        } else {
            self.bits
        }
    }

    /// Whether `self` is a NaN.
    pub fn is_nan(&self) -> (b: bool)
        ensures
            b == self.spec_is_nan(),
    {
        self.magnitude_bits() > INFINITY_BITS
    }

    /// `self < other` as binary64 numbers.
    pub fn lt(&self, other: &Ratio) -> (b: bool)
        ensures
            b == self.spec_lt(*other),
    {
        if self.is_nan() || other.is_nan() {
            return false;
        }
        let a = self.magnitude_bits();
        let b = other.magnitude_bits();
        let a_neg = self.bits >= SIGN_BIT;
        let b_neg = other.bits >= SIGN_BIT;
        if a_neg && b_neg {
            b < a
        } else if a_neg {
            !(a == 0 && b == 0)
        } else if b_neg {
            false
        } else {
            a < b
        }
    }

    /// `self <= other` as binary64 numbers.
    pub fn le(&self, other: &Ratio) -> (b: bool)
        ensures
            b == self.spec_le(*other),
    {
        if self.is_nan() || other.is_nan() {
            return false;
        }
        !other.lt(self)
    }

    /// `f64::max`.
    pub fn max(&self, other: &Ratio) -> (r: Ratio)
        ensures
            r == self.spec_max(*other),
    {
        if self.is_nan() {
            *other
        } else if other.is_nan() {
            *self
        } else if self.lt(other) {
            *other
        } else {
            *self
        }
    }

    /// `f64::clamp(0.0, 1.0)`.
    pub fn clamp_unit(&self) -> (r: Ratio)
        ensures
            r == self.spec_clamp_unit(),
    {
        let zero = Ratio::zero();
        let one = Ratio::one();
        if self.lt(&zero) {
            zero
        } else if one.lt(self) {
            one
        } else {
            *self
        }
    }

    /// `0.0 <= self <= 1.0`, the test `(0.0..=1.0).contains(&self)`.
    pub fn in_unit(&self) -> (b: bool)
        ensures
            b == self.spec_in_unit(),
    {
        Ratio::zero().le(self) && self.le(&Ratio::one())
    }
}

/// Clamping to `[0, 1]` yields a value in `[0, 1]` for every non-NaN input,
/// and keeps a NaN.
pub proof fn law_clamp_unit_in_unit(x: Ratio)
    ensures
        !x.spec_is_nan() ==> x.spec_clamp_unit().spec_in_unit(),
        x.spec_is_nan() ==> x.spec_clamp_unit() == x,
        x.spec_in_unit() ==> x.spec_clamp_unit() == x,
{
}

/// On values that are not NaN, `<` is a strict total order up to the two
/// zeros, and `<=` is `<` or equal value.
pub proof fn law_ordering(a: Ratio, b: Ratio, c: Ratio)
    requires
        !a.spec_is_nan(),
        !b.spec_is_nan(),
        !c.spec_is_nan(),
    ensures
        !a.spec_lt(a),
        a.spec_lt(b) ==> !b.spec_lt(a),
        a.spec_lt(b) && b.spec_lt(c) ==> a.spec_lt(c),
        a.spec_lt(b) || b.spec_lt(a) || a.order_key() == b.order_key(),
        a.spec_le(b) <==> (a.spec_lt(b) || a.order_key() == b.order_key()),
{
}

/// A NaN compares false with everything.
pub proof fn law_nan_unordered(a: Ratio, b: Ratio)
    requires
        a.spec_is_nan(),
    ensures
        !a.spec_lt(b),
        !b.spec_lt(a),
        !a.spec_le(b),
        !b.spec_le(a),
        !a.spec_in_unit(),
{
}

/// `max` is at least each of its non-NaN arguments.
pub proof fn law_max_bounds(a: Ratio, b: Ratio)
    requires
        !a.spec_is_nan(),
        !b.spec_is_nan(),
    ensures
        a.spec_le(a.spec_max(b)),
        b.spec_le(a.spec_max(b)),
        a.spec_max(b) == a || a.spec_max(b) == b,
{
}

} // verus!
