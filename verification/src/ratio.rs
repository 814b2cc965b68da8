//! Exact rational values for the persistent session factor and the policy
//! multiplier.
//!
//! The factor of a session is a product of configured multipliers, so it is
//! kept as a pair of integers rather than an approximate value: multiplying
//! two ratios is exact, and a contract can pin the result down to the digit.

use vstd::prelude::*;

verus! {

/// A rational number `num / den` with a positive denominator.
#[derive(Clone, Copy, Debug, PartialEq, Eq, Structural)]
pub struct Ratio {
    pub num: i64,
    pub den: i64,
}

impl Ratio {
    /// A ratio is well formed when its denominator is positive.
    pub open spec fn wf(&self) -> bool {
        self.den > 0
    }

    /// `self` denotes a rational number that is at least one.
    pub open spec fn at_least_one(&self) -> bool {
        self.num >= self.den
    }

    /// The rational one, written `1 / 1`.
    pub fn one() -> (r: Ratio)
        ensures
            r.num == 1,
            r.den == 1,
            r.wf(),
    {
        Ratio { num: 1, den: 1 }
    }

    /// Builds `num / den`.
    pub fn new(num: i64, den: i64) -> (r: Ratio)
        requires
            den > 0,
        ensures
            r.num == num,
            r.den == den,
            r.wf(),
    {
        Ratio { num, den }
    }

    /// The exact product of two ratios, as a pair: no rounding takes place.
    /// The bounds in the precondition only keep the products representable.
    pub fn mul(self, other: Ratio) -> (r: Ratio)
        requires
            self.wf(),
            other.wf(),
            i64::MIN <= self.num * other.num <= i64::MAX,
            self.den * other.den <= i64::MAX,
        ensures
            r.num == self.num * other.num,
            r.den == self.den * other.den,
            r.wf(),
    {
        proof {
            assert(self.den * other.den >= 1) by (nonlinear_arith)
                requires
                    self.den >= 1,
                    other.den >= 1,
            ;
        }
        Ratio { num: self.num * other.num, den: self.den * other.den }
    }
}

} // verus!
