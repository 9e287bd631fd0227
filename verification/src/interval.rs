//! A range of scalars, to bound ray parameters and to clamp colour channels.
use vstd::prelude::*;
use crate::scalar::{Scalar, INFINITY_BITS};

verus! {

/// The numbers from `min` to `max`. The bounds are kept as given: nothing
/// asks that `min` be the smaller.
#[derive(Clone, Copy, Debug, PartialEq, Eq, Structural)]
pub struct Interval {
    pub min: Scalar,
    pub max: Scalar,
}

impl Interval {
    /// The interval whose two bounds are positive infinity. It surrounds
    /// nothing and contains only positive infinity.
    pub fn initialize() -> (r: Interval)
        ensures
            r.min.bits == INFINITY_BITS,
            r.max.bits == INFINITY_BITS,
    {
        Interval { min: Scalar::infinity(), max: Scalar::infinity() }
    }

    pub fn new(min: Scalar, max: Scalar) -> (r: Interval)
        ensures
            r.min == min,
            r.max == max,
    {
        Interval { min, max }
    }

    /// Whether `min <= x <= max`.
    pub open spec fn contains_spec(&self, x: Scalar) -> bool {
        self.min.le_spec(x) && x.le_spec(self.max)
    }

    /// Whether `min <= x <= max`.
    #[verifier::when_used_as_spec(contains_spec)]
    pub fn contains(&self, x: Scalar) -> (b: bool)
        ensures
            b == self.contains_spec(x),
    {
        self.min.le(x) && x.le(self.max)
    }

    /// Whether `min < x < max`.
    pub open spec fn surrounds_spec(&self, x: Scalar) -> bool {
        self.min.lt_spec(x) && x.lt_spec(self.max)
    }

    /// Whether `min < x < max`.
    #[verifier::when_used_as_spec(surrounds_spec)]
    pub fn surrounds(&self, x: Scalar) -> (b: bool)
        ensures
            b == self.surrounds_spec(x),
    {
        self.min.lt(x) && x.lt(self.max)
    }

    /// `x` drawn into the interval.
    pub open spec fn clamp_spec(&self, x: Scalar) -> Scalar {
        if x.lt_spec(self.min) {
            self.min
        } else if self.max.lt_spec(x) {
            self.max
        } else {
            x
        }
    }

    /// `min` where `x` is below it, `max` where `x` is above it, else `x`
    /// itself: so a NaN comes back as it is.
    #[verifier::when_used_as_spec(clamp_spec)]
    pub fn clamp(&self, x: Scalar) -> (r: Scalar)
        ensures
            r == self.clamp_spec(x),
    {
        if x.lt(self.min) {
            self.min
        } else if x.gt(self.max) {
            self.max
        } else {
            x
        }
    }
}

/// A clamped number lies within the bounds, and one already within them is
/// kept, whenever the bounds are in order and nothing is a NaN.
pub proof fn law_clamp_within(i: Interval, x: Scalar)
    requires
        i.min.le_spec(i.max),
        !x.is_nan_spec(),
    ensures
        i.contains_spec(i.clamp_spec(x)),
        i.contains_spec(x) ==> i.clamp_spec(x) == x,
{
}

/// Clamping keeps the order: of two numbers, the larger is not clamped below
/// the smaller.
pub proof fn law_clamp_monotonic(i: Interval, a: Scalar, b: Scalar)
    requires
        i.min.le_spec(i.max),
        a.le_spec(b),
    ensures
        i.clamp_spec(a).le_spec(i.clamp_spec(b)),
{
}

} // verus!
