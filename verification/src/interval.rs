//! A closed range of fixed-point scalars.

use vstd::prelude::*;
use crate::fixed::FX_MAX;

verus! {


/// A closed interval `[min, max]` of fixed-point scalars.
///
/// Queries are meaningful when `min <= max`; an interval with `min > max`
/// stands for the empty range by convention.
#[derive(Clone, Copy, Debug, PartialEq, Eq, Structural)]
pub struct Interval {
    /// The lower bound of the interval.
    pub min: i64,
    /// The upper bound of the interval.
    pub max: i64,
}

impl Interval {
    /// Build the interval `[min, max]`.
    pub fn new(min: i64, max: i64) -> (r: Interval)
        ensures
            r.min == min,
            r.max == max,
    {
        Interval { min, max }
    }

    /// The empty interval: its bounds are inverted, so it surrounds nothing.
    pub fn empty() -> (r: Interval)
        ensures
            r.min == FX_MAX,
            r.max == -FX_MAX,
    {
        Interval { min: FX_MAX, max: -FX_MAX }
    }

    /// The interval of every representable scalar.
    pub fn universe() -> (r: Interval)
        ensures
            r.min == -FX_MAX,
            r.max == FX_MAX,
    {
        Interval { min: -FX_MAX, max: FX_MAX }
    }

    /// The length of the interval: `max - min`.
    pub fn size(&self) -> (r: i64)
        requires
            self.max - self.min <= i64::MAX,
            i64::MIN <= self.max - self.min,
        ensures
            r == self.max - self.min,
    {
        self.max - self.min
    }

    /// Whether `x` lies in the interval, bounds included.
    pub fn contains(&self, x: i64) -> (r: bool)
        ensures
            r == (self.min <= x && x <= self.max),
    {
        self.min <= x && x <= self.max
    }

    /// Whether `x` lies strictly inside the interval, bounds excluded.
    pub fn surrounds(&self, x: i64) -> (r: bool)
        ensures
            r == (self.min < x && x < self.max),
    {
        self.min < x && x < self.max
    }

    /// `x` pulled into the interval: the nearer bound where `x` lies outside.
    pub fn clamp(&self, x: i64) -> (r: i64)
        ensures
            r == spec_clamp(*self, x as int),
    {
        if x < self.min {
            self.min
        } else if x > self.max {
            self.max
        } else {
            x
        }
    }
}

/// What `clamp` returns: `x` bounded below by `min`, then above by `max`.
pub open spec fn spec_clamp(i: Interval, x: int) -> int {
    if x < i.min {
        i.min as int
    } else if x > i.max {
        i.max as int
    } else {
        x
    }
}

/// On a non-empty interval, clamping lands in `[min, max]`, clamping twice
/// equals clamping once, the bounds are contained, and neither bound is
/// strictly surrounded.
pub proof fn lemma_clamp_properties(i: Interval, x: int)
    requires
        i.min <= i.max,
    ensures
        i.min <= spec_clamp(i, x) <= i.max,
        spec_clamp(i, spec_clamp(i, x)) == spec_clamp(i, x),
        i.min <= i.min && i.min <= i.max,
        i.min <= i.max && i.max <= i.max,
        !(i.min < i.min && i.min < i.max),
        !(i.min < i.max && i.max < i.max),
{
}

} // verus!
