//! A closed parametric range [min, max]: the valid-hit window of a query and
//! the slab of a bounding-box axis. A range with max < min is empty.
use vstd::prelude::*;

verus! {

#[derive(Clone, Copy, Debug, PartialEq, Eq, Structural)]
pub struct Interval {
    pub min: i64,
    pub max: i64,
}

pub open spec fn contains_s(itv: Interval, t: int) -> bool {
    itv.min as int <= t <= itv.max as int
}

impl Interval {
    pub fn new(min: i64, max: i64) -> (r: Interval)
        ensures
            r == (Interval { min, max }),
    {
        Interval { min, max }
    }

    /// Closed-interval membership: both endpoints count as inside.
    pub fn contains(&self, t: i64) -> (r: bool)
        ensures
            r == contains_s(*self, t as int),
    {
        self.min <= t && t <= self.max
    }
}

} // verus!
