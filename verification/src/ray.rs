//! A ray: origin plus direction, with evaluation at a parametric distance.
use vstd::prelude::*;
use crate::vec3::{Vec3, vadd_s, vscale_s};

verus! {

#[derive(Clone, Copy, Debug, PartialEq, Eq, Structural)]
pub struct Ray {
    pub origin: Vec3,
    pub direction: Vec3,
}

/// The point at parametric distance t along the ray.
pub open spec fn at_s(r: Ray, t: int) -> Vec3 {
    vadd_s(r.origin, vscale_s(r.direction, t))
}

impl Ray {
    pub fn new(origin: Vec3, direction: Vec3) -> (r: Ray)
        ensures
            r == (Ray { origin, direction }),
    {
        Ray { origin, direction }
    }

    pub fn at(&self, t: i64) -> (p: Vec3)
        ensures
            p == at_s(*self, t as int),
    {
        self.origin.add(&self.direction.scale(t))
    }
}

} // verus!
