//! Axis-aligned bounding boxes and the conservative slab rejection test.
//!
//! The test may only ever report "miss" when no parameter in the query window
//! puts the ray inside the box; `lemma_slab_miss_excludes` is that soundness
//! fact, proved from the monotonicity of the fixed-point ray evaluation.
use vstd::prelude::*;
use crate::fixed::{fadd_s, fmul_s, fp_add, fp_mul, lemma_fmul_mono, lemma_fmul_antimono};
use crate::interval::{Interval, contains_s};
use crate::ray::{Ray, at_s};
use crate::vec3::Vec3;

verus! {

/// A closed box: each axis a slab [lo, hi]; empty when some hi < lo.
#[derive(Clone, Copy, Debug, PartialEq, Eq, Structural)]
pub struct Aabb {
    pub lo: Vec3,
    pub hi: Vec3,
}

pub open spec fn in_box_s(b: Aabb, p: Vec3) -> bool {
    &&& b.lo.x as int <= p.x as int <= b.hi.x as int
    &&& b.lo.y as int <= p.y as int <= b.hi.y as int
    &&& b.lo.z as int <= p.z as int <= b.hi.z as int
}

pub open spec fn box_contains_box_s(outer: Aabb, inner: Aabb) -> bool {
    &&& outer.lo.x as int <= inner.lo.x as int && inner.hi.x as int <= outer.hi.x as int
    &&& outer.lo.y as int <= inner.lo.y as int && inner.hi.y as int <= outer.hi.y as int
    &&& outer.lo.z as int <= inner.lo.z as int && inner.hi.z as int <= outer.hi.z as int
}

pub open spec fn box_union_s(a: Aabb, b: Aabb) -> Aabb {
    Aabb {
        lo: Vec3 {
            x: if a.lo.x <= b.lo.x { a.lo.x } else { b.lo.x },
            y: if a.lo.y <= b.lo.y { a.lo.y } else { b.lo.y },
            z: if a.lo.z <= b.lo.z { a.lo.z } else { b.lo.z },
        },
        hi: Vec3 {
            x: if a.hi.x >= b.hi.x { a.hi.x } else { b.hi.x },
            y: if a.hi.y >= b.hi.y { a.hi.y } else { b.hi.y },
            z: if a.hi.z >= b.hi.z { a.hi.z } else { b.hi.z },
        },
    }
}

/// One axis of the rejection test: the ray stays strictly on one side of the
/// slab at both window endpoints.
pub open spec fn axis_miss_s(o: int, d: int, lo: int, hi: int, itv: Interval) -> bool {
    let p0 = fadd_s(o, fmul_s(d, itv.min as int));
    let p1 = fadd_s(o, fmul_s(d, itv.max as int));
    (p0 < lo && p1 < lo) || (p0 > hi && p1 > hi)
}

/// The conservative rejection test: an empty window, or some axis whose slab
/// the ray provably cannot enter inside the window.
pub open spec fn slab_miss_s(b: Aabb, r: Ray, itv: Interval) -> bool {
    ||| itv.min > itv.max
    ||| axis_miss_s(r.origin.x as int, r.direction.x as int, b.lo.x as int, b.hi.x as int, itv)
    ||| axis_miss_s(r.origin.y as int, r.direction.y as int, b.lo.y as int, b.hi.y as int, itv)
    ||| axis_miss_s(r.origin.z as int, r.direction.z as int, b.lo.z as int, b.hi.z as int, itv)
}

impl Aabb {
    pub fn union(&self, o: &Aabb) -> (r: Aabb)
        ensures
            r == box_union_s(*self, *o),
            box_contains_box_s(r, *self),
            box_contains_box_s(r, *o),
    {
        Aabb {
            lo: Vec3 {
                x: if self.lo.x <= o.lo.x { self.lo.x } else { o.lo.x },
                y: if self.lo.y <= o.lo.y { self.lo.y } else { o.lo.y },
                z: if self.lo.z <= o.lo.z { self.lo.z } else { o.lo.z },
            },
            hi: Vec3 {
                x: if self.hi.x >= o.hi.x { self.hi.x } else { o.hi.x },
                y: if self.hi.y >= o.hi.y { self.hi.y } else { o.hi.y },
                z: if self.hi.z >= o.hi.z { self.hi.z } else { o.hi.z },
            },
        }
    }

    /// The rejection test; `lemma_slab_miss_excludes` is its license.
    pub fn slab_miss(&self, r: &Ray, itv: &Interval) -> (miss: bool)
        ensures
            miss == slab_miss_s(*self, *r, *itv),
    {
        if itv.min > itv.max {
            return true;
        }
        let m = *itv;
        axis_miss(r.origin.x, r.direction.x, self.lo.x, self.hi.x, &m)
            || axis_miss(r.origin.y, r.direction.y, self.lo.y, self.hi.y, &m)
            || axis_miss(r.origin.z, r.direction.z, self.lo.z, self.hi.z, &m)
    }
}

fn axis_miss(o: i64, d: i64, lo: i64, hi: i64, itv: &Interval) -> (miss: bool)
    ensures
        miss == axis_miss_s(o as int, d as int, lo as int, hi as int, *itv),
{
    let p0: i64 = fp_add(o, fp_mul(d, itv.min));
    let p1: i64 = fp_add(o, fp_mul(d, itv.max));
    (p0 < lo && p1 < lo) || (p0 > hi && p1 > hi)
}

/// On one axis, a both-endpoints miss excludes every parameter in the window.
proof fn lemma_axis_excludes(o: int, d: int, lo: int, hi: int, itv: Interval, t: int)
    requires
        contains_s(itv, t),
        axis_miss_s(o, d, lo, hi, itv),
    ensures
        !(lo <= fadd_s(o, fmul_s(d, t)) <= hi),
{
    let t0 = itv.min as int;
    let t1 = itv.max as int;
    assert(d * t0 == t0 * d) by (nonlinear_arith);
    assert(d * t1 == t1 * d) by (nonlinear_arith);
    assert(d * t == t * d) by (nonlinear_arith);
    if d >= 0 {
        lemma_fmul_mono(t0, t, d);
        lemma_fmul_mono(t, t1, d);
    } else {
        lemma_fmul_antimono(t0, t, d);
        lemma_fmul_antimono(t, t1, d);
    }
}

/// Soundness of the slab rejection: when the test misses, no parameter in the
/// window places the ray inside the box.
pub proof fn lemma_slab_miss_excludes(b: Aabb, r: Ray, itv: Interval, t: int)
    requires
        slab_miss_s(b, r, itv),
        contains_s(itv, t),
    ensures
        !in_box_s(b, at_s(r, t)),
{
    if axis_miss_s(r.origin.x as int, r.direction.x as int, b.lo.x as int, b.hi.x as int, itv) {
        lemma_axis_excludes(
            r.origin.x as int,
            r.direction.x as int,
            b.lo.x as int,
            b.hi.x as int,
            itv,
            t,
        );
    } else if axis_miss_s(
        r.origin.y as int,
        r.direction.y as int,
        b.lo.y as int,
        b.hi.y as int,
        itv,
    ) {
        lemma_axis_excludes(
            r.origin.y as int,
            r.direction.y as int,
            b.lo.y as int,
            b.hi.y as int,
            itv,
            t,
        );
    } else {
        lemma_axis_excludes(
            r.origin.z as int,
            r.direction.z as int,
            b.lo.z as int,
            b.hi.z as int,
            itv,
            t,
        );
    }
}

} // verus!
