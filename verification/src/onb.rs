//! An orthonormal basis aligned to a surface normal, used to lift local
//! (tangent-space) sample directions into world space.
use vstd::prelude::*;
use crate::fixed::SCALE;
use crate::vec3::{Vec3, vadd_s, vcross_s, vscale_s, vunit_s};

verus! {

#[derive(Clone, Copy, Debug, PartialEq, Eq, Structural)]
pub struct Onb {
    pub u: Vec3,
    pub v: Vec3,
    pub w: Vec3,
}

/// The deterministic basis construction: w along the normal, the helper axis
/// chosen to avoid near-parallelism, u and v by cross products.
pub open spec fn onb_new_s(n: Vec3) -> Onb {
    let w = vunit_s(n);
    let a = if w.x > 9 * SCALE as int / 10 || w.x < -(9 * SCALE as int / 10) {
        Vec3 { x: 0, y: SCALE, z: 0 }
    } else {
        Vec3 { x: SCALE, y: 0, z: 0 }
    };
    let v = vunit_s(vcross_s(w, a));
    let u = vcross_s(w, v);
    Onb { u, v, w }
}

/// A local coordinate triple carried into world space.
pub open spec fn onb_local_s(o: Onb, a: int, b: int, c: int) -> Vec3 {
    vadd_s(vadd_s(vscale_s(o.u, a), vscale_s(o.v, b)), vscale_s(o.w, c))
}

impl Onb {
    pub fn new(n: &Vec3) -> (r: Onb)
        ensures
            r == onb_new_s(*n),
    {
        let w: Vec3 = n.unit();
        let threshold: i64 = 9 * SCALE / 10;
        let a: Vec3 = if w.x > threshold || w.x < -threshold {
            Vec3 { x: 0, y: SCALE, z: 0 }
        } else {
            Vec3 { x: SCALE, y: 0, z: 0 }
        };
        let v: Vec3 = w.cross(&a).unit();
        let u: Vec3 = w.cross(&v);
        Onb { u, v, w }
    }

    pub fn local(&self, a: i64, b: i64, c: i64) -> (r: Vec3)
        ensures
            r == onb_local_s(*self, a as int, b as int, c as int),
    {
        self.u.scale(a).add(&self.v.scale(b)).add(&self.w.scale(c))
    }
}

} // verus!
