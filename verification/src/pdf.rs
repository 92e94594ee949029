//! The sampling-density family: cosine-weighted hemisphere sampling about a
//! normal, sampling directed at important geometry, and the even mixture of
//! the two that drives multiple importance sampling.
use vstd::prelude::*;
use crate::fixed::{
    fadd_s, fdiv_s, fmul_s, fp_add, fp_div, fp_mul, fp_sqrt, fp_sub, HALF_FP, PI_FP, SCALE,
};
use crate::hittable::{HittableList, list_pdf_value_s, list_random_ok};
use crate::onb::{Onb, onb_local_s};
use crate::rng::{rand_flip, random_in_unit_disk};
use crate::vec3::{Vec2, Vec3, vdot_s, vunit_s};

verus! {

/// The cosine-weighted hemisphere density about a basis' w axis.
#[derive(Clone, Copy, Debug, PartialEq, Eq, Structural)]
pub struct CosinePdf {
    pub onb: Onb,
}

/// What every outcome of the cosine sampler satisfies: the basis image of
/// some point of the unit disk lifted to the upper hemisphere.
pub open spec fn cosine_generate_ok(onb: Onb, dir: Vec3) -> bool {
    exists|x: int, y: int|
        {
            let d2 = #[trigger] fadd_s(fmul_s(x, x), fmul_s(y, y));
            -SCALE <= x <= SCALE && -SCALE <= y <= SCALE && d2 <= SCALE && dir == onb_local_s(
                onb,
                x,
                y,
                crate::fixed::fsqrt_s(crate::fixed::fsub_s(SCALE as int, d2)),
            )
        }
}

/// max(0, cos theta / pi), theta against the basis' w axis.
pub open spec fn cosine_pdf_value_s(onb: Onb, direction: Vec3) -> int {
    let cos = vdot_s(vunit_s(direction), onb.w);
    if cos <= 0 {
        0
    } else {
        fdiv_s(cos, PI_FP as int)
    }
}

impl CosinePdf {
    pub fn new(onb: Onb) -> (r: CosinePdf)
        ensures
            r.onb == onb,
    {
        CosinePdf { onb }
    }

    /// The density of the given direction under this distribution.
    pub fn value(&self, direction: &Vec3) -> (r: i64)
        ensures
            r as int == cosine_pdf_value_s(self.onb, *direction),
    {
        let cos: i64 = direction.unit().dot(&self.onb.w);
        if cos <= 0 {
            0
        } else {
            fp_div(cos, PI_FP)
        }
    }

    /// Draw a cosine-weighted direction: a uniform disk point lifted to the
    /// hemisphere and carried into world space by the basis.
    pub fn generate(&self) -> (dir: Vec3)
        ensures
            cosine_generate_ok(self.onb, dir),
    {
        let d: Vec2 = random_in_unit_disk();
        let z: i64 = fp_sqrt(fp_sub(SCALE, fp_add(fp_mul(d.x, d.x), fp_mul(d.y, d.y))));
        let dir: Vec3 = self.onb.local(d.x, d.y, z);
        proof {
            let d2 = fadd_s(fmul_s(d.x as int, d.x as int), fmul_s(d.y as int, d.y as int));
            assert(dir == onb_local_s(
                self.onb,
                d.x as int,
                d.y as int,
                crate::fixed::fsqrt_s(crate::fixed::fsub_s(SCALE as int, d2)),
            ));
        }
        dir
    }
}

/// The density of directions that point at an aggregate of important
/// objects (typically the lights), seen from a fixed shading point.
pub struct HittablePdf<'a> {
    pub origin: Vec3,
    pub objects: &'a HittableList,
}

impl<'a> HittablePdf<'a> {
    pub fn new(origin: Vec3, objects: &'a HittableList) -> (r: HittablePdf<'a>)
        ensures
            r.origin == origin,
            r.objects == objects,
    {
        HittablePdf { origin, objects }
    }

    /// The mean solid-angle density over the important objects.
    pub fn value(&self, direction: &Vec3) -> (r: i64)
        ensures
            r as int == list_pdf_value_s(self.objects.objects@, self.origin, *direction),
    {
        self.objects.pdf_value(&self.origin, direction)
    }

    /// A direction toward a random important object: every outcome is a
    /// draw of the aggregate's own sampler from this distribution's origin.
    pub fn generate(&self) -> (dir: Vec3)
        ensures
            list_random_ok(self.objects.objects@, self.origin, dir),
    {
        self.objects.random(&self.origin)
    }
}

/// An even mixture of the light-directed density and the material's own
/// density: sample either with probability one half.
pub struct MixturePdf<'a, 'b> {
    pub light: &'a HittablePdf<'b>,
    pub surface: &'a CosinePdf,
}

impl<'a, 'b> MixturePdf<'a, 'b> {
    pub fn new(light: &'a HittablePdf<'b>, surface: &'a CosinePdf) -> (r: MixturePdf<'a, 'b>)
        ensures
            r.light == light,
            r.surface == surface,
    {
        MixturePdf { light, surface }
    }

    /// The mixture density is exactly the even arithmetic mean of the two
    /// component densities, for every direction: the estimator's divisor
    /// always matches the true sampling density.
    pub fn value(&self, direction: &Vec3) -> (r: i64)
        ensures
            r as int == fadd_s(
                fmul_s(HALF_FP as int, list_pdf_value_s(self.light.objects.objects@, self.light.origin, *direction)),
                fmul_s(HALF_FP as int, cosine_pdf_value_s(self.surface.onb, *direction)),
            ),
    {
        let lv: i64 = self.light.value(direction);
        let sv: i64 = self.surface.value(direction);
        fp_add(fp_mul(HALF_FP, lv), fp_mul(HALF_FP, sv))
    }

    /// Delegate to either component with probability one half: every
    /// outcome is a draw of the light-directed sampler or of the surface
    /// (cosine) sampler, never anything else.
    pub fn generate(&self) -> (dir: Vec3)
        ensures
            list_random_ok(self.light.objects.objects@, self.light.origin, dir)
                || cosine_generate_ok(self.surface.onb, dir),
    {
        if rand_flip() {
            self.light.generate()
        } else {
            self.surface.generate()
        }
    }
}

} // verus!
