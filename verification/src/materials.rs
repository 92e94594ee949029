//! The material model: how an incoming ray scatters, is absorbed, or emits
//! at a hit point, and the scattering density used by the integrator.
use vstd::prelude::*;
use crate::color::{Color, black_s, white_s};
use crate::fixed::{
    fadd_s, fdiv_s, fmul_s, fsqrt_s, fsub_s, fp_add, fp_div, fp_mul, fp_sqrt, fp_sub, PI_FP, SCALE,
};
use crate::hittable::HitRecord;
use crate::onb::{Onb, onb_new_s};
use crate::pdf::{CosinePdf, cosine_generate_ok};
use crate::ray::Ray;
use crate::rng::{rand_unit, random_unit_vector};
use crate::vec3::{Vec3, vadd_s, vdot_s, vscale_s, vsub_s, vunit_s};

verus! {

/// The diffuse material: cosine-weighted scatter, albedo attenuation.
#[derive(Clone, Copy, Debug, PartialEq, Eq, Structural)]
pub struct Lambert {
    pub albedo: Color,
}

impl Lambert {
    pub fn new(albedo: Color) -> (r: Lambert)
        ensures
            r.albedo == albedo,
    {
        Lambert { albedo }
    }
}

/// The closed set of material variants.
#[derive(Clone, Copy, Debug, PartialEq, Eq, Structural)]
pub enum Material {
    Lambert(Lambert),
    Metal { albedo: Color, fuzz: i64 },
    Dielectric { refraction_index: i64 },
    DiffuseLight { emit: Color },
}

/// The scattering outcome: attenuation, outgoing ray, and the sampling
/// density when the material is importance sampled (none for specular ones).
#[derive(Clone, Copy, Debug)]
pub struct MaterialHitResult {
    pub color: Color,
    pub ray: Ray,
    pub pdf: Option<CosinePdf>,
}

/// What scatter promises of every outcome: diffuse scatters with its
/// albedo, a cosine density about the normal, and a direction that is a
/// draw of exactly that density's sampler; metal and glass scatter without
/// a density; a light never scatters.
pub open spec fn scatter_ok(m: Material, rec: HitRecord, res: Option<MaterialHitResult>) -> bool {
    match m {
        Material::Lambert(l) => res matches Some(s) && s.color == l.albedo && s.ray.origin == rec.p
            && (s.pdf matches Some(p) && p.onb == onb_new_s(rec.normal) && cosine_generate_ok(
            p.onb,
            s.ray.direction,
        )),
        Material::Metal { albedo, fuzz } => res matches Some(s) && s.color == albedo
            && s.ray.origin == rec.p && s.pdf is None,
        Material::Dielectric { .. } => res matches Some(s) && s.color == white_s()
            && s.ray.origin == rec.p && s.pdf is None,
        Material::DiffuseLight { .. } => res is None,
    }
}

/// The density the material itself assigns to an outgoing direction:
/// max(0, cos theta / pi) for the diffuse variant, 0 for all others.
pub open spec fn scattering_pdf_s(m: Material, rec: HitRecord, scattered: Ray) -> int {
    match m {
        Material::Lambert(_) => {
            let cos = vdot_s(vunit_s(rec.normal), vunit_s(scattered.direction));
            if cos < 0 {
                0
            } else {
                fdiv_s(cos, PI_FP as int)
            }
        },
        _ => 0,
    }
}

/// Emitted radiance at a hit: the light color for the emissive variant,
/// black for every other.
pub open spec fn emit_s(m: Material, rec: HitRecord) -> Color {
    match m {
        Material::DiffuseLight { emit } => emit,
        _ => black_s(),
    }
}

/// Mirror reflection about the normal: v - 2 (v . n) n.
pub open spec fn reflect_s(v: Vec3, n: Vec3) -> Vec3 {
    vsub_s(v, vscale_s(n, fadd_s(vdot_s(v, n), vdot_s(v, n))))
}

/// Snell refraction of the unit direction `uv` about `n`.
pub open spec fn refract_s(uv: Vec3, n: Vec3, etai_over_etat: int) -> Vec3 {
    let cos = vdot_s(vunit_s(vsub_s(Vec3 { x: 0, y: 0, z: 0 }, uv)), n);
    let cos_c = if cos > SCALE as int {
        SCALE as int
    } else {
        cos
    };
    let perp = vscale_s(vadd_s(uv, vscale_s(n, cos_c)), etai_over_etat);
    let k = fsub_s(SCALE as int, vdot_s(perp, perp));
    let parallel = vscale_s(n, fsub_s(0, fsqrt_s(k)));
    vadd_s(perp, parallel)
}

/// Schlick's reflectance approximation.
pub open spec fn schlick_s(cos: int, refraction_index: int) -> int {
    let r0a = fdiv_s(fsub_s(SCALE as int, refraction_index), fadd_s(SCALE as int, refraction_index));
    let r0 = fmul_s(r0a, r0a);
    let omc = fsub_s(SCALE as int, cos);
    let p2 = fmul_s(omc, omc);
    let p5 = fmul_s(fmul_s(p2, p2), omc);
    fadd_s(r0, fmul_s(fsub_s(SCALE as int, r0), p5))
}

impl Material {
    /// Ask the material to scatter the incoming ray at the hit.
    pub fn scatter(&self, r_in: &Ray, rec: &HitRecord) -> (res: Option<MaterialHitResult>)
        ensures
            scatter_ok(*self, *rec, res),
    {
        match self {
            Material::Lambert(l) => {
                let pdf: CosinePdf = CosinePdf::new(Onb::new(&rec.normal));
                let dir: Vec3 = pdf.generate();
                Some(
                    MaterialHitResult {
                        color: l.albedo,
                        ray: Ray { origin: rec.p, direction: dir },
                        pdf: Some(pdf),
                    },
                )
            },
            Material::Metal { albedo, fuzz } => {
                let unit_dir: Vec3 = r_in.direction.unit();
                let reflected: Vec3 = reflect(&unit_dir, &rec.normal);
                let dir: Vec3 = reflected.add(&random_unit_vector().scale(*fuzz)).unit();
                Some(
                    MaterialHitResult {
                        color: *albedo,
                        ray: Ray { origin: rec.p, direction: dir },
                        pdf: None,
                    },
                )
            },
            Material::Dielectric { refraction_index } => {
                let unit_dir: Vec3 = r_in.direction.unit();
                let facing: bool = unit_dir.dot(&rec.normal) < 0;
                let n: Vec3 = if facing {
                    rec.normal
                } else {
                    rec.normal.neg()
                };
                let ri: i64 = if facing {
                    fp_div(SCALE, *refraction_index)
                } else {
                    *refraction_index
                };
                let ct0: i64 = unit_dir.neg().dot(&n);
                let cos_theta: i64 = if ct0 > SCALE {
                    SCALE
                } else {
                    ct0
                };
                let sin_theta: i64 = fp_sqrt(fp_sub(SCALE, fp_mul(cos_theta, cos_theta)));
                let cannot_refract: bool = fp_mul(ri, sin_theta) > SCALE;
                let dir: Vec3 = if cannot_refract || reflectance(cos_theta, ri) > rand_unit() {
                    reflect(&unit_dir, &n)
                } else {
                    refract(&unit_dir, &n, ri)
                };
                Some(
                    MaterialHitResult {
                        color: Color::white(),
                        ray: Ray { origin: rec.p, direction: dir },
                        pdf: None,
                    },
                )
            },
            Material::DiffuseLight { .. } => None,
        }
    }

    /// The density the material assigns to the scattered direction,
    /// clamped at zero for grazing and back-facing samples.
    pub fn scattering_pdf(&self, r_in: &Ray, rec: &HitRecord, scattered: &Ray) -> (r: i64)
        ensures
            r as int == scattering_pdf_s(*self, *rec, *scattered),
    {
        match self {
            Material::Lambert(_) => {
                let cos: i64 = rec.normal.unit().dot(&scattered.direction.unit());
                if cos < 0 {
                    0
                } else {
                    fp_div(cos, PI_FP)
                }
            },
            _ => 0,
        }
    }

    /// Emitted radiance at the hit.
    pub fn emit_color(&self, r_in: &Ray, rec: &HitRecord) -> (c: Color)
        ensures
            c == emit_s(*self, *rec),
    {
        match self {
            Material::DiffuseLight { emit } => *emit,
            _ => Color::black(),
        }
    }
}

fn reflect(v: &Vec3, n: &Vec3) -> (r: Vec3)
    ensures
        r == reflect_s(*v, *n),
{
    let d: i64 = v.dot(n);
    v.sub(&n.scale(fp_add(d, d)))
}

fn refract(uv: &Vec3, n: &Vec3, etai_over_etat: i64) -> (r: Vec3)
    ensures
        r == refract_s(*uv, *n, etai_over_etat as int),
{
    let zero: Vec3 = Vec3 { x: 0, y: 0, z: 0 };
    let cos: i64 = zero.sub(uv).unit().dot(n);
    let cos_c: i64 = if cos > SCALE {
        SCALE
    } else {
        cos
    };
    let perp: Vec3 = uv.add(&n.scale(cos_c)).scale(etai_over_etat);
    let k: i64 = fp_sub(SCALE, perp.dot(&perp));
    let parallel: Vec3 = n.scale(fp_sub(0, fp_sqrt(k)));
    perp.add(&parallel)
}

fn reflectance(cos: i64, refraction_index: i64) -> (r: i64)
    ensures
        r as int == schlick_s(cos as int, refraction_index as int),
{
    let r0a: i64 = fp_div(fp_sub(SCALE, refraction_index), fp_add(SCALE, refraction_index));
    let r0: i64 = fp_mul(r0a, r0a);
    let omc: i64 = fp_sub(SCALE, cos);
    let p2: i64 = fp_mul(omc, omc);
    let p5: i64 = fp_mul(fp_mul(p2, p2), omc);
    fp_add(r0, fp_mul(fp_sub(SCALE, r0), p5))
}

} // verus!
