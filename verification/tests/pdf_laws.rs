use bitray::color::Color;
use bitray::hittable::HitRecord;
use bitray::ray::Ray;
use bitray::vec3::Vec2;
use bitray::fixed::{fp_add, fp_mul, HALF_FP, PI_FP, SCALE};
use bitray::hittable::{HittableList, Object};
use bitray::materials::{Lambert, Material};
use bitray::onb::Onb;
use bitray::pdf::{CosinePdf, HittablePdf, MixturePdf};
use bitray::sphere::Sphere;
use bitray::triangle::Triangle;
use bitray::vec3::Vec3;
use bitray::vertex::Vertex;

fn light_scene() -> HittableList {
    let mat = Material::DiffuseLight { emit: Color::white() };
    HittableList::new(vec![Object::Sphere(Sphere::new(
        Vec3::new(0, 4 * SCALE, 0),
        SCALE,
        mat,
    ))])
}

/// The mixture density is exactly the even mean of its two components, for
/// any direction: value(d) = 0.5 * light(d) + 0.5 * surface(d) in fixed
/// point, with no stochastic part at all.
#[test]
fn mixture_value_is_the_even_mean_of_its_components() {
    let objects = light_scene();
    let surface = CosinePdf::new(Onb::new(&Vec3::new(0, SCALE, 0)));
    let light = HittablePdf::new(Vec3::new(0, 0, 0), &objects);
    let mix = MixturePdf::new(&light, &surface);
    let dirs = [
        Vec3::new(0, SCALE, 0),
        Vec3::new(0, -SCALE, 0),
        Vec3::new(SCALE / 2, SCALE, -SCALE / 3),
        Vec3::new(SCALE, SCALE, SCALE),
        Vec3::new(-SCALE, SCALE / 4, 0),
    ];
    for d in dirs {
        let expected = fp_add(
            fp_mul(HALF_FP, light.value(&d)),
            fp_mul(HALF_FP, surface.value(&d)),
        );
        assert_eq!(mix.value(&d), expected);
    }
}

/// Straight along the basis axis the cosine density is exactly 1/pi;
/// against it, exactly zero (the clamp at grazing and back-facing samples).
#[test]
fn cosine_density_is_inv_pi_on_axis_and_zero_behind() {
    let pdf = CosinePdf::new(Onb::new(&Vec3::new(0, 0, SCALE)));
    let up = pdf.value(&Vec3::new(0, 0, SCALE));
    // 1/pi in Q16.16, truncated: 65536 * 65536 / 205887.
    assert_eq!(up, 20860);
    assert_eq!(pdf.value(&Vec3::new(0, 0, -SCALE)), 0);
    assert_eq!(pdf.value(&Vec3::new(SCALE, 0, 0)), 0);
}

/// Monte Carlo check of the cosine sampler against its own density: for
/// draws d from generate(), E[value(d)] = integral of p^2 over the
/// hemisphere = 2 / (3 pi) ~ 0.2122. A large sample mean must land near it.
#[test]
fn cosine_pdf_sampling_matches_its_density() {
    let pdf = CosinePdf::new(Onb::new(&Vec3::new(0, 0, SCALE)));
    let n: i64 = 20000;
    let mut sum: i64 = 0;
    for _ in 0..n {
        let d = pdf.generate();
        sum += pdf.value(&d);
    }
    let mean = sum / n;
    let expected = 13908; // 2 / (3 pi) in Q16.16
    assert!(
        (mean - expected).abs() < 3277,
        "mean {} too far from {}",
        mean,
        expected
    );
}

/// The diffuse material's own density is max(0, cos theta / pi): exactly
/// 1/pi straight along the normal, zero behind it, and zero for every
/// non-diffuse variant.
#[test]
fn scattering_density_is_clamped_cosine_over_pi() {
    let m = Material::Lambert(Lambert::new(Color::white()));
    let rec = HitRecord {
        p: Vec3::new(0, 0, 0),
        normal: Vec3::new(0, 0, SCALE),
        uv: Vec2::new(0, 0),
        t: SCALE,
        material: m,
    };
    let r_in = Ray::new(Vec3::new(0, 0, SCALE), Vec3::new(0, 0, -SCALE));
    let along = Ray::new(Vec3::new(0, 0, 0), Vec3::new(0, 0, SCALE));
    let behind = Ray::new(Vec3::new(0, 0, 0), Vec3::new(0, 0, -SCALE));
    assert_eq!(m.scattering_pdf(&r_in, &rec, &along), SCALE * SCALE / PI_FP);
    assert_eq!(m.scattering_pdf(&r_in, &rec, &behind), 0);
    let metal = Material::Metal { albedo: Color::white(), fuzz: 0 };
    assert_eq!(metal.scattering_pdf(&r_in, &rec, &along), 0);
}

/// The solid-angle density of a sphere of radius 1 seen from 4 units away:
/// 1 / (2 pi (1 - sqrt(15)/4)) ~ 5.01; directions that miss, and queries
/// from inside the sphere, have density zero.
#[test]
fn sphere_solid_angle_density_has_the_expected_magnitude() {
    let mat = Material::DiffuseLight { emit: Color::white() };
    let s = Sphere::new(Vec3::new(0, 0, -4 * SCALE), SCALE, mat);
    let toward = s.pdf_value(&Vec3::new(0, 0, 0), &Vec3::new(0, 0, -SCALE));
    assert!(
        (327680..=330956).contains(&toward),
        "density {} outside the expected band",
        toward
    );
    // A direction that misses the sphere has density zero.
    assert_eq!(s.pdf_value(&Vec3::new(0, 0, 0), &Vec3::new(0, 0, SCALE)), 0);
    // From inside the sphere the configuration is degenerate: zero.
    assert_eq!(s.pdf_value(&Vec3::new(0, 0, -4 * SCALE), &Vec3::new(0, 0, SCALE)), 0);
    // A one-member aggregate has the member's density; an empty one, zero.
    let list = HittableList::new(vec![Object::Sphere(Sphere::new(
        Vec3::new(0, 0, -4 * SCALE),
        SCALE,
        mat,
    ))]);
    assert_eq!(list.pdf_value(&Vec3::new(0, 0, 0), &Vec3::new(0, 0, -SCALE)), toward);
    let empty = HittableList::new(Vec::new());
    assert_eq!(empty.pdf_value(&Vec3::new(0, 0, 0), &Vec3::new(0, 0, -SCALE)), 0);
}

/// The basis construction is deterministic and exact: for the z axis it
/// yields the left-handed frame (-x, y, z), each axis unit length.
#[test]
fn onb_about_the_z_axis_is_the_expected_frame() {
    let onb = Onb::new(&Vec3::new(0, 0, 2 * SCALE));
    assert_eq!(onb.w, Vec3::new(0, 0, SCALE));
    assert_eq!(onb.v, Vec3::new(0, SCALE, 0));
    assert_eq!(onb.u, Vec3::new(-SCALE, 0, 0));
}

/// Triangles are not sampleable importance targets: they contribute no
/// density to the aggregate's mean, and the aggregate never aims at them.
#[test]
fn triangles_are_not_importance_targets() {
    let mat = Material::DiffuseLight { emit: Color::white() };
    let sphere = Sphere::new(Vec3::new(0, 0, -4 * SCALE), SCALE, mat);
    let v = |x: i64, y: i64, z: i64| {
        Vertex::new(Vec3::new(x, y, z), Vec3::new(0, 0, SCALE), Vec2::new(0, 0))
    };
    let tri = Triangle::new(
        v(-SCALE, -SCALE, -2 * SCALE),
        v(SCALE, -SCALE, -2 * SCALE),
        v(0, SCALE, -2 * SCALE),
    );
    let origin = Vec3::new(0, 0, 0);
    let dir = Vec3::new(0, 0, -SCALE);
    let alone = HittableList::new(vec![Object::Sphere(sphere)]);
    let with_triangle = HittableList::new(vec![
        Object::Sphere(sphere),
        Object::Triangle { triangle: tri, material: mat },
    ]);
    // The mean is over the sphere members only, so the triangle changes
    // nothing.
    assert_eq!(with_triangle.pdf_value(&origin, &dir), alone.pdf_value(&origin, &dir));
    // An aggregate of triangles alone has no target: density zero, and the
    // sampler falls back to the z axis every time.
    let only_triangles = HittableList::new(vec![Object::Triangle { triangle: tri, material: mat }]);
    assert_eq!(only_triangles.pdf_value(&origin, &dir), 0);
    for _ in 0..20 {
        assert_eq!(only_triangles.random(&origin), Vec3::new(0, 0, SCALE));
    }
}

#[test]
fn lambert_new_stores_the_albedo() {
    let l = Lambert::new(Color::new(1, 2, 3));
    assert_eq!(l.albedo, Color::new(1, 2, 3));
}
