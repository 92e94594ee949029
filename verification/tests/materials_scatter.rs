use bitray::color::Color;
use bitray::fixed::SCALE;
use bitray::hittable::HitRecord;
use bitray::materials::{Lambert, Material};
use bitray::ray::Ray;
use bitray::vec3::{Vec2, Vec3};

fn record(m: Material) -> HitRecord {
    HitRecord {
        p: Vec3::new(0, SCALE, 0),
        normal: Vec3::new(0, SCALE, 0),
        uv: Vec2::new(0, 0),
        t: SCALE,
        material: m,
    }
}

fn incoming() -> Ray {
    Ray::new(Vec3::new(0, 2 * SCALE, 0), Vec3::new(0, -SCALE, 0))
}

#[test]
fn lambert_scatters_with_albedo_and_a_density() {
    let albedo = Color::new(45875, 19661, 19661);
    let m = Material::Lambert(Lambert::new(albedo));
    let rec = record(m);
    for _ in 0..20 {
        let res = m.scatter(&incoming(), &rec).expect("diffuse always scatters");
        assert_eq!(res.color, albedo);
        assert_eq!(res.ray.origin, rec.p);
        assert!(res.pdf.is_some());
    }
}

#[test]
fn metal_scatters_without_a_density() {
    let albedo = Color::new(SCALE, SCALE, SCALE);
    let m = Material::Metal { albedo, fuzz: 0 };
    let rec = record(m);
    let res = m.scatter(&incoming(), &rec).expect("metal always scatters");
    assert_eq!(res.color, albedo);
    assert_eq!(res.ray.origin, rec.p);
    assert!(res.pdf.is_none());
    // With zero fuzz the head-on reflection bounces straight back up.
    assert_eq!(res.ray.direction, Vec3::new(0, SCALE, 0));
}

#[test]
fn dielectric_scatters_white_without_a_density() {
    let m = Material::Dielectric { refraction_index: 98304 };
    let rec = record(m);
    for _ in 0..20 {
        let res = m.scatter(&incoming(), &rec).expect("glass always scatters");
        assert_eq!(res.color, Color::white());
        assert_eq!(res.ray.origin, rec.p);
        assert!(res.pdf.is_none());
    }
}

/// A head-on ray through glass either refracts straight on or reflects
/// straight back; both outcomes are exact in fixed point.
#[test]
fn dielectric_head_on_goes_straight_through_or_straight_back() {
    let m = Material::Dielectric { refraction_index: 98304 };
    let mut rec = record(m);
    rec.normal = Vec3::new(0, 0, SCALE);
    let r_in = Ray::new(Vec3::new(0, 0, SCALE), Vec3::new(0, 0, -SCALE));
    for _ in 0..50 {
        let res = m.scatter(&r_in, &rec).expect("glass always scatters");
        let d = res.ray.direction;
        assert!(
            d == Vec3::new(0, 0, -SCALE) || d == Vec3::new(0, 0, SCALE),
            "unexpected direction {:?}",
            d
        );
    }
}

#[test]
fn diffuse_light_never_scatters_and_emits_its_color() {
    let emit = Color::new(SCALE, 45875, 13107);
    let m = Material::DiffuseLight { emit };
    let rec = record(m);
    assert!(m.scatter(&incoming(), &rec).is_none());
    assert_eq!(m.emit_color(&incoming(), &rec), emit);
    // Every other variant emits black.
    let dark = Material::Lambert(Lambert::new(Color::white()));
    assert_eq!(dark.emit_color(&incoming(), &record(dark)), Color::black());
}
