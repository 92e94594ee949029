use bitray::color::Color;
use bitray::fixed::SCALE;
use bitray::hittable::Object;
use bitray::interval::Interval;
use bitray::materials::{Lambert, Material};
use bitray::ray::Ray;
use bitray::sphere::Sphere;
use bitray::triangle::Triangle;
use bitray::vec3::{Vec2, Vec3};
use bitray::vertex::Vertex;

fn red() -> Material {
    Material::Lambert(Lambert::new(Color::new(45875, 19661, 19661)))
}

fn vertex(pos: Vec3) -> Vertex {
    Vertex::new(pos, Vec3::new(0, 0, SCALE), Vec2::new(0, 0))
}

#[test]
fn sphere_head_on_hit_is_at_distance_minus_radius() {
    // A unit sphere 5 units down the axis: the ray aimed straight at the
    // center must hit the near surface at t = 4, exactly in fixed point.
    let s = Sphere::new(Vec3::new(0, 0, -5 * SCALE), SCALE, red());
    let r = Ray::new(Vec3::new(0, 0, 0), Vec3::new(0, 0, -SCALE));
    let hit = s.hit(&r, &Interval::new(0, 100 * SCALE)).expect("head-on ray must hit");
    assert_eq!(hit.t, 4 * SCALE);
    assert_eq!(hit.p, Vec3::new(0, 0, -4 * SCALE));
    // The outward normal points back along the ray.
    assert_eq!(hit.normal, Vec3::new(0, 0, SCALE));
}

#[test]
fn sphere_behind_the_window_is_not_reported() {
    let s = Sphere::new(Vec3::new(0, 0, -5 * SCALE), SCALE, red());
    let r = Ray::new(Vec3::new(0, 0, 0), Vec3::new(0, 0, -SCALE));
    // Window ends before the sphere begins.
    assert!(s.hit(&r, &Interval::new(0, 3 * SCALE)).is_none());
    // Window starts after the sphere ends.
    assert!(s.hit(&r, &Interval::new(7 * SCALE, 100 * SCALE)).is_none());
}

#[test]
fn sphere_miss_reports_nothing() {
    let s = Sphere::new(Vec3::new(0, 0, -5 * SCALE), SCALE, red());
    let r = Ray::new(Vec3::new(0, 3 * SCALE, 0), Vec3::new(0, 0, -SCALE));
    assert!(s.hit(&r, &Interval::new(0, 100 * SCALE)).is_none());
}

#[test]
fn triangle_parallel_ray_returns_no_hit() {
    // The triangle lies in the plane z = -1; the ray runs inside that plane's
    // direction (determinant exactly zero), so no hit may be reported.
    let tri = Triangle::new(
        vertex(Vec3::new(0, 0, -SCALE)),
        vertex(Vec3::new(SCALE, 0, -SCALE)),
        vertex(Vec3::new(0, SCALE, -SCALE)),
    );
    let r = Ray::new(Vec3::new(0, 0, 0), Vec3::new(SCALE, 0, 0));
    assert!(tri.ray_hit(&r, &Interval::new(0, 100 * SCALE)).is_none());
}

#[test]
fn triangle_front_facing_hit_has_exact_parameter() {
    // A front-facing triangle straddling the axis; all quantities land on
    // exact fixed-point values.
    let tri = Triangle::new(
        vertex(Vec3::new(-2 * SCALE, -2 * SCALE, -SCALE)),
        vertex(Vec3::new(2 * SCALE, -2 * SCALE, -SCALE)),
        vertex(Vec3::new(0, 2 * SCALE, -SCALE)),
    );
    let r = Ray::new(Vec3::new(0, 0, 0), Vec3::new(0, 0, -SCALE));
    let hit = tri.ray_hit(&r, &Interval::new(0, 100 * SCALE)).expect("must hit");
    assert_eq!(hit.t, SCALE);
    assert_eq!(hit.p, Vec3::new(0, 0, -SCALE));
    assert_eq!(hit.normal, Vec3::new(0, 0, SCALE));
    // Texture coordinates are the plain barycentric interpolation.
    assert_eq!(hit.uv, Vec2::new(0, 0));
}

#[test]
fn triangle_back_face_is_culled() {
    // Reversed winding flips the determinant's sign: the hit is culled.
    let tri = Triangle::new(
        vertex(Vec3::new(-2 * SCALE, -2 * SCALE, -SCALE)),
        vertex(Vec3::new(0, 2 * SCALE, -SCALE)),
        vertex(Vec3::new(2 * SCALE, -2 * SCALE, -SCALE)),
    );
    let r = Ray::new(Vec3::new(0, 0, 0), Vec3::new(0, 0, -SCALE));
    assert!(tri.ray_hit(&r, &Interval::new(0, 100 * SCALE)).is_none());
}

#[test]
fn object_wraps_triangle_with_its_material() {
    let tri = Triangle::new(
        vertex(Vec3::new(-2 * SCALE, -2 * SCALE, -SCALE)),
        vertex(Vec3::new(2 * SCALE, -2 * SCALE, -SCALE)),
        vertex(Vec3::new(0, 2 * SCALE, -SCALE)),
    );
    let obj = Object::Triangle { triangle: tri, material: red() };
    let r = Ray::new(Vec3::new(0, 0, 0), Vec3::new(0, 0, -SCALE));
    let hit = obj.hit(&r, &Interval::new(0, 100 * SCALE)).expect("must hit");
    assert_eq!(hit.material, red());
    assert_eq!(hit.t, SCALE);
}
