use bitray::bvh::Bvh;
use bitray::color::Color;
use bitray::fixed::SCALE;
use bitray::hittable::{HittableList, Object};
use bitray::interval::Interval;
use bitray::materials::{Lambert, Material};
use bitray::ray::Ray;
use bitray::sphere::Sphere;
use bitray::triangle::Triangle;
use bitray::vec3::{Vec2, Vec3};
use bitray::vertex::Vertex;

fn mat(r: i64, g: i64, b: i64) -> Material {
    Material::Lambert(Lambert::new(Color::new(r, g, b)))
}

fn scene() -> Vec<Object> {
    let mut objects: Vec<Object> = Vec::new();
    objects.push(Object::Sphere(Sphere::new(
        Vec3::new(0, 0, -5 * SCALE),
        SCALE,
        mat(SCALE, 0, 0),
    )));
    objects.push(Object::Sphere(Sphere::new(
        Vec3::new(2 * SCALE, 0, -6 * SCALE),
        SCALE,
        mat(0, SCALE, 0),
    )));
    objects.push(Object::Sphere(Sphere::new(
        Vec3::new(-2 * SCALE, SCALE, -4 * SCALE),
        SCALE / 2,
        mat(0, 0, SCALE),
    )));
    objects.push(Object::Sphere(Sphere::new(
        Vec3::new(0, -100 * SCALE, -5 * SCALE),
        98 * SCALE,
        mat(SCALE, SCALE, 0),
    )));
    let v = |x: i64, y: i64, z: i64| {
        Vertex::new(Vec3::new(x, y, z), Vec3::new(0, 0, SCALE), Vec2::new(0, 0))
    };
    objects.push(Object::Triangle {
        triangle: Triangle::new(
            v(-3 * SCALE, -3 * SCALE, -3 * SCALE),
            v(3 * SCALE, -3 * SCALE, -3 * SCALE),
            v(0, 3 * SCALE, -3 * SCALE),
        ),
        material: mat(SCALE, 0, SCALE),
    });
    objects
}

fn rays() -> Vec<Ray> {
    let mut rays: Vec<Ray> = Vec::new();
    let dirs = [
        (0, 0, -SCALE),
        (SCALE / 4, 0, -SCALE),
        (-SCALE / 4, SCALE / 8, -SCALE),
        (0, -SCALE / 2, -SCALE),
        (SCALE, SCALE, SCALE),
        (0, SCALE, 0),
    ];
    for (x, y, z) in dirs {
        rays.push(Ray::new(Vec3::new(0, 0, 0), Vec3::new(x, y, z)));
        rays.push(Ray::new(Vec3::new(SCALE, SCALE / 2, SCALE), Vec3::new(x, y, z)));
    }
    rays
}

/// The differential oracle: over the same primitives, for a spread of rays
/// and windows, the hierarchy's closest hit equals the brute-force scan's.
#[test]
fn bvh_closest_hit_matches_linear_scan() {
    let list = HittableList::new(scene());
    let tree = Bvh::build(scene());
    let windows = [
        Interval::new(66, 1 << 40),
        Interval::new(0, 4 * SCALE),
        Interval::new(3 * SCALE, 6 * SCALE),
        Interval::new(SCALE, 0),
    ];
    for r in rays() {
        for w in windows {
            assert_eq!(tree.hit(&r, &w), list.hit(&r, &w));
        }
    }
}

#[test]
fn empty_scene_builds_and_never_hits() {
    let tree = Bvh::build(Vec::new());
    let r = Ray::new(Vec3::new(0, 0, 0), Vec3::new(0, 0, -SCALE));
    assert!(tree.hit(&r, &Interval::new(0, 1 << 40)).is_none());
    let list = HittableList::new(Vec::new());
    assert!(list.hit(&r, &Interval::new(0, 1 << 40)).is_none());
}

/// A ray whose origin sits exactly on a bounding-box face must not be
/// spuriously rejected: the slab test's comparisons are inclusive.
#[test]
fn ray_starting_on_the_box_face_still_hits() {
    // The padded box of this sphere has its +z face exactly at z = 0 when
    // the pad (4096) plus radius reaches the origin plane.
    let s = Sphere::new(Vec3::new(0, 0, -2 * SCALE), 2 * SCALE - 4096, mat(SCALE, 0, 0));
    let tree = Bvh::build(vec![Object::Sphere(s)]);
    let r = Ray::new(Vec3::new(0, 0, 0), Vec3::new(0, 0, -SCALE));
    let hit = tree.hit(&r, &Interval::new(0, 1 << 40));
    assert!(hit.is_some());
}
