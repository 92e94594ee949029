//! An offline Monte-Carlo path tracer: scenes of spheres and triangles with
//! attached materials are sampled by a camera whose per-pixel integrator
//! estimates radiance along stochastic light-transport paths.
//!
//! All geometry is carried in Q16.16 fixed-point scalars so that every
//! arithmetic step has an exact mathematical meaning; numerically degenerate
//! configurations saturate or yield "no hit" instead of propagating garbage.
pub mod aabb;
pub mod bvh;
pub mod camera;
pub mod color;
pub mod fixed;
pub mod hittable;
pub mod interval;
pub mod materials;
pub mod onb;
pub mod pdf;
pub mod ray;
pub mod rng;
pub mod sphere;
pub mod triangle;
pub mod vec3;
pub mod vertex;
