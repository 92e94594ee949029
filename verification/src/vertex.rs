//! A mesh vertex: position, shading normal, texture coordinate.
use vstd::prelude::*;
use crate::vec3::{Vec2, Vec3};

verus! {

#[derive(Clone, Copy, Debug, PartialEq, Eq, Structural)]
pub struct Vertex {
    pub pos: Vec3,
    pub normal: Vec3,
    pub uv: Vec2,
}

impl Vertex {
    pub fn new(pos: Vec3, normal: Vec3, uv: Vec2) -> (r: Vertex)
        ensures
            r == (Vertex { pos, normal, uv }),
    {
        Vertex { pos, normal, uv }
    }
}

} // verus!
