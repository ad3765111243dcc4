//! Mesh vertices.

use vstd::prelude::*;
use crate::fixed::SCALE;
use crate::vec3::Vec3Fx;

verus! {

/// A mesh vertex. `position`, `normal` and `tex_coords` live in object
/// space; `transformed_position` (screen x and y plus normalized depth)
/// and `transformed_normal` are derived fields that only the transform
/// stage fills in, and hold zeros until it has run.
#[derive(Clone, Copy, Debug, PartialEq, Eq, Structural)]
pub struct Vertex {
    pub position: Vec3Fx,
    pub normal: Vec3Fx,
    pub tex_coords: Vec3Fx,
    pub color: Vec3Fx,
    pub transformed_position: Vec3Fx,
    pub transformed_normal: Vec3Fx,
}

/// A fresh vertex: white base color, derived fields zeroed.
pub open spec fn vertex_new_spec(position: Vec3Fx, normal: Vec3Fx, tex_coords: Vec3Fx) -> Vertex {
    Vertex {
        position,
        normal,
        tex_coords,
        color: Vec3Fx { x: SCALE, y: SCALE, z: SCALE },
        transformed_position: Vec3Fx { x: 0, y: 0, z: 0 },
        transformed_normal: Vec3Fx { x: 0, y: 0, z: 0 },
    }
}

impl Vertex {
    /// Build a vertex from its object-space attributes; the derived
    /// screen-space fields start out zeroed and the base color is white.
    pub fn new(position: Vec3Fx, normal: Vec3Fx, tex_coords: Vec3Fx) -> (v: Vertex)
        ensures
            v == vertex_new_spec(position, normal, tex_coords),
    {
        Vertex {
            position,
            normal,
            tex_coords,
            color: Vec3Fx { x: SCALE, y: SCALE, z: SCALE },
            transformed_position: Vec3Fx { x: 0, y: 0, z: 0 },
            transformed_normal: Vec3Fx { x: 0, y: 0, z: 0 },
        }
    }
}

} // verus!
