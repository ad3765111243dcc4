//! Fragments: one covered pixel with interpolated attributes.

use vstd::prelude::*;
use crate::color::Color;
use crate::vec3::Vec3Fx;

verus! {

/// One covered pixel. `x` and `y` are the integer pixel coordinates;
/// `depth` is the interpolated normalized depth; `normal` and
/// `vertex_position` are the interpolated surface normal and object-space
/// position; `intensity` is the diffuse term against the fixed light
/// direction. The color starts as a placeholder and is overwritten by the
/// shading stage.
#[derive(Clone, Copy, Debug, PartialEq, Eq, Structural)]
pub struct Fragment {
    pub x: i64,
    pub y: i64,
    pub depth: i64,
    pub color: Color,
    pub normal: Vec3Fx,
    pub vertex_position: Vec3Fx,
    pub intensity: i64,
}

impl Fragment {
    /// Assemble a fragment from its parts.
    pub fn new(x: i64, y: i64, depth: i64, color: Color, normal: Vec3Fx, vertex_position: Vec3Fx, intensity: i64) -> (f: Fragment)
        ensures
            f == (Fragment { x, y, depth, color, normal, vertex_position, intensity }),
    {
        Fragment { x, y, depth, color, normal, vertex_position, intensity }
    }
}

} // verus!
