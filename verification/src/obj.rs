//! Mesh data: indexed faces expanded into the flat triangle list the
//! pipeline consumes.
//!
//! Reading the face/vertex text format happens outside the library; the
//! parsed data arrives here as plain fixed-point vectors and one-based
//! indices. An index of zero or one past the end of its list — the
//! malformed-input policy of the loader boundary — resolves to the zero
//! vector.

use vstd::prelude::*;
use crate::vec3::Vec3Fx;
use crate::vertex::{Vertex, vertex_new_spec};

verus! {

/// One corner of a face: one-based indices into the position, texture
/// coordinate and normal lists. Zero means the corner has no such
/// attribute.
#[derive(Clone, Copy, Debug, PartialEq, Eq, Structural)]
pub struct FaceVertex {
    pub position: usize,
    pub texcoord: usize,
    pub normal: usize,
}

/// A parsed mesh: attribute lists plus triangular faces of index
/// triples.
#[derive(Clone, Debug)]
pub struct Obj {
    pub vertices: Vec<Vec3Fx>,
    pub normals: Vec<Vec3Fx>,
    pub texcoords: Vec<Vec3Fx>,
    pub faces: Vec<(FaceVertex, FaceVertex, FaceVertex)>,
}

/// Resolve a one-based index: out-of-range indices, zero included,
/// yield the zero vector.
pub open spec fn lookup_spec(list: Seq<Vec3Fx>, idx: int) -> Vec3Fx {
    if 1 <= idx <= list.len() {
        list[idx - 1]
    } else {
        Vec3Fx { x: 0, y: 0, z: 0 }
    }
}

/// The corner of a face triple selected by `r`.
pub open spec fn face_part(f: (FaceVertex, FaceVertex, FaceVertex), r: int) -> FaceVertex {
    if r == 0 {
        f.0
    } else if r == 1 {
        f.1
    } else {
        f.2
    }
}

/// The fully resolved vertex of one face corner.
pub open spec fn face_vertex_spec(o: Obj, fv: FaceVertex) -> Vertex {
    vertex_new_spec(
        lookup_spec(o.vertices@, fv.position as int),
        lookup_spec(o.normals@, fv.normal as int),
        lookup_spec(o.texcoords@, fv.texcoord as int),
    )
}

/// The vertex at position `j` of the expanded triangle list: corner
/// `j % 3` of face `j / 3`.
pub open spec fn expanded_vertex_spec(o: Obj, j: int) -> Vertex {
    face_vertex_spec(o, face_part(o.faces@[j / 3], j % 3))
}

/// Resolve a one-based index into an attribute list.
fn lookup(list: &Vec<Vec3Fx>, idx: usize) -> (v: Vec3Fx)
    ensures
        v == lookup_spec(list@, idx as int),
{
    if 1 <= idx && idx <= list.len() {
        list[idx - 1]
    } else {
        Vec3Fx { x: 0, y: 0, z: 0 }
    }
}

impl Obj {
    /// Expand the faces into a flat vertex list: three consecutive
    /// vertices per face, each corner's indices resolved against the
    /// attribute lists. The result's length is always a multiple of
    /// three.
    pub fn get_vertex_array(&self) -> (out: Vec<Vertex>)
        requires
            self.faces@.len() <= 100_000_000,
        ensures
            out@.len() == 3 * self.faces@.len(),
            forall|j: int| 0 <= j < out@.len() ==> #[trigger] out@[j] == expanded_vertex_spec(
                *self,
                j,
            ),
    {
        let mut out: Vec<Vertex> = Vec::new();
        let n: usize = self.faces.len();
        let mut k: usize = 0;
        while k < n
            invariant
                n == self.faces@.len(),
                n <= 100_000_000,
                k <= n,
                out@.len() == 3 * k as int,
                forall|j: int| 0 <= j < out@.len() ==> #[trigger] out@[j] == expanded_vertex_spec(
                    *self,
                    j,
                ),
            decreases n - k,
        {
            let (f0, f1, f2) = self.faces[k];
            out.push(Vertex::new(
                lookup(&self.vertices, f0.position),
                lookup(&self.normals, f0.normal),
                lookup(&self.texcoords, f0.texcoord),
            ));
            out.push(Vertex::new(
                lookup(&self.vertices, f1.position),
                lookup(&self.normals, f1.normal),
                lookup(&self.texcoords, f1.texcoord),
            ));
            out.push(Vertex::new(
                lookup(&self.vertices, f2.position),
                lookup(&self.normals, f2.normal),
                lookup(&self.texcoords, f2.texcoord),
            ));
            proof {
                assert((3 * k as int) / 3 == k as int) by (nonlinear_arith);
                assert((3 * k as int) % 3 == 0) by (nonlinear_arith);
                assert((3 * k as int + 1) / 3 == k as int) by (nonlinear_arith);
                assert((3 * k as int + 1) % 3 == 1) by (nonlinear_arith);
                assert((3 * k as int + 2) / 3 == k as int) by (nonlinear_arith);
                assert((3 * k as int + 2) % 3 == 2) by (nonlinear_arith);
            }
            k = k + 1;
        }
        out
    }
}

} // verus!
