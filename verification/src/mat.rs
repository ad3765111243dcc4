//! Fixed-point matrices for the vertex transform stage.
//!
//! Rows are vectors of fixed-point components. Each multiply divides the
//! exact 128-bit weighted sum once by the scale and saturates the result
//! into `MAT_LIM`, so chained products stay inside `i64` whatever the
//! inputs; the saturation never fires for the value ranges a renderer
//! feeds through.

use vstd::prelude::*;
use crate::fixed::{SCALE, tdiv, tdiv_i128, clamp_spec};
use crate::vec3::{Vec3Fx, vec3_bounded};

verus! {

/// Largest component magnitude the matrix operations accept and return.
pub const MAT_LIM: i64 = 1_000_000_000_000;

/// A vector of four fixed-point components.
#[derive(Clone, Copy, Debug, PartialEq, Eq, Structural)]
pub struct Vec4Fx {
    pub x: i64,
    pub y: i64,
    pub z: i64,
    pub w: i64,
}

/// Every component's magnitude is at most `lim`.
pub open spec fn vec4_bounded(v: Vec4Fx, lim: int) -> bool {
    &&& -lim <= v.x <= lim
    &&& -lim <= v.y <= lim
    &&& -lim <= v.z <= lim
    &&& -lim <= v.w <= lim
}

/// A 4 by 4 fixed-point matrix, by rows.
#[derive(Clone, Copy, Debug, PartialEq, Eq, Structural)]
pub struct Mat4Fx {
    pub r0: Vec4Fx,
    pub r1: Vec4Fx,
    pub r2: Vec4Fx,
    pub r3: Vec4Fx,
}

/// Every entry's magnitude is at most `lim`.
pub open spec fn mat4_bounded(m: Mat4Fx, lim: int) -> bool {
    &&& vec4_bounded(m.r0, lim)
    &&& vec4_bounded(m.r1, lim)
    &&& vec4_bounded(m.r2, lim)
    &&& vec4_bounded(m.r3, lim)
}

/// The fixed-point inner product of a row and a vector: the exact sum of
/// entry products, divided once by the scale and saturated into
/// `MAT_LIM`.
pub open spec fn row4_dot_spec(r: Vec4Fx, v: Vec4Fx) -> int {
    clamp_spec(
        tdiv(r.x * v.x + r.y * v.y + r.z * v.z + r.w * v.w, SCALE as int),
        -MAT_LIM as int,
        MAT_LIM as int,
    )
}

/// Matrix times vector.
pub open spec fn mat4_mul_vec4_spec(m: Mat4Fx, v: Vec4Fx) -> Vec4Fx {
    Vec4Fx {
        x: row4_dot_spec(m.r0, v) as i64,
        y: row4_dot_spec(m.r1, v) as i64,
        z: row4_dot_spec(m.r2, v) as i64,
        w: row4_dot_spec(m.r3, v) as i64,
    }
}

/// The columns of a matrix, as vectors.
pub open spec fn mat4_col(m: Mat4Fx, j: int) -> Vec4Fx {
    if j == 0 {
        Vec4Fx { x: m.r0.x, y: m.r1.x, z: m.r2.x, w: m.r3.x }
    } else if j == 1 {
        Vec4Fx { x: m.r0.y, y: m.r1.y, z: m.r2.y, w: m.r3.y }
    } else if j == 2 {
        Vec4Fx { x: m.r0.z, y: m.r1.z, z: m.r2.z, w: m.r3.z }
    } else {
        Vec4Fx { x: m.r0.w, y: m.r1.w, z: m.r2.w, w: m.r3.w }
    }
}

/// Matrix times matrix.
pub open spec fn mat4_mul_mat4_spec(a: Mat4Fx, b: Mat4Fx) -> Mat4Fx {
    Mat4Fx {
        r0: Vec4Fx {
            x: row4_dot_spec(a.r0, mat4_col(b, 0)) as i64,
            y: row4_dot_spec(a.r0, mat4_col(b, 1)) as i64,
            z: row4_dot_spec(a.r0, mat4_col(b, 2)) as i64,
            w: row4_dot_spec(a.r0, mat4_col(b, 3)) as i64,
        },
        r1: Vec4Fx {
            x: row4_dot_spec(a.r1, mat4_col(b, 0)) as i64,
            y: row4_dot_spec(a.r1, mat4_col(b, 1)) as i64,
            z: row4_dot_spec(a.r1, mat4_col(b, 2)) as i64,
            w: row4_dot_spec(a.r1, mat4_col(b, 3)) as i64,
        },
        r2: Vec4Fx {
            x: row4_dot_spec(a.r2, mat4_col(b, 0)) as i64,
            y: row4_dot_spec(a.r2, mat4_col(b, 1)) as i64,
            z: row4_dot_spec(a.r2, mat4_col(b, 2)) as i64,
            w: row4_dot_spec(a.r2, mat4_col(b, 3)) as i64,
        },
        r3: Vec4Fx {
            x: row4_dot_spec(a.r3, mat4_col(b, 0)) as i64,
            y: row4_dot_spec(a.r3, mat4_col(b, 1)) as i64,
            z: row4_dot_spec(a.r3, mat4_col(b, 2)) as i64,
            w: row4_dot_spec(a.r3, mat4_col(b, 3)) as i64,
        },
    }
}

/// Fixed-point inner product of a row and a vector.
fn row4_dot(r: Vec4Fx, v: Vec4Fx) -> (d: i64)
    requires
        vec4_bounded(r, MAT_LIM as int),
        vec4_bounded(v, MAT_LIM as int),
    ensures
        d == row4_dot_spec(r, v),
        -MAT_LIM <= d <= MAT_LIM,
{
    proof {
        lemma_bounded_prod(r.x as int, v.x as int);
        lemma_bounded_prod(r.y as int, v.y as int);
        lemma_bounded_prod(r.z as int, v.z as int);
        lemma_bounded_prod(r.w as int, v.w as int);
    }
    let s: i128 = (r.x as i128) * (v.x as i128) + (r.y as i128) * (v.y as i128) + (r.z as i128) * (
    v.z as i128) + (r.w as i128) * (v.w as i128);
    let q: i128 = tdiv_i128(s, SCALE as i128);
    proof {
        crate::fixed::lemma_tdiv_bounds(s as int, SCALE as int);
    }
    if q < -(MAT_LIM as i128) {
        -MAT_LIM
    } else if q > MAT_LIM as i128 {
        MAT_LIM
    } else {
        q as i64
    }
}

/// A product of two in-range components stays within the square of the
/// range.
proof fn lemma_bounded_prod(a: int, b: int)
    requires
        -MAT_LIM <= a <= MAT_LIM,
        -MAT_LIM <= b <= MAT_LIM,
    ensures
        -1_000_000_000_000_000_000_000_000 <= a * b <= 1_000_000_000_000_000_000_000_000,
{
    assert(-1_000_000_000_000_000_000_000_000 <= a * b <= 1_000_000_000_000_000_000_000_000)
        by (nonlinear_arith)
        requires
            -1_000_000_000_000 <= a <= 1_000_000_000_000,
            -1_000_000_000_000 <= b <= 1_000_000_000_000,
    ;
}

impl Mat4Fx {
    /// Build a matrix from sixteen entries, row by row.
    #[allow(clippy::too_many_arguments)]
    pub fn new(
        m00: i64, m01: i64, m02: i64, m03: i64,
        m10: i64, m11: i64, m12: i64, m13: i64,
        m20: i64, m21: i64, m22: i64, m23: i64,
        m30: i64, m31: i64, m32: i64, m33: i64,
    ) -> (m: Mat4Fx)
        ensures
            m == (Mat4Fx {
                r0: Vec4Fx { x: m00, y: m01, z: m02, w: m03 },
                r1: Vec4Fx { x: m10, y: m11, z: m12, w: m13 },
                r2: Vec4Fx { x: m20, y: m21, z: m22, w: m23 },
                r3: Vec4Fx { x: m30, y: m31, z: m32, w: m33 },
            }),
    {
        Mat4Fx {
            r0: Vec4Fx { x: m00, y: m01, z: m02, w: m03 },
            r1: Vec4Fx { x: m10, y: m11, z: m12, w: m13 },
            r2: Vec4Fx { x: m20, y: m21, z: m22, w: m23 },
            r3: Vec4Fx { x: m30, y: m31, z: m32, w: m33 },
        }
    }

    /// The identity matrix.
    pub fn identity() -> (m: Mat4Fx)
        ensures
            m == (Mat4Fx {
                r0: Vec4Fx { x: SCALE, y: 0i64, z: 0i64, w: 0i64 },
                r1: Vec4Fx { x: 0i64, y: SCALE, z: 0i64, w: 0i64 },
                r2: Vec4Fx { x: 0i64, y: 0i64, z: SCALE, w: 0i64 },
                r3: Vec4Fx { x: 0i64, y: 0i64, z: 0i64, w: SCALE },
            }),
    {
        Mat4Fx {
            r0: Vec4Fx { x: SCALE, y: 0, z: 0, w: 0 },
            r1: Vec4Fx { x: 0, y: SCALE, z: 0, w: 0 },
            r2: Vec4Fx { x: 0, y: 0, z: SCALE, w: 0 },
            r3: Vec4Fx { x: 0, y: 0, z: 0, w: SCALE },
        }
    }

    /// Matrix times vector.
    pub fn mul_vec4(&self, v: &Vec4Fx) -> (r: Vec4Fx)
        requires
            mat4_bounded(*self, MAT_LIM as int),
            vec4_bounded(*v, MAT_LIM as int),
        ensures
            r == mat4_mul_vec4_spec(*self, *v),
            vec4_bounded(r, MAT_LIM as int),
    {
        Vec4Fx {
            x: row4_dot(self.r0, *v),
            y: row4_dot(self.r1, *v),
            z: row4_dot(self.r2, *v),
            w: row4_dot(self.r3, *v),
        }
    }

    /// Matrix times matrix.
    pub fn mul_mat4(&self, o: &Mat4Fx) -> (r: Mat4Fx)
        requires
            mat4_bounded(*self, MAT_LIM as int),
            mat4_bounded(*o, MAT_LIM as int),
        ensures
            r == mat4_mul_mat4_spec(*self, *o),
            mat4_bounded(r, MAT_LIM as int),
    {
        let c0 = Vec4Fx { x: o.r0.x, y: o.r1.x, z: o.r2.x, w: o.r3.x };
        let c1 = Vec4Fx { x: o.r0.y, y: o.r1.y, z: o.r2.y, w: o.r3.y };
        let c2 = Vec4Fx { x: o.r0.z, y: o.r1.z, z: o.r2.z, w: o.r3.z };
        let c3 = Vec4Fx { x: o.r0.w, y: o.r1.w, z: o.r2.w, w: o.r3.w };
        Mat4Fx {
            r0: Vec4Fx {
                x: row4_dot(self.r0, c0),
                y: row4_dot(self.r0, c1),
                z: row4_dot(self.r0, c2),
                w: row4_dot(self.r0, c3),
            },
            r1: Vec4Fx {
                x: row4_dot(self.r1, c0),
                y: row4_dot(self.r1, c1),
                z: row4_dot(self.r1, c2),
                w: row4_dot(self.r1, c3),
            },
            r2: Vec4Fx {
                x: row4_dot(self.r2, c0),
                y: row4_dot(self.r2, c1),
                z: row4_dot(self.r2, c2),
                w: row4_dot(self.r2, c3),
            },
            r3: Vec4Fx {
                x: row4_dot(self.r3, c0),
                y: row4_dot(self.r3, c1),
                z: row4_dot(self.r3, c2),
                w: row4_dot(self.r3, c3),
            },
        }
    }
}

/// A 3 by 3 fixed-point matrix, by rows.
#[derive(Clone, Copy, Debug, PartialEq, Eq, Structural)]
pub struct Mat3Fx {
    pub r0: Vec3Fx,
    pub r1: Vec3Fx,
    pub r2: Vec3Fx,
}

/// Every entry's magnitude is at most `lim`.
pub open spec fn mat3_bounded(m: Mat3Fx, lim: int) -> bool {
    &&& vec3_bounded(m.r0, lim)
    &&& vec3_bounded(m.r1, lim)
    &&& vec3_bounded(m.r2, lim)
}

/// The upper-left 3 by 3 block of a 4 by 4 matrix.
pub open spec fn mat4_to_mat3_spec(m: Mat4Fx) -> Mat3Fx {
    Mat3Fx {
        r0: Vec3Fx { x: m.r0.x, y: m.r0.y, z: m.r0.z },
        r1: Vec3Fx { x: m.r1.x, y: m.r1.y, z: m.r1.z },
        r2: Vec3Fx { x: m.r2.x, y: m.r2.y, z: m.r2.z },
    }
}

/// The upper-left 3 by 3 block of a 4 by 4 matrix.
pub fn mat4_to_mat3(m: &Mat4Fx) -> (r: Mat3Fx)
    ensures
        r == mat4_to_mat3_spec(*m),
{
    Mat3Fx {
        r0: Vec3Fx { x: m.r0.x, y: m.r0.y, z: m.r0.z },
        r1: Vec3Fx { x: m.r1.x, y: m.r1.y, z: m.r1.z },
        r2: Vec3Fx { x: m.r2.x, y: m.r2.y, z: m.r2.z },
    }
}

/// The transpose of a 3 by 3 matrix.
pub open spec fn mat3_transpose_spec(m: Mat3Fx) -> Mat3Fx {
    Mat3Fx {
        r0: Vec3Fx { x: m.r0.x, y: m.r1.x, z: m.r2.x },
        r1: Vec3Fx { x: m.r0.y, y: m.r1.y, z: m.r2.y },
        r2: Vec3Fx { x: m.r0.z, y: m.r1.z, z: m.r2.z },
    }
}

/// Matrix times vector, with the same one-division, saturating rounding
/// as the 4 by 4 product.
pub open spec fn mat3_mul_vec3_spec(m: Mat3Fx, v: Vec3Fx) -> Vec3Fx {
    Vec3Fx {
        x: row3_dot_spec(m.r0, v) as i64,
        y: row3_dot_spec(m.r1, v) as i64,
        z: row3_dot_spec(m.r2, v) as i64,
    }
}

/// The fixed-point inner product of a 3-row and a vector.
pub open spec fn row3_dot_spec(r: Vec3Fx, v: Vec3Fx) -> int {
    clamp_spec(
        tdiv(r.x * v.x + r.y * v.y + r.z * v.z, SCALE as int),
        -MAT_LIM as int,
        MAT_LIM as int,
    )
}

/// Fixed-point inner product of a 3-row and a vector.
fn row3_dot(r: Vec3Fx, v: Vec3Fx) -> (d: i64)
    requires
        vec3_bounded(r, MAT_LIM as int),
        vec3_bounded(v, MAT_LIM as int),
    ensures
        d == row3_dot_spec(r, v),
        -MAT_LIM <= d <= MAT_LIM,
{
    proof {
        lemma_bounded_prod(r.x as int, v.x as int);
        lemma_bounded_prod(r.y as int, v.y as int);
        lemma_bounded_prod(r.z as int, v.z as int);
    }
    let s: i128 = (r.x as i128) * (v.x as i128) + (r.y as i128) * (v.y as i128) + (r.z as i128) * (
    v.z as i128);
    let q: i128 = tdiv_i128(s, SCALE as i128);
    proof {
        crate::fixed::lemma_tdiv_bounds(s as int, SCALE as int);
    }
    if q < -(MAT_LIM as i128) {
        -MAT_LIM
    } else if q > MAT_LIM as i128 {
        MAT_LIM
    } else {
        q as i64
    }
}

impl Mat3Fx {
    /// The identity block.
    pub fn identity() -> (m: Mat3Fx)
        ensures
            m == (Mat3Fx {
                r0: Vec3Fx { x: SCALE, y: 0i64, z: 0i64 },
                r1: Vec3Fx { x: 0i64, y: SCALE, z: 0i64 },
                r2: Vec3Fx { x: 0i64, y: 0i64, z: SCALE },
            }),
    {
        Mat3Fx {
            r0: Vec3Fx { x: SCALE, y: 0, z: 0 },
            r1: Vec3Fx { x: 0, y: SCALE, z: 0 },
            r2: Vec3Fx { x: 0, y: 0, z: SCALE },
        }
    }

    /// The transpose.
    pub fn transpose(&self) -> (r: Mat3Fx)
        ensures
            r == mat3_transpose_spec(*self),
    {
        Mat3Fx {
            r0: Vec3Fx { x: self.r0.x, y: self.r1.x, z: self.r2.x },
            r1: Vec3Fx { x: self.r0.y, y: self.r1.y, z: self.r2.y },
            r2: Vec3Fx { x: self.r0.z, y: self.r1.z, z: self.r2.z },
        }
    }

    /// Matrix times vector.
    pub fn mul_vec3(&self, v: &Vec3Fx) -> (r: Vec3Fx)
        requires
            mat3_bounded(*self, MAT_LIM as int),
            vec3_bounded(*v, MAT_LIM as int),
        ensures
            r == mat3_mul_vec3_spec(*self, *v),
            vec3_bounded(r, MAT_LIM as int),
    {
        Vec3Fx { x: row3_dot(self.r0, *v), y: row3_dot(self.r1, *v), z: row3_dot(self.r2, *v) }
    }
}

/// A sharper bound on a row-vector product: with entries within `lr` and
/// components within `lv`, the product's magnitude is at most
/// `4 * lr * lv / SCALE`.
pub proof fn lemma_row4_dot_sharp(r: Vec4Fx, v: Vec4Fx, lr: int, lv: int)
    requires
        0 <= lr,
        0 <= lv,
        vec4_bounded(r, lr),
        vec4_bounded(v, lv),
    ensures
        -(4 * lr * lv / (SCALE as int)) <= row4_dot_spec(r, v) <= 4 * lr * lv / (SCALE as int),
{
    assert(-(lr * lv) <= r.x * v.x <= lr * lv) by (nonlinear_arith)
        requires
            -lr <= r.x <= lr,
            -lv <= v.x <= lv,
            0 <= lr,
            0 <= lv,
    ;
    assert(-(lr * lv) <= r.y * v.y <= lr * lv) by (nonlinear_arith)
        requires
            -lr <= r.y <= lr,
            -lv <= v.y <= lv,
            0 <= lr,
            0 <= lv,
    ;
    assert(-(lr * lv) <= r.z * v.z <= lr * lv) by (nonlinear_arith)
        requires
            -lr <= r.z <= lr,
            -lv <= v.z <= lv,
            0 <= lr,
            0 <= lv,
    ;
    assert(-(lr * lv) <= r.w * v.w <= lr * lv) by (nonlinear_arith)
        requires
            -lr <= r.w <= lr,
            -lv <= v.w <= lv,
            0 <= lr,
            0 <= lv,
    ;
    let s = r.x * v.x + r.y * v.y + r.z * v.z + r.w * v.w;
    assert(4 * lr * lv == 4 * (lr * lv)) by (nonlinear_arith);
    crate::fixed::lemma_tdiv_mag(s, SCALE as int, 4 * lr * lv);
}

/// Entry bound for a matrix product, from entry bounds of its factors.
pub proof fn lemma_mat4_mul_bounded(a: Mat4Fx, b: Mat4Fx, la: int, lb: int)
    requires
        0 <= la,
        0 <= lb,
        mat4_bounded(a, la),
        mat4_bounded(b, lb),
    ensures
        mat4_bounded(mat4_mul_mat4_spec(a, b), 4 * la * lb / (SCALE as int)),
{
    lemma_row4_dot_sharp(a.r0, mat4_col(b, 0), la, lb);
    lemma_row4_dot_sharp(a.r0, mat4_col(b, 1), la, lb);
    lemma_row4_dot_sharp(a.r0, mat4_col(b, 2), la, lb);
    lemma_row4_dot_sharp(a.r0, mat4_col(b, 3), la, lb);
    lemma_row4_dot_sharp(a.r1, mat4_col(b, 0), la, lb);
    lemma_row4_dot_sharp(a.r1, mat4_col(b, 1), la, lb);
    lemma_row4_dot_sharp(a.r1, mat4_col(b, 2), la, lb);
    lemma_row4_dot_sharp(a.r1, mat4_col(b, 3), la, lb);
    lemma_row4_dot_sharp(a.r2, mat4_col(b, 0), la, lb);
    lemma_row4_dot_sharp(a.r2, mat4_col(b, 1), la, lb);
    lemma_row4_dot_sharp(a.r2, mat4_col(b, 2), la, lb);
    lemma_row4_dot_sharp(a.r2, mat4_col(b, 3), la, lb);
    lemma_row4_dot_sharp(a.r3, mat4_col(b, 0), la, lb);
    lemma_row4_dot_sharp(a.r3, mat4_col(b, 1), la, lb);
    lemma_row4_dot_sharp(a.r3, mat4_col(b, 2), la, lb);
    lemma_row4_dot_sharp(a.r3, mat4_col(b, 3), la, lb);
}

/// Component bound for a matrix-vector product, from entry and component
/// bounds of its factors.
pub proof fn lemma_mat4_vec_bounded(m: Mat4Fx, v: Vec4Fx, lm: int, lv: int)
    requires
        0 <= lm,
        0 <= lv,
        mat4_bounded(m, lm),
        vec4_bounded(v, lv),
    ensures
        vec4_bounded(mat4_mul_vec4_spec(m, v), 4 * lm * lv / (SCALE as int)),
{
    lemma_row4_dot_sharp(m.r0, v, lm, lv);
    lemma_row4_dot_sharp(m.r1, v, lm, lv);
    lemma_row4_dot_sharp(m.r2, v, lm, lv);
    lemma_row4_dot_sharp(m.r3, v, lm, lv);
}

/// Largest entry magnitude accepted by the 3 by 3 inverse.
pub const INV_IN_LIM: i64 = 1_000_000_000;

/// Exact 2 by 2 minor: `ad - bc` on raw values.
pub open spec fn minor_spec(a: int, d: int, b: int, c: int) -> int {
    a * d - b * c
}

/// Exact determinant of a 3 by 3 matrix on raw values (so carrying three
/// powers of the scale): cofactor expansion along the first row. It is
/// zero exactly when the matrix is singular.
pub open spec fn mat3_det_spec(m: Mat3Fx) -> int {
    m.r0.x * minor_spec(m.r1.y as int, m.r2.z as int, m.r1.z as int, m.r2.y as int) - m.r0.y
        * minor_spec(m.r1.x as int, m.r2.z as int, m.r1.z as int, m.r2.x as int) + m.r0.z
        * minor_spec(m.r1.x as int, m.r2.y as int, m.r1.y as int, m.r2.x as int)
}

/// The fixed-point inverse of a 3 by 3 matrix — adjugate over
/// determinant, each entry saturated into `MAT_LIM` — or the identity
/// block when the fixed-point determinant vanishes.
pub open spec fn mat3_inverse_or_identity_spec(m: Mat3Fx) -> Mat3Fx {
    let det = mat3_det_spec(m);
    if det == 0 {
        Mat3Fx {
            r0: Vec3Fx { x: SCALE, y: 0i64, z: 0i64 },
            r1: Vec3Fx { x: 0i64, y: SCALE, z: 0i64 },
            r2: Vec3Fx { x: 0i64, y: 0i64, z: SCALE },
        }
    } else {
        Mat3Fx {
            r0: Vec3Fx {
                x: inv_entry_spec(
                    minor_spec(m.r1.y as int, m.r2.z as int, m.r1.z as int, m.r2.y as int),
                    det,
                ) as i64,
                y: inv_entry_spec(
                    -minor_spec(m.r0.y as int, m.r2.z as int, m.r0.z as int, m.r2.y as int),
                    det,
                ) as i64,
                z: inv_entry_spec(
                    minor_spec(m.r0.y as int, m.r1.z as int, m.r0.z as int, m.r1.y as int),
                    det,
                ) as i64,
            },
            r1: Vec3Fx {
                x: inv_entry_spec(
                    -minor_spec(m.r1.x as int, m.r2.z as int, m.r1.z as int, m.r2.x as int),
                    det,
                ) as i64,
                y: inv_entry_spec(
                    minor_spec(m.r0.x as int, m.r2.z as int, m.r0.z as int, m.r2.x as int),
                    det,
                ) as i64,
                z: inv_entry_spec(
                    -minor_spec(m.r0.x as int, m.r1.z as int, m.r0.z as int, m.r1.x as int),
                    det,
                ) as i64,
            },
            r2: Vec3Fx {
                x: inv_entry_spec(
                    minor_spec(m.r1.x as int, m.r2.y as int, m.r1.y as int, m.r2.x as int),
                    det,
                ) as i64,
                y: inv_entry_spec(
                    -minor_spec(m.r0.x as int, m.r2.y as int, m.r0.y as int, m.r2.x as int),
                    det,
                ) as i64,
                z: inv_entry_spec(
                    minor_spec(m.r0.x as int, m.r1.y as int, m.r0.y as int, m.r1.x as int),
                    det,
                ) as i64,
            },
        }
    }
}

/// One inverse entry: an adjugate cofactor (carrying two powers of the
/// scale) times the scale squared, divided by the raw determinant, and
/// saturated into `MAT_LIM`.
pub open spec fn inv_entry_spec(cof: int, det: int) -> int
    recommends
        det != 0,
{
    clamp_spec(
        crate::fixed::idiv(cof * (SCALE as int) * (SCALE as int), det),
        -MAT_LIM as int,
        MAT_LIM as int,
    )
}

/// Exact 2 by 2 minor on raw entries.
fn minor(a: i64, d: i64, b: i64, c: i64) -> (r: i128)
    requires
        -INV_IN_LIM <= a <= INV_IN_LIM,
        -INV_IN_LIM <= b <= INV_IN_LIM,
        -INV_IN_LIM <= c <= INV_IN_LIM,
        -INV_IN_LIM <= d <= INV_IN_LIM,
    ensures
        r == minor_spec(a as int, d as int, b as int, c as int),
        -2_000_000_000_000_000_000 <= r <= 2_000_000_000_000_000_000,
{
    proof {
        assert(-1_000_000_000_000_000_000 <= (a as int) * (d as int) <= 1_000_000_000_000_000_000)
            by (nonlinear_arith)
            requires
                -1_000_000_000 <= a <= 1_000_000_000,
                -1_000_000_000 <= d <= 1_000_000_000,
        ;
        assert(-1_000_000_000_000_000_000 <= (b as int) * (c as int) <= 1_000_000_000_000_000_000)
            by (nonlinear_arith)
            requires
                -1_000_000_000 <= b <= 1_000_000_000,
                -1_000_000_000 <= c <= 1_000_000_000,
        ;
    }
    (a as i128) * (d as i128) - (b as i128) * (c as i128)
}

/// One inverse entry from its cofactor and the raw determinant.
fn inv_entry(cof: i128, det: i128) -> (r: i64)
    requires
        det != 0,
        det > i128::MIN,
        -2_000_000_000_000_000_000 <= cof <= 2_000_000_000_000_000_000,
    ensures
        r == inv_entry_spec(cof as int, det as int),
        -MAT_LIM <= r <= MAT_LIM,
{
    let num: i128 = cof * ((SCALE as i128) * (SCALE as i128));
    let q: i128 = if det > 0 {
        tdiv_i128(num, det)
    } else {
        tdiv_i128(-num, -det)
    };
    proof {
        assert(num == cof * (SCALE as int) * (SCALE as int)) by (nonlinear_arith)
            requires
                num == cof * ((SCALE as int) * (SCALE as int)),
        ;
    }
    if q < -(MAT_LIM as i128) {
        -MAT_LIM
    } else if q > MAT_LIM as i128 {
        MAT_LIM
    } else {
        q as i64
    }
}

impl Mat3Fx {
    /// The fixed-point inverse, or the identity block when the exact
    /// determinant vanishes.
    pub fn inverse_or_identity(&self) -> (r: Mat3Fx)
        requires
            mat3_bounded(*self, INV_IN_LIM as int),
        ensures
            r == mat3_inverse_or_identity_spec(*self),
            mat3_bounded(r, MAT_LIM as int),
    {
        let c00: i128 = minor(self.r1.y, self.r2.z, self.r1.z, self.r2.y);
        let c01: i128 = minor(self.r1.x, self.r2.z, self.r1.z, self.r2.x);
        let c02: i128 = minor(self.r1.x, self.r2.y, self.r1.y, self.r2.x);
        proof {
            lemma_det_term_bound(self.r0.x as int, c00 as int);
            lemma_det_term_bound(self.r0.y as int, c01 as int);
            lemma_det_term_bound(self.r0.z as int, c02 as int);
        }
        let det: i128 = (self.r0.x as i128) * c00 - (self.r0.y as i128) * c01 + (self.r0.z as i128)
            * c02;
        if det == 0 {
            Mat3Fx::identity()
        } else {
            let a01: i128 = minor(self.r0.y, self.r2.z, self.r0.z, self.r2.y);
            let a02: i128 = minor(self.r0.y, self.r1.z, self.r0.z, self.r1.y);
            let a10: i128 = minor(self.r1.x, self.r2.z, self.r1.z, self.r2.x);
            let a11: i128 = minor(self.r0.x, self.r2.z, self.r0.z, self.r2.x);
            let a12: i128 = minor(self.r0.x, self.r1.z, self.r0.z, self.r1.x);
            let a20: i128 = minor(self.r1.x, self.r2.y, self.r1.y, self.r2.x);
            let a21: i128 = minor(self.r0.x, self.r2.y, self.r0.y, self.r2.x);
            let a22: i128 = minor(self.r0.x, self.r1.y, self.r0.y, self.r1.x);
            Mat3Fx {
                r0: Vec3Fx {
                    x: inv_entry(c00, det),
                    y: inv_entry(-a01, det),
                    z: inv_entry(a02, det),
                },
                r1: Vec3Fx {
                    x: inv_entry(-a10, det),
                    y: inv_entry(a11, det),
                    z: inv_entry(-a12, det),
                },
                r2: Vec3Fx {
                    x: inv_entry(a20, det),
                    y: inv_entry(-a21, det),
                    z: inv_entry(a22, det),
                },
            }
        }
    }
}

/// A determinant term — entry times minor — stays within `i128`.
proof fn lemma_det_term_bound(a: int, m: int)
    requires
        -INV_IN_LIM <= a <= INV_IN_LIM,
        -2_000_000_000_000_000_000 <= m <= 2_000_000_000_000_000_000,
    ensures
        -2_000_000_000_000_000_000_000_000_000 <= a * m <= 2_000_000_000_000_000_000_000_000_000,
{
    assert(-2_000_000_000_000_000_000_000_000_000 <= a * m
        <= 2_000_000_000_000_000_000_000_000_000) by (nonlinear_arith)
        requires
            -1_000_000_000 <= a <= 1_000_000_000,
            -2_000_000_000_000_000_000 <= m <= 2_000_000_000_000_000_000,
    ;
}

} // verus!
