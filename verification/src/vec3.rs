//! Fixed-point 3-component vectors.

use vstd::prelude::*;
use crate::fixed::{
    SCALE,
    MUL_LIM,
    FX_PROD_LIM,
    tdiv,
    fx_mul_spec,
    fx_div_spec,
    clamp_spec,
    fx_sqrt_spec,
    fx_mul,
    fx_div_clamped,
    fx_sqrt,
    clamp_i64,
};

verus! {

/// A vector of three fixed-point components.
#[derive(Clone, Copy, Debug, PartialEq, Eq, Structural)]
pub struct Vec3Fx {
    pub x: i64,
    pub y: i64,
    pub z: i64,
}

/// Every component's magnitude is at most `lim`.
pub open spec fn vec3_bounded(v: Vec3Fx, lim: int) -> bool {
    &&& -lim <= v.x <= lim
    &&& -lim <= v.y <= lim
    &&& -lim <= v.z <= lim
}

/// Componentwise sum.
pub open spec fn vec3_plus_spec(a: Vec3Fx, b: Vec3Fx) -> Vec3Fx {
    Vec3Fx { x: (a.x + b.x) as i64, y: (a.y + b.y) as i64, z: (a.z + b.z) as i64 }
}

/// Componentwise difference.
pub open spec fn vec3_minus_spec(a: Vec3Fx, b: Vec3Fx) -> Vec3Fx {
    Vec3Fx { x: (a.x - b.x) as i64, y: (a.y - b.y) as i64, z: (a.z - b.z) as i64 }
}

/// The vector scaled by a fixed-point factor.
pub open spec fn vec3_scale_spec(v: Vec3Fx, s: int) -> Vec3Fx {
    Vec3Fx {
        x: fx_mul_spec(v.x as int, s) as i64,
        y: fx_mul_spec(v.y as int, s) as i64,
        z: fx_mul_spec(v.z as int, s) as i64,
    }
}

/// Fixed-point dot product.
pub open spec fn vec3_dot_spec(a: Vec3Fx, b: Vec3Fx) -> int {
    fx_mul_spec(a.x as int, b.x as int) + fx_mul_spec(a.y as int, b.y as int) + fx_mul_spec(
        a.z as int,
        b.z as int,
    )
}

/// Fixed-point Euclidean norm: the square root of the dot product of the
/// vector with itself.
pub open spec fn vec3_norm_spec(v: Vec3Fx) -> int {
    fx_sqrt_spec(vec3_dot_spec(v, v))
}

/// The unit vector in `v`'s direction, each component clamped into one
/// whole unit; the zero vector stays the zero vector.
pub open spec fn vec3_normalize_spec(v: Vec3Fx) -> Vec3Fx {
    let n = vec3_norm_spec(v);
    if n == 0 {
        Vec3Fx { x: 0, y: 0, z: 0 }
    } else {
        Vec3Fx {
            x: clamp_spec(fx_div_spec(v.x as int, n), -SCALE as int, SCALE as int) as i64,
            y: clamp_spec(fx_div_spec(v.y as int, n), -SCALE as int, SCALE as int) as i64,
            z: clamp_spec(fx_div_spec(v.z as int, n), -SCALE as int, SCALE as int) as i64,
        }
    }
}

impl Vec3Fx {
    /// Build a vector from its components.
    pub fn new(x: i64, y: i64, z: i64) -> (v: Vec3Fx)
        ensures
            v == (Vec3Fx { x, y, z }),
    {
        Vec3Fx { x, y, z }
    }

    /// The zero vector.
    pub fn zeros() -> (v: Vec3Fx)
        ensures
            v == (Vec3Fx { x: 0i64, y: 0i64, z: 0i64 }),
    {
        Vec3Fx { x: 0, y: 0, z: 0 }
    }

    /// Componentwise sum.
    pub fn plus(self, o: Vec3Fx) -> (v: Vec3Fx)
        requires
            vec3_bounded(self, MUL_LIM as int),
            vec3_bounded(o, MUL_LIM as int),
        ensures
            v == vec3_plus_spec(self, o),
            vec3_bounded(v, 2 * MUL_LIM as int),
    {
        Vec3Fx { x: self.x + o.x, y: self.y + o.y, z: self.z + o.z }
    }

    /// Componentwise difference.
    pub fn minus(self, o: Vec3Fx) -> (v: Vec3Fx)
        requires
            vec3_bounded(self, MUL_LIM as int),
            vec3_bounded(o, MUL_LIM as int),
        ensures
            v == vec3_minus_spec(self, o),
            vec3_bounded(v, 2 * MUL_LIM as int),
    {
        Vec3Fx { x: self.x - o.x, y: self.y - o.y, z: self.z - o.z }
    }

    /// The vector scaled by a fixed-point factor.
    pub fn scale_by(self, s: i64) -> (v: Vec3Fx)
        requires
            vec3_bounded(self, MUL_LIM as int),
            -MUL_LIM <= s <= MUL_LIM,
        ensures
            v == vec3_scale_spec(self, s as int),
            vec3_bounded(v, FX_PROD_LIM as int),
    {
        Vec3Fx { x: fx_mul(self.x, s), y: fx_mul(self.y, s), z: fx_mul(self.z, s) }
    }

    /// Fixed-point dot product.
    pub fn dot(self, o: Vec3Fx) -> (r: i64)
        requires
            vec3_bounded(self, MUL_LIM as int),
            vec3_bounded(o, MUL_LIM as int),
        ensures
            r == vec3_dot_spec(self, o),
            -3 * FX_PROD_LIM as int <= r <= 3 * FX_PROD_LIM as int,
    {
        fx_mul(self.x, o.x) + fx_mul(self.y, o.y) + fx_mul(self.z, o.z)
    }

    /// Fixed-point Euclidean norm.
    pub fn norm(self) -> (r: i64)
        requires
            vec3_bounded(self, MUL_LIM as int),
        ensures
            r == vec3_norm_spec(self),
            r >= 0,
    {
        let d: i64 = self.dot(self);
        proof {
            lemma_self_dot_nonneg(self);
        }
        fx_sqrt(d)
    }

    /// The unit vector in `self`'s direction; the zero vector if the norm
    /// rounds to zero.
    pub fn normalize_or_zero(self) -> (v: Vec3Fx)
        requires
            vec3_bounded(self, MUL_LIM as int),
        ensures
            v == vec3_normalize_spec(self),
            vec3_bounded(v, SCALE as int),
    {
        let n: i64 = self.norm();
        if n == 0 {
            Vec3Fx { x: 0, y: 0, z: 0 }
        } else {
            Vec3Fx {
                x: fx_div_clamped(self.x, n, SCALE),
                y: fx_div_clamped(self.y, n, SCALE),
                z: fx_div_clamped(self.z, n, SCALE),
            }
        }
    }
}

/// Fixed-point cross product.
pub open spec fn vec3_cross_spec(a: Vec3Fx, b: Vec3Fx) -> Vec3Fx {
    Vec3Fx {
        x: (fx_mul_spec(a.y as int, b.z as int) - fx_mul_spec(a.z as int, b.y as int)) as i64,
        y: (fx_mul_spec(a.z as int, b.x as int) - fx_mul_spec(a.x as int, b.z as int)) as i64,
        z: (fx_mul_spec(a.x as int, b.y as int) - fx_mul_spec(a.y as int, b.x as int)) as i64,
    }
}

/// The vector with every component clamped into `[-lim, lim]`.
pub open spec fn vec3_clamp_spec(v: Vec3Fx, lim: int) -> Vec3Fx {
    Vec3Fx {
        x: clamp_spec(v.x as int, -lim, lim) as i64,
        y: clamp_spec(v.y as int, -lim, lim) as i64,
        z: clamp_spec(v.z as int, -lim, lim) as i64,
    }
}

impl Vec3Fx {
    /// Fixed-point cross product.
    pub fn cross(self, o: Vec3Fx) -> (v: Vec3Fx)
        requires
            vec3_bounded(self, MUL_LIM as int),
            vec3_bounded(o, MUL_LIM as int),
        ensures
            v == vec3_cross_spec(self, o),
            vec3_bounded(v, 2 * FX_PROD_LIM as int),
    {
        Vec3Fx {
            x: fx_mul(self.y, o.z) - fx_mul(self.z, o.y),
            y: fx_mul(self.z, o.x) - fx_mul(self.x, o.z),
            z: fx_mul(self.x, o.y) - fx_mul(self.y, o.x),
        }
    }

    /// Clamp every component into `[-lim, lim]`.
    pub fn clamp_to(self, lim: i64) -> (v: Vec3Fx)
        requires
            0 < lim,
        ensures
            v == vec3_clamp_spec(self, lim as int),
            vec3_bounded(v, lim as int),
    {
        Vec3Fx {
            x: clamp_i64(self.x, -lim, lim),
            y: clamp_i64(self.y, -lim, lim),
            z: clamp_i64(self.z, -lim, lim),
        }
    }
}

/// A sharper dot-product bound: with components within `la` and `lb`,
/// the dot product's magnitude is at most three times their fixed-point
/// product.
pub proof fn lemma_dot_sharp(a: Vec3Fx, b: Vec3Fx, la: int, lb: int)
    requires
        0 <= la,
        0 <= lb,
        vec3_bounded(a, la),
        vec3_bounded(b, lb),
    ensures
        -(3 * ((la * lb) / (SCALE as int))) <= vec3_dot_spec(a, b) <= 3 * ((la * lb) / (
        SCALE as int)),
{
    lemma_prod_term_sharp(a.x as int, b.x as int, la, lb);
    lemma_prod_term_sharp(a.y as int, b.y as int, la, lb);
    lemma_prod_term_sharp(a.z as int, b.z as int, la, lb);
}

/// A sharper cross-product bound: each component's magnitude is at most
/// twice the fixed-point product of the bounds.
pub proof fn lemma_cross_sharp(a: Vec3Fx, b: Vec3Fx, la: int, lb: int)
    requires
        0 <= la,
        0 <= lb,
        vec3_bounded(a, la),
        vec3_bounded(b, lb),
    ensures
        vec3_bounded(vec3_cross_spec(a, b), 2 * ((la * lb) / (SCALE as int))),
{
    lemma_prod_term_sharp(a.y as int, b.z as int, la, lb);
    lemma_prod_term_sharp(a.z as int, b.y as int, la, lb);
    lemma_prod_term_sharp(a.z as int, b.x as int, la, lb);
    lemma_prod_term_sharp(a.x as int, b.z as int, la, lb);
    lemma_prod_term_sharp(a.x as int, b.y as int, la, lb);
    lemma_prod_term_sharp(a.y as int, b.x as int, la, lb);
}

/// One fixed-point product under component bounds.
proof fn lemma_prod_term_sharp(x: int, y: int, lx: int, ly: int)
    requires
        0 <= lx,
        0 <= ly,
        -lx <= x <= lx,
        -ly <= y <= ly,
    ensures
        -((lx * ly) / (SCALE as int)) <= fx_mul_spec(x, y) <= (lx * ly) / (SCALE as int),
{
    assert(-(lx * ly) <= x * y <= lx * ly) by (nonlinear_arith)
        requires
            -lx <= x <= lx,
            -ly <= y <= ly,
            0 <= lx,
            0 <= ly,
    ;
    crate::fixed::lemma_tdiv_mag(x * y, SCALE as int, lx * ly);
}

/// The fixed-point dot product of a vector with itself is non-negative:
/// each of its three terms is a square divided by the positive scale.
pub proof fn lemma_self_dot_nonneg(v: Vec3Fx)
    ensures
        vec3_dot_spec(v, v) >= 0,
{
    lemma_self_prod_nonneg(v.x as int);
    lemma_self_prod_nonneg(v.y as int);
    lemma_self_prod_nonneg(v.z as int);
}

/// A fixed-point square is non-negative.
proof fn lemma_self_prod_nonneg(a: int)
    ensures
        fx_mul_spec(a, a) >= 0,
{
    assert(a * a >= 0) by (nonlinear_arith);
    assert(tdiv(a * a, SCALE as int) >= 0) by (nonlinear_arith)
        requires
            a * a >= 0,
            SCALE == 10000,
    ;
}

} // verus!
