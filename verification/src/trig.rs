//! Fixed-point sine and cosine.
//!
//! The circle constants are the fixed-point renderings of pi and its
//! multiples. On `[0, pi]` the sine is Bhaskara's rational approximation
//! `16 x (pi - x) / (5 pi^2 - 4 x (pi - x))`, which is exact at `0`,
//! `pi / 2` and `pi` and stays within about `0.0017` of the real sine;
//! the rest of the axis is reached by reduction modulo one turn.

use vstd::prelude::*;
use crate::fixed::{SCALE, tdiv};

verus! {

/// Pi at the fixed-point scale.
pub const PI_FX: i64 = 31416;

/// Half pi at the fixed-point scale.
pub const HALF_PI_FX: i64 = 15708;

/// One full turn (two pi) at the fixed-point scale.
pub const TAU_FX: i64 = 62832;

/// Largest argument magnitude the trig functions accept.
pub const ANGLE_LIM: i64 = 0x4000_0000_0000_0000;

/// An angle reduced into `[0, TAU_FX)`: the Euclidean remainder modulo
/// one turn.
pub open spec fn reduce_spec(t: int) -> int {
    t % (TAU_FX as int)
}

/// Bhaskara's approximation on `[0, PI_FX]`, at the fixed-point scale.
pub open spec fn bhaskara_spec(x: int) -> int {
    let u = x * ((PI_FX as int) - x);
    (16 * u * (SCALE as int)) / (5 * (PI_FX as int) * (PI_FX as int) - 4 * u)
}

/// Fixed-point sine of an angle in radians.
pub open spec fn fx_sin_spec(t: int) -> int {
    let r = reduce_spec(t);
    if r <= PI_FX as int {
        bhaskara_spec(r)
    } else {
        -bhaskara_spec(r - (PI_FX as int))
    }
}

/// Fixed-point cosine: the sine a quarter turn ahead.
pub open spec fn fx_cos_spec(t: int) -> int {
    fx_sin_spec(t + (HALF_PI_FX as int))
}

/// Reduce an angle into `[0, TAU_FX)`.
pub fn reduce_angle(t: i64) -> (r: i64)
    requires
        -ANGLE_LIM <= t <= ANGLE_LIM,
    ensures
        r == reduce_spec(t as int),
        0 <= r < TAU_FX,
{
    if t >= 0 {
        let q: u64 = (t as u64) % (TAU_FX as u64);
        q as i64
    } else {
        let m: u64 = ((-t) as u64) % (TAU_FX as u64);
        if m == 0 {
            0
        } else {
            TAU_FX - (m as i64)
        }
    }
}

/// Bhaskara's sine approximation on `[0, PI_FX]`.
pub fn bhaskara(x: i64) -> (r: i64)
    requires
        0 <= x <= PI_FX,
    ensures
        r == bhaskara_spec(x as int),
        0 <= r <= SCALE,
{
    proof {
        assert(0 <= (x as int) * ((PI_FX as int) - x) <= (HALF_PI_FX as int) * (
        HALF_PI_FX as int)) by (nonlinear_arith)
            requires
                0 <= x <= PI_FX,
                PI_FX == 2 * HALF_PI_FX,
        ;
    }
    let u: i64 = x * (PI_FX - x);
    let num: u64 = 16 * (u as u64) * (SCALE as u64);
    let den: u64 = (5 * PI_FX * PI_FX - 4 * u) as u64;
    let q: u64 = num / den;
    proof {
        assert((num as int) <= (SCALE as int) * (den as int)) by (nonlinear_arith)
            requires
                num as int == 16 * (u as int) * (SCALE as int),
                den as int == 5 * (PI_FX as int) * (PI_FX as int) - 4 * (u as int),
                0 <= u as int <= (HALF_PI_FX as int) * (HALF_PI_FX as int),
                PI_FX == 2 * HALF_PI_FX,
                SCALE == 10000,
        ;
        assert((q as int) <= SCALE as int) by (nonlinear_arith)
            requires
                q as int == (num as int) / (den as int),
                num as int <= (SCALE as int) * (den as int),
                den as int > 0,
        ;
    }
    q as i64
}

/// Fixed-point sine.
pub fn fx_sin(t: i64) -> (r: i64)
    requires
        -ANGLE_LIM <= t <= ANGLE_LIM,
    ensures
        r == fx_sin_spec(t as int),
        -SCALE <= r <= SCALE,
{
    let red: i64 = reduce_angle(t);
    if red <= PI_FX {
        bhaskara(red)
    } else {
        -bhaskara(red - PI_FX)
    }
}

/// Fixed-point cosine.
pub fn fx_cos(t: i64) -> (r: i64)
    requires
        -ANGLE_LIM <= t <= ANGLE_LIM - HALF_PI_FX,
    ensures
        r == fx_cos_spec(t as int),
        -SCALE <= r <= SCALE,
{
    fx_sin(t + HALF_PI_FX)
}

} // verus!
