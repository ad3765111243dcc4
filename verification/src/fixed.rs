//! Fixed-point scalar arithmetic.
//!
//! Every quantity of the pipeline is a signed 64-bit integer holding the
//! underlying real value times `SCALE`. The decimal scale keeps every
//! constant of the shading and rasterization rules exact.

use vstd::prelude::*;

verus! {

/// Number of raw units per whole unit.
pub const SCALE: i64 = 10000;

/// Half of one whole unit, the offset from a pixel corner to its center.
pub const HALF: i64 = 5000;

/// Largest magnitude accepted by `fx_mul`; the product of two such
/// magnitudes still fits in `i64`.
pub const MUL_LIM: i64 = 3_000_000_000;

/// Largest magnitude `fx_mul` can return: `MUL_LIM` squared over `SCALE`.
pub const FX_PROD_LIM: i64 = 900_000_000_000_000;

/// Truncating division (rounding toward zero), the rounding that every
/// fixed-point operation of the pipeline uses. Defined only for `b > 0`.
pub open spec fn tdiv(a: int, b: int) -> int
    recommends
        b > 0,
{
    if a >= 0 {
        a / b
    } else {
        -((-a) / b)
    }
}

/// Product of two fixed-point numbers, `tdiv(a * b, SCALE)`.
pub open spec fn fx_mul_spec(a: int, b: int) -> int {
    tdiv(a * b, SCALE as int)
}

/// Quotient of two fixed-point numbers, `tdiv(a * SCALE, b)`.
pub open spec fn fx_div_spec(a: int, b: int) -> int
    recommends
        b != 0,
{
    if b > 0 {
        tdiv(a * (SCALE as int), b)
    } else {
        tdiv(-(a * (SCALE as int)), -b)
    }
}

/// Clamping an integer into `[lo, hi]`.
pub open spec fn clamp_spec(x: int, lo: int, hi: int) -> int
    recommends
        lo <= hi,
{
    if x < lo {
        lo
    } else if x > hi {
        hi
    } else {
        x
    }
}

/// Truncating division on `i128`, sign handled through unsigned division.
pub fn tdiv_i128(a: i128, b: i128) -> (r: i128)
    requires
        b > 0,
        a > i128::MIN,
    ensures
        r == tdiv(a as int, b as int),
        a >= 0 ==> 0 <= r <= a,
        a < 0 ==> a <= r <= 0,
{
    if a >= 0 {
        let q: u128 = (a as u128) / (b as u128);
        assert(q <= a as u128) by {
            assert((a as u128) / (b as u128) <= a as u128) by (nonlinear_arith)
                requires
                    b as u128 >= 1,
            ;
        };
        q as i128
    } else {
        let m: u128 = ((-a) as u128);
        let q: u128 = m / (b as u128);
        assert(q <= m) by {
            assert(m / (b as u128) <= m) by (nonlinear_arith)
                requires
                    b as u128 >= 1,
            ;
        };
        -(q as i128)
    }
}

/// Fixed-point multiply; exact per `fx_mul_spec`.
pub fn fx_mul(a: i64, b: i64) -> (r: i64)
    requires
        -MUL_LIM <= a <= MUL_LIM,
        -MUL_LIM <= b <= MUL_LIM,
    ensures
        r == fx_mul_spec(a as int, b as int),
        -FX_PROD_LIM <= r <= FX_PROD_LIM,
{
    proof {
        assert(-(MUL_LIM as int) * (MUL_LIM as int) <= (a as int) * (b as int) <= (
        MUL_LIM as int) * (MUL_LIM as int)) by (nonlinear_arith)
            requires
                -MUL_LIM <= a <= MUL_LIM,
                -MUL_LIM <= b <= MUL_LIM,
        ;
    }
    let p: i128 = (a as i128) * (b as i128);
    let q: i128 = tdiv_i128(p, SCALE as i128);
    proof {
        lemma_tdiv_bounds(p as int, SCALE as int);
    }
    q as i64
}

/// Fixed-point divide; exact per `fx_div_spec`. The result is clamped to
/// `[-lim, lim]`, which keeps later stages inside `i64` even when the
/// divisor is tiny.
pub fn fx_div_clamped(a: i64, b: i64, lim: i64) -> (r: i64)
    requires
        b != 0,
        lim > 0,
    ensures
        r == clamp_spec(fx_div_spec(a as int, b as int), -lim as int, lim as int),
{
    proof {
        assert((i64::MIN as int) * (SCALE as int) <= (a as int) * (SCALE as int) <= (
        i64::MAX as int) * (SCALE as int)) by (nonlinear_arith)
            requires
                i64::MIN <= a <= i64::MAX,
                SCALE == 10000,
        ;
    }
    let an: i128 = (a as i128) * (SCALE as i128);
    let (num, den): (i128, i128) = if b > 0 {
        (an, b as i128)
    } else {
        (-an, -(b as i128))
    };
    let q: i128 = tdiv_i128(num, den);
    if q < -(lim as i128) {
        -lim
    } else if q > lim as i128 {
        lim
    } else {
        q as i64
    }
}

/// Magnitude of the truncated quotient never exceeds the dividend's.
pub proof fn lemma_tdiv_bounds(a: int, b: int)
    requires
        b >= 1,
    ensures
        a >= 0 ==> 0 <= tdiv(a, b) <= a,
        a < 0 ==> a <= tdiv(a, b) <= 0,
{
    if a >= 0 {
        assert(0 <= a / b <= a) by (nonlinear_arith)
            requires
                b >= 1,
                a >= 0,
        ;
    } else {
        assert(0 <= (-a) / b <= -a) by (nonlinear_arith)
            requires
                b >= 1,
                a < 0,
        ;
    }
}

/// Sign-aware truncating division.
pub open spec fn idiv(a: int, b: int) -> int
    recommends
        b != 0,
{
    if b > 0 {
        tdiv(a, b)
    } else {
        tdiv(-a, -b)
    }
}

/// The magnitude of a truncated quotient is at most the quotient of the
/// magnitudes.
pub proof fn lemma_tdiv_mag(a: int, b: int, m: int)
    requires
        b >= 1,
        m >= 0,
        -m <= a <= m,
    ensures
        -(m / b) <= tdiv(a, b) <= m / b,
{
    if a >= 0 {
        assert(0 <= a / b <= m / b) by (nonlinear_arith)
            requires
                b >= 1,
                0 <= a <= m,
        ;
    } else {
        assert(0 <= (-a) / b <= m / b) by (nonlinear_arith)
            requires
                b >= 1,
                a < 0,
                -a <= m,
        ;
    }
}

/// Clamp a value into `[lo, hi]`.
pub fn clamp_i64(x: i64, lo: i64, hi: i64) -> (r: i64)
    requires
        lo <= hi,
    ensures
        r == clamp_spec(x as int, lo as int, hi as int),
{
    if x < lo {
        lo
    } else if x > hi {
        hi
    } else {
        x
    }
}

/// `r` squared is at most `x`, and `r + 1` squared exceeds it.
pub open spec fn is_sqrt_floor(x: nat, r: nat) -> bool {
    r * r <= x && x < (r + 1) * (r + 1)
}

/// The floor of the square root of a natural number.
pub open spec fn sqrt_floor(x: nat) -> nat {
    choose|r: nat| is_sqrt_floor(x, r)
}

/// `r` is the floor square root of `x` exactly when `r * r <= x < (r+1)^2`;
/// such an `r` exists and is unique, so `sqrt_floor` picks it.
pub proof fn lemma_sqrt_floor_unique(x: nat, r: nat)
    requires
        r * r <= x,
        x < (r + 1) * (r + 1),
    ensures
        sqrt_floor(x) == r,
{
    assert(is_sqrt_floor(x, r));
    let q = sqrt_floor(x);
    assert(is_sqrt_floor(x, q));
    if q < r {
        assert((q + 1) * (q + 1) <= r * r) by (nonlinear_arith)
            requires
                q < r,
        ;
    } else if r < q {
        assert((r + 1) * (r + 1) <= q * q) by (nonlinear_arith)
            requires
                r < q,
        ;
    }
}

/// One past the largest argument `isqrt_u128` accepts: 2 to the 126th.
pub const SQRT_ARG_LIM: u128 = 0x40000000000000000000000000000000;

/// 2 to the 63rd, an upper bound for the floor square root of any
/// accepted argument.
pub const SQRT_RES_LIM: u128 = 0x8000000000000000;

/// Floor square root by binary search.
pub fn isqrt_u128(x: u128) -> (r: u128)
    requires
        x < SQRT_ARG_LIM,
    ensures
        r * r <= x < (r + 1) * (r + 1),
        r == sqrt_floor(x as nat),
{
    let mut lo: u128 = 0;
    let mut hi: u128 = if x < SQRT_RES_LIM {
        x + 1
    } else {
        SQRT_RES_LIM
    };
    proof {
        if x < SQRT_RES_LIM {
            assert(x < hi * hi) by (nonlinear_arith)
                requires
                    hi == x as int + 1,
            ;
        } else {
            assert(x < hi * hi) by (nonlinear_arith)
                requires
                    hi == SQRT_RES_LIM as int,
                    SQRT_RES_LIM as int * (SQRT_RES_LIM as int) == SQRT_ARG_LIM as int,
                    x < SQRT_ARG_LIM,
            ;
        }
    }
    while lo + 1 < hi
        invariant
            lo < hi,
            hi <= SQRT_RES_LIM,
            lo * lo <= x,
            x < hi * hi,
        decreases hi - lo,
    {
        let mid: u128 = lo + (hi - lo) / 2;
        proof {
            assert(mid * mid < SQRT_ARG_LIM) by (nonlinear_arith)
                requires
                    mid < SQRT_RES_LIM,
                    SQRT_RES_LIM as int * (SQRT_RES_LIM as int) == SQRT_ARG_LIM as int,
            ;
        }
        if mid * mid <= x {
            lo = mid;
        } else {
            hi = mid;
        }
    }
    proof {
        lemma_sqrt_floor_unique(x as nat, lo as nat);
    }
    lo
}

/// Square root of a fixed-point number: `sqrt_floor(a * SCALE)` is again a
/// fixed-point value of the same scale.
pub open spec fn fx_sqrt_spec(a: int) -> int
    recommends
        a >= 0,
{
    sqrt_floor((a * (SCALE as int)) as nat) as int
}

/// Fixed-point square root.
pub fn fx_sqrt(a: i64) -> (r: i64)
    requires
        0 <= a,
    ensures
        r == fx_sqrt_spec(a as int),
        0 <= r,
        r * r <= a * (SCALE as int) < (r + 1) * (r + 1),
{
    proof {
        assert((a as u128) * (SCALE as u128) < SQRT_ARG_LIM) by (nonlinear_arith)
            requires
                a as u128 <= i64::MAX as u128,
                SCALE as u128 == 10000,
        ;
    }
    let prod: u128 = (a as u128) * (SCALE as u128);
    let r: u128 = isqrt_u128(prod);
    proof {
        assert(r <= i64::MAX as u128) by (nonlinear_arith)
            requires
                r * r <= prod,
                prod == (a as u128) * (SCALE as u128),
                a as u128 <= i64::MAX as u128,
                SCALE == 10000,
        ;
        assert(prod as nat == ((a as int) * (SCALE as int)) as nat);
        lemma_sqrt_floor_unique(prod as nat, r as nat);
    }
    r as i64
}

} // verus!
