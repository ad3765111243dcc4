//! Triangle rasterization with exact barycentric coordinates.
//!
//! Barycentric weights for a pixel center are kept as the exact integer
//! pair (numerator, shared denominator): the denominator is the doubled
//! signed area of the triangle's screen projection, and a weight `w_i` is
//! the rational `n_i / den`. A triangle whose doubled signed area is zero
//! is degenerate and yields no fragments. Attribute interpolation divides
//! the exact weighted sum once, so each interpolated value is the real
//! affine combination rounded toward zero.

use vstd::prelude::*;
use crate::fixed::{SCALE, HALF, tdiv, idiv, tdiv_i128};
use crate::vec3::{Vec3Fx, vec3_bounded, vec3_dot_spec, vec3_normalize_spec};
use crate::vertex::Vertex;
use crate::fragment::Fragment;
use crate::color::Color;

verus! {

/// Largest screen-coordinate magnitude the rasterizer accepts.
pub const COORD_LIM: i64 = 1_000_000_000;

/// Largest pixel index that a bounding box over accepted coordinates can
/// reach: `COORD_LIM / SCALE`.
pub const PIX_LIM: i64 = 100_000;

/// Largest magnitude the rasterizer accepts for interpolated vertex
/// attributes (normals and object-space positions).
pub const ATTR_LIM: i64 = 1_000_000_000;

/// The fixed light direction of the diffuse term: straight along +Z.
pub const LIGHT_Z: i64 = 10000;

/// The fixed-point coordinate of a pixel's center.
pub open spec fn pixel_center(i: int) -> int {
    i * (SCALE as int) + (HALF as int)
}

/// Doubled signed area of the screen triangle: the cross product of the
/// edges from `a` to `b` and from `a` to `c`.
pub open spec fn bary_den(a: Vec3Fx, b: Vec3Fx, c: Vec3Fx) -> int {
    (b.x - a.x) * (c.y - a.y) - (b.y - a.y) * (c.x - a.x)
}

/// Numerator of the second barycentric weight at point `(px, py)`.
pub open spec fn bary_n2(a: Vec3Fx, b: Vec3Fx, c: Vec3Fx, px: int, py: int) -> int {
    (px - a.x) * (c.y - a.y) - (py - a.y) * (c.x - a.x)
}

/// Numerator of the third barycentric weight at point `(px, py)`.
pub open spec fn bary_n3(a: Vec3Fx, b: Vec3Fx, c: Vec3Fx, px: int, py: int) -> int {
    (b.x - a.x) * (py - a.y) - (b.y - a.y) * (px - a.x)
}

/// Numerator of the first barycentric weight: the three numerators sum to
/// the denominator, so the three weights sum to exactly one.
pub open spec fn bary_n1(a: Vec3Fx, b: Vec3Fx, c: Vec3Fx, px: int, py: int) -> int {
    bary_den(a, b, c) - bary_n2(a, b, c, px, py) - bary_n3(a, b, c, px, py)
}

/// The rational weight `n / den` lies in `[0, 1]`.
pub open spec fn weight_in_range(n: int, den: int) -> bool {
    if den >= 0 {
        0 <= n <= den
    } else {
        den <= n <= 0
    }
}

/// The rational weight `n / den` lies strictly inside `(0, 1)`.
pub open spec fn weight_strict(n: int, den: int) -> bool {
    if den >= 0 {
        0 < n < den
    } else {
        den < n < 0
    }
}

/// The rasterizer keeps the pixel at `(x, y)`: the triangle is not
/// degenerate and all three weights of the pixel's center lie in `[0, 1]`
/// (their sum is one by construction).
pub open spec fn pixel_accepted(a: Vec3Fx, b: Vec3Fx, c: Vec3Fx, x: int, y: int) -> bool {
    let px = pixel_center(x);
    let py = pixel_center(y);
    let den = bary_den(a, b, c);
    &&& den != 0
    &&& weight_in_range(bary_n1(a, b, c, px, py), den)
    &&& weight_in_range(bary_n2(a, b, c, px, py), den)
    &&& weight_in_range(bary_n3(a, b, c, px, py), den)
}

/// The pixel center at `(x, y)` lies strictly inside the triangle.
pub open spec fn pixel_strictly_inside(a: Vec3Fx, b: Vec3Fx, c: Vec3Fx, x: int, y: int) -> bool {
    let px = pixel_center(x);
    let py = pixel_center(y);
    let den = bary_den(a, b, c);
    &&& den != 0
    &&& weight_strict(bary_n1(a, b, c, px, py), den)
    &&& weight_strict(bary_n2(a, b, c, px, py), den)
    &&& weight_strict(bary_n3(a, b, c, px, py), den)
}

/// The affine combination of three attribute values under the rational
/// weights `n_i / den`, rounded toward zero.
pub open spec fn interp3_spec(
    n1: int,
    n2: int,
    n3: int,
    den: int,
    z1: int,
    z2: int,
    z3: int,
) -> int {
    idiv(n1 * z1 + n2 * z2 + n3 * z3, den)
}

/// The smaller of two integers.
pub open spec fn min2(a: int, b: int) -> int {
    if a <= b {
        a
    } else {
        b
    }
}

/// The larger of two integers.
pub open spec fn max2(a: int, b: int) -> int {
    if a >= b {
        a
    } else {
        b
    }
}

/// First pixel column of the bounding box: the floor of the smallest
/// screen x, in whole pixels.
pub open spec fn bbox_min_x(a: Vec3Fx, b: Vec3Fx, c: Vec3Fx) -> int {
    min2(min2(a.x as int, b.x as int), c.x as int) / (SCALE as int)
}

/// First pixel row of the bounding box.
pub open spec fn bbox_min_y(a: Vec3Fx, b: Vec3Fx, c: Vec3Fx) -> int {
    min2(min2(a.y as int, b.y as int), c.y as int) / (SCALE as int)
}

/// Last pixel column of the bounding box: the ceiling of the largest
/// screen x, in whole pixels.
pub open spec fn bbox_max_x(a: Vec3Fx, b: Vec3Fx, c: Vec3Fx) -> int {
    -((-max2(max2(a.x as int, b.x as int), c.x as int)) / (SCALE as int))
}

/// Last pixel row of the bounding box.
pub open spec fn bbox_max_y(a: Vec3Fx, b: Vec3Fx, c: Vec3Fx) -> int {
    -((-max2(max2(a.y as int, b.y as int), c.y as int)) / (SCALE as int))
}

/// `(x, y)` lies in the triangle's pixel bounding box.
pub open spec fn bbox_contains(a: Vec3Fx, b: Vec3Fx, c: Vec3Fx, x: int, y: int) -> bool {
    &&& bbox_min_x(a, b, c) <= x <= bbox_max_x(a, b, c)
    &&& bbox_min_y(a, b, c) <= y <= bbox_max_y(a, b, c)
}

/// The three vertices are ready for rasterization: screen positions and
/// interpolated attributes within the accepted ranges.
pub open spec fn raster_inputs_ok(v1: Vertex, v2: Vertex, v3: Vertex) -> bool {
    &&& vec3_bounded(v1.transformed_position, COORD_LIM as int)
    &&& vec3_bounded(v2.transformed_position, COORD_LIM as int)
    &&& vec3_bounded(v3.transformed_position, COORD_LIM as int)
    &&& vec3_bounded(v1.transformed_normal, ATTR_LIM as int)
    &&& vec3_bounded(v2.transformed_normal, ATTR_LIM as int)
    &&& vec3_bounded(v3.transformed_normal, ATTR_LIM as int)
    &&& vec3_bounded(v1.position, ATTR_LIM as int)
    &&& vec3_bounded(v2.position, ATTR_LIM as int)
    &&& vec3_bounded(v3.position, ATTR_LIM as int)
}

/// The fragment the rasterizer emits for the pixel `(x, y)`: depth, normal
/// and object-space position interpolated under the pixel's barycentric
/// weights, the normal renormalized, the diffuse intensity clamped at
/// zero, and a placeholder white color.
pub open spec fn frag_at(v1: Vertex, v2: Vertex, v3: Vertex, x: int, y: int) -> Fragment {
    let a = v1.transformed_position;
    let b = v2.transformed_position;
    let c = v3.transformed_position;
    let px = pixel_center(x);
    let py = pixel_center(y);
    let den = bary_den(a, b, c);
    let n1 = bary_n1(a, b, c, px, py);
    let n2 = bary_n2(a, b, c, px, py);
    let n3 = bary_n3(a, b, c, px, py);
    let depth = interp3_spec(n1, n2, n3, den, a.z as int, b.z as int, c.z as int);
    let raw_normal = Vec3Fx {
        x: interp3_spec(
            n1,
            n2,
            n3,
            den,
            v1.transformed_normal.x as int,
            v2.transformed_normal.x as int,
            v3.transformed_normal.x as int,
        ) as i64,
        y: interp3_spec(
            n1,
            n2,
            n3,
            den,
            v1.transformed_normal.y as int,
            v2.transformed_normal.y as int,
            v3.transformed_normal.y as int,
        ) as i64,
        z: interp3_spec(
            n1,
            n2,
            n3,
            den,
            v1.transformed_normal.z as int,
            v2.transformed_normal.z as int,
            v3.transformed_normal.z as int,
        ) as i64,
    };
    let normal = vec3_normalize_spec(raw_normal);
    let vertex_position = Vec3Fx {
        x: interp3_spec(
            n1,
            n2,
            n3,
            den,
            v1.position.x as int,
            v2.position.x as int,
            v3.position.x as int,
        ) as i64,
        y: interp3_spec(
            n1,
            n2,
            n3,
            den,
            v1.position.y as int,
            v2.position.y as int,
            v3.position.y as int,
        ) as i64,
        z: interp3_spec(
            n1,
            n2,
            n3,
            den,
            v1.position.z as int,
            v2.position.z as int,
            v3.position.z as int,
        ) as i64,
    };
    let light = Vec3Fx { x: 0i64, y: 0i64, z: LIGHT_Z };
    let d = vec3_dot_spec(normal, light);
    let intensity = max2(0, d);
    Fragment {
        x: x as i64,
        y: y as i64,
        depth: depth as i64,
        color: Color { r: 255u8, g: 255u8, b: 255u8 },
        normal,
        vertex_position,
        intensity: intensity as i64,
    }
}

/// A fragment of `triangle`'s output: it sits in the bounding box, its
/// pixel was accepted, and it carries exactly the interpolated values of
/// its pixel.
pub open spec fn frag_props(v1: Vertex, v2: Vertex, v3: Vertex, f: Fragment) -> bool {
    let a = v1.transformed_position;
    let b = v2.transformed_position;
    let c = v3.transformed_position;
    &&& bbox_contains(a, b, c, f.x as int, f.y as int)
    &&& pixel_accepted(a, b, c, f.x as int, f.y as int)
    &&& f == frag_at(v1, v2, v3, f.x as int, f.y as int)
}

/// Two-dimensional cross product of `(ax, ay)` and `(bx, by)`.
fn cross2(ax: i128, ay: i128, bx: i128, by: i128) -> (r: i128)
    requires
        -3 * (COORD_LIM as int) <= ax <= 3 * (COORD_LIM as int),
        -3 * (COORD_LIM as int) <= ay <= 3 * (COORD_LIM as int),
        -3 * (COORD_LIM as int) <= bx <= 3 * (COORD_LIM as int),
        -3 * (COORD_LIM as int) <= by <= 3 * (COORD_LIM as int),
    ensures
        r == ax * by - ay * bx,
        -18 * (COORD_LIM as int) * (COORD_LIM as int) <= r <= 18 * (COORD_LIM as int) * (
        COORD_LIM as int),
{
    proof {
        assert(-9 * (COORD_LIM as int) * (COORD_LIM as int) <= ax * by <= 9 * (COORD_LIM as int) * (
        COORD_LIM as int)) by (nonlinear_arith)
            requires
                -3 * (COORD_LIM as int) <= ax <= 3 * (COORD_LIM as int),
                -3 * (COORD_LIM as int) <= by <= 3 * (COORD_LIM as int),
        ;
        assert(-9 * (COORD_LIM as int) * (COORD_LIM as int) <= ay * bx <= 9 * (COORD_LIM as int) * (
        COORD_LIM as int)) by (nonlinear_arith)
            requires
                -3 * (COORD_LIM as int) <= ay <= 3 * (COORD_LIM as int),
                -3 * (COORD_LIM as int) <= bx <= 3 * (COORD_LIM as int),
        ;
    }
    ax * by - ay * bx
}

/// Floor of `a / SCALE`.
fn floor_div_scale(a: i64) -> (r: i64)
    requires
        -COORD_LIM <= a <= COORD_LIM,
    ensures
        r == a as int / (SCALE as int),
        -PIX_LIM <= r <= PIX_LIM,
{
    proof {
        lemma_div_scale_range(a as int);
    }
    if a >= 0 {
        ((a as u64) / (SCALE as u64)) as i64
    } else {
        let m: u64 = (-a) as u64;
        let q: u64 = (m + ((SCALE as u64) - 1)) / (SCALE as u64);
        proof {
            lemma_neg_ceil_div(m as int, SCALE as int);
        }
        -(q as i64)
    }
}

/// Dividing a bounded coordinate by the scale lands in the pixel range.
proof fn lemma_div_scale_range(a: int)
    requires
        -COORD_LIM <= a <= COORD_LIM,
    ensures
        -PIX_LIM <= a / (SCALE as int) <= PIX_LIM,
{
    assert(-100_000 <= a / 10000 <= 100_000) by (nonlinear_arith)
        requires
            -1_000_000_000 <= a <= 1_000_000_000,
    ;
}

/// Euclidean division of a negative number is the negated ceiling
/// division of its magnitude: `(-m) / s == -((m + s - 1) / s)`.
proof fn lemma_neg_ceil_div(m: int, s: int)
    requires
        m >= 1,
        s >= 1,
    ensures
        (-m) / s == -((m + s - 1) / s),
{
    assert((-m) / s == -((m + s - 1) / s)) by (nonlinear_arith)
        requires
            m >= 1,
            s >= 1,
    ;
}

/// Ceiling of `a / SCALE`.
fn ceil_div_scale(a: i64) -> (r: i64)
    requires
        -COORD_LIM <= a <= COORD_LIM,
    ensures
        r == -((-a) as int / (SCALE as int)),
        -PIX_LIM <= r <= PIX_LIM,
{
    proof {
        lemma_div_scale_range(-(a as int));
    }
    if a <= 0 {
        -((((-a) as u64) / (SCALE as u64)) as i64)
    } else {
        proof {
            lemma_neg_ceil_div(a as int, SCALE as int);
        }
        (((a as u64) + ((SCALE as u64) - 1)) / (SCALE as u64)) as i64
    }
}

/// The smallest of three coordinates.
fn min3(a: i64, b: i64, c: i64) -> (r: i64)
    ensures
        r == min2(min2(a as int, b as int), c as int),
{
    let m: i64 = if a <= b {
        a
    } else {
        b
    };
    if m <= c {
        m
    } else {
        c
    }
}

/// The largest of three coordinates.
fn max3(a: i64, b: i64, c: i64) -> (r: i64)
    ensures
        r == max2(max2(a as int, b as int), c as int),
{
    let m: i64 = if a >= b {
        a
    } else {
        b
    };
    if m >= c {
        m
    } else {
        c
    }
}

/// Axis-aligned pixel bounding box of three screen positions: floor of
/// the minima, ceiling of the maxima. No clamping to any framebuffer
/// happens here; the caller discards fragments it cannot store.
pub fn calculate_bounding_box(a: &Vec3Fx, b: &Vec3Fx, c: &Vec3Fx) -> (r: (i64, i64, i64, i64))
    requires
        vec3_bounded(*a, COORD_LIM as int),
        vec3_bounded(*b, COORD_LIM as int),
        vec3_bounded(*c, COORD_LIM as int),
    ensures
        r.0 == bbox_min_x(*a, *b, *c),
        r.1 == bbox_min_y(*a, *b, *c),
        r.2 == bbox_max_x(*a, *b, *c),
        r.3 == bbox_max_y(*a, *b, *c),
        -PIX_LIM <= r.0 <= PIX_LIM,
        -PIX_LIM <= r.1 <= PIX_LIM,
        -PIX_LIM <= r.2 <= PIX_LIM,
        -PIX_LIM <= r.3 <= PIX_LIM,
{
    let min_x: i64 = floor_div_scale(min3(a.x, b.x, c.x));
    let min_y: i64 = floor_div_scale(min3(a.y, b.y, c.y));
    let max_x: i64 = ceil_div_scale(max3(a.x, b.x, c.x));
    let max_y: i64 = ceil_div_scale(max3(a.y, b.y, c.y));
    (min_x, min_y, max_x, max_y)
}

/// The magnitude of a quotient is bounded by the weight of its numerator:
/// if `|a| <= m * |b|` then `|idiv(a, b)| <= m`.
pub proof fn lemma_idiv_bound(a: int, b: int, m: int)
    requires
        b != 0,
        m >= 0,
        b > 0 ==> -m * b <= a <= m * b,
        b < 0 ==> m * b <= a <= -m * (b as int),
    ensures
        -m <= idiv(a, b) <= m,
{
    if b > 0 {
        if a >= 0 {
            assert(0 <= a / b <= m) by (nonlinear_arith)
                requires
                    b > 0,
                    a >= 0,
                    a <= m * b,
            ;
        } else {
            assert(0 <= (-a) / b <= m) by (nonlinear_arith)
                requires
                    b > 0,
                    a < 0,
                    -m * b <= a,
            ;
        }
    } else {
        if a >= 0 {
            assert(0 <= a / (-b) <= m) by (nonlinear_arith)
                requires
                    b < 0,
                    a >= 0,
                    a <= -m * b,
            ;
        } else {
            assert(0 <= (-a) / (-b) <= m) by (nonlinear_arith)
                requires
                    b < 0,
                    a < 0,
                    m * b <= a,
            ;
        }
    }
}

/// Interpolate one attribute under exact rational weights.
fn interp3(n1: i128, n2: i128, n3: i128, den: i128, z1: i64, z2: i64, z3: i64) -> (r: i64)
    requires
        den != 0,
        -18 * (COORD_LIM as int) * (COORD_LIM as int) <= den <= 18 * (COORD_LIM as int) * (
        COORD_LIM as int),
        weight_in_range(n1 as int, den as int),
        weight_in_range(n2 as int, den as int),
        weight_in_range(n3 as int, den as int),
        -ATTR_LIM <= z1 <= ATTR_LIM,
        -ATTR_LIM <= z2 <= ATTR_LIM,
        -ATTR_LIM <= z3 <= ATTR_LIM,
    ensures
        r == interp3_spec(n1 as int, n2 as int, n3 as int, den as int, z1 as int, z2 as int, z3 as int),
        -3 * (ATTR_LIM as int) <= r <= 3 * (ATTR_LIM as int),
{
    proof {
        lemma_weighted_term_bound(n1 as int, den as int, z1 as int);
        lemma_weighted_term_bound(n2 as int, den as int, z2 as int);
        lemma_weighted_term_bound(n3 as int, den as int, z3 as int);
    }
    let num: i128 = n1 * (z1 as i128) + n2 * (z2 as i128) + n3 * (z3 as i128);
    let q: i128 = if den > 0 {
        tdiv_i128(num, den)
    } else {
        tdiv_i128(-num, -den)
    };
    proof {
        assert(num as int == (n1 as int) * (z1 as int) + (n2 as int) * (z2 as int) + (n3 as int) * (
        z3 as int));
        if den > 0 {
            assert(-3_000_000_000 * (den as int) <= num as int <= 3_000_000_000 * (den as int))
                by (nonlinear_arith)
                requires
                    -1_000_000_000 * (den as int) <= (n1 as int) * (z1 as int) <= 1_000_000_000 * (
                    den as int),
                    -1_000_000_000 * (den as int) <= (n2 as int) * (z2 as int) <= 1_000_000_000 * (
                    den as int),
                    -1_000_000_000 * (den as int) <= (n3 as int) * (z3 as int) <= 1_000_000_000 * (
                    den as int),
                    num as int == (n1 as int) * (z1 as int) + (n2 as int) * (z2 as int) + (
                    n3 as int) * (z3 as int),
            ;
        } else {
            assert(3_000_000_000 * (den as int) <= num as int <= -3_000_000_000 * (den as int))
                by (nonlinear_arith)
                requires
                    1_000_000_000 * (den as int) <= (n1 as int) * (z1 as int) <= -1_000_000_000 * (
                    den as int),
                    1_000_000_000 * (den as int) <= (n2 as int) * (z2 as int) <= -1_000_000_000 * (
                    den as int),
                    1_000_000_000 * (den as int) <= (n3 as int) * (z3 as int) <= -1_000_000_000 * (
                    den as int),
                    num as int == (n1 as int) * (z1 as int) + (n2 as int) * (z2 as int) + (
                    n3 as int) * (z3 as int),
            ;
        }
        lemma_idiv_bound(num as int, den as int, 3_000_000_000);
    }
    q as i64
}

/// Exact barycentric coordinates of the point `(px, py)` with respect to
/// the screen triangle `a b c`, as the numerator triple over the shared
/// denominator (the doubled signed area). A degenerate triangle — zero
/// doubled area — yields nothing.
pub fn barycentric_coordinates(px: i64, py: i64, a: &Vec3Fx, b: &Vec3Fx, c: &Vec3Fx) -> (r: Option<
    (i128, i128, i128, i128),
>)
    requires
        vec3_bounded(*a, COORD_LIM as int),
        vec3_bounded(*b, COORD_LIM as int),
        vec3_bounded(*c, COORD_LIM as int),
        -(COORD_LIM as int) - SCALE <= px <= (COORD_LIM as int) + SCALE,
        -(COORD_LIM as int) - SCALE <= py <= (COORD_LIM as int) + SCALE,
    ensures
        r is None <==> bary_den(*a, *b, *c) == 0,
        r is Some ==> {
            let (n1, n2, n3, den) = r->Some_0;
            &&& n1 == bary_n1(*a, *b, *c, px as int, py as int)
            &&& n2 == bary_n2(*a, *b, *c, px as int, py as int)
            &&& n3 == bary_n3(*a, *b, *c, px as int, py as int)
            &&& den == bary_den(*a, *b, *c)
            &&& den != 0
            &&& -18 * (COORD_LIM as int) * (COORD_LIM as int) <= den <= 18 * (COORD_LIM as int) * (
            COORD_LIM as int)
        },
{
    let v0x: i128 = (b.x as i128) - (a.x as i128);
    let v0y: i128 = (b.y as i128) - (a.y as i128);
    let v1x: i128 = (c.x as i128) - (a.x as i128);
    let v1y: i128 = (c.y as i128) - (a.y as i128);
    let v2x: i128 = (px as i128) - (a.x as i128);
    let v2y: i128 = (py as i128) - (a.y as i128);
    let den: i128 = cross2(v0x, v0y, v1x, v1y);
    if den == 0 {
        None
    } else {
        let n2: i128 = cross2(v2x, v2y, v1x, v1y);
        let n3: i128 = cross2(v0x, v0y, v2x, v2y);
        let n1: i128 = den - n2 - n3;
        Some((n1, n2, n3, den))
    }
}

/// Whether the rational weight `n / den` lies in `[0, 1]`.
fn weight_ok(n: i128, den: i128) -> (r: bool)
    ensures
        r == weight_in_range(n as int, den as int),
{
    if den >= 0 {
        0 <= n && n <= den
    } else {
        den <= n && n <= 0
    }
}

/// Rasterize one pixel: the fragment with interpolated attributes if the
/// pixel's center passes the barycentric acceptance test, nothing
/// otherwise.
pub fn pixel_fragment(v1: &Vertex, v2: &Vertex, v3: &Vertex, x: i64, y: i64) -> (r: Option<
    Fragment,
>)
    requires
        raster_inputs_ok(*v1, *v2, *v3),
        -PIX_LIM <= x <= PIX_LIM,
        -PIX_LIM <= y <= PIX_LIM,
    ensures
        r is Some <==> pixel_accepted(
            v1.transformed_position,
            v2.transformed_position,
            v3.transformed_position,
            x as int,
            y as int,
        ),
        r is Some ==> r->Some_0 == frag_at(*v1, *v2, *v3, x as int, y as int),
{
    let px: i64 = x * SCALE + HALF;
    let py: i64 = y * SCALE + HALF;
    let a = v1.transformed_position;
    let b = v2.transformed_position;
    let c = v3.transformed_position;
    match barycentric_coordinates(px, py, &a, &b, &c) {
        None => None,
        Some((n1, n2, n3, den)) => {
            if weight_ok(n1, den) && weight_ok(n2, den) && weight_ok(n3, den) {
                let depth: i64 = interp3(n1, n2, n3, den, a.z, b.z, c.z);
                let raw_normal = Vec3Fx {
                    x: interp3(
                        n1,
                        n2,
                        n3,
                        den,
                        v1.transformed_normal.x,
                        v2.transformed_normal.x,
                        v3.transformed_normal.x,
                    ),
                    y: interp3(
                        n1,
                        n2,
                        n3,
                        den,
                        v1.transformed_normal.y,
                        v2.transformed_normal.y,
                        v3.transformed_normal.y,
                    ),
                    z: interp3(
                        n1,
                        n2,
                        n3,
                        den,
                        v1.transformed_normal.z,
                        v2.transformed_normal.z,
                        v3.transformed_normal.z,
                    ),
                };
                let normal = raw_normal.normalize_or_zero();
                let vertex_position = Vec3Fx {
                    x: interp3(n1, n2, n3, den, v1.position.x, v2.position.x, v3.position.x),
                    y: interp3(n1, n2, n3, den, v1.position.y, v2.position.y, v3.position.y),
                    z: interp3(n1, n2, n3, den, v1.position.z, v2.position.z, v3.position.z),
                };
                let light = Vec3Fx { x: 0, y: 0, z: LIGHT_Z };
                let d: i64 = normal.dot(light);
                let intensity: i64 = if d >= 0 {
                    d
                } else {
                    0
                };
                Some(
                    Fragment {
                        x,
                        y,
                        depth,
                        color: Color { r: 255, g: 255, b: 255 },
                        normal,
                        vertex_position,
                        intensity,
                    },
                )
            } else {
                None
            }
        },
    }
}

/// `f` comes strictly before `g` in scanline order: on an earlier row,
/// or on the same row and an earlier column.
pub open spec fn frag_lex_lt(f: Fragment, g: Fragment) -> bool {
    f.y < g.y || (f.y == g.y && f.x < g.x)
}

/// Rasterize a triangle of three transformed vertices into the fragments
/// of every accepted pixel of its bounding box. Every returned fragment
/// is the exact interpolation of an accepted pixel, every accepted pixel
/// is represented, the fragments come in strict scanline order — so no
/// pixel appears twice and the output is uniquely determined — and a
/// degenerate triangle yields no fragments.
pub fn triangle(v1: &Vertex, v2: &Vertex, v3: &Vertex) -> (frags: Vec<Fragment>)
    requires
        raster_inputs_ok(*v1, *v2, *v3),
    ensures
        forall|i: int| 0 <= i < frags@.len() ==> frag_props(*v1, *v2, *v3, #[trigger] frags@[i]),
        forall|x: int, y: int|
            pixel_accepted(
                v1.transformed_position,
                v2.transformed_position,
                v3.transformed_position,
                x,
                y,
            ) ==> #[trigger] frags@.contains(frag_at(*v1, *v2, *v3, x, y)),
        forall|i: int, j: int|
            0 <= i < j < frags@.len() ==> frag_lex_lt(#[trigger] frags@[i], #[trigger] frags@[j]),
        bary_den(v1.transformed_position, v2.transformed_position, v3.transformed_position) == 0
            ==> frags@.len() == 0,
{
    let a = v1.transformed_position;
    let b = v2.transformed_position;
    let c = v3.transformed_position;
    let den: i128 = cross2(
        (b.x as i128) - (a.x as i128),
        (b.y as i128) - (a.y as i128),
        (c.x as i128) - (a.x as i128),
        (c.y as i128) - (a.y as i128),
    );
    let mut frags: Vec<Fragment> = Vec::new();
    if den == 0 {
        return frags;
    }
    let bbox = calculate_bounding_box(&a, &b, &c);
    let (min_x, min_y, max_x, max_y): (i64, i64, i64, i64) = bbox;
    let mut y: i64 = min_y;
    while y <= max_y
        invariant
            raster_inputs_ok(*v1, *v2, *v3),
            a == v1.transformed_position,
            b == v2.transformed_position,
            c == v3.transformed_position,
            min_x == bbox_min_x(a, b, c),
            min_y == bbox_min_y(a, b, c),
            max_x == bbox_max_x(a, b, c),
            max_y == bbox_max_y(a, b, c),
            -PIX_LIM <= min_x <= PIX_LIM,
            -PIX_LIM <= min_y <= PIX_LIM,
            -PIX_LIM <= max_x <= PIX_LIM,
            -PIX_LIM <= max_y <= PIX_LIM,
            min_y <= y <= max_y + 1,
            forall|i: int|
                0 <= i < frags@.len() ==> frag_props(*v1, *v2, *v3, #[trigger] frags@[i]),
            forall|xx: int, yy: int|
                min_y <= yy < y && pixel_accepted(a, b, c, xx, yy) ==> #[trigger] frags@.contains(
                    frag_at(*v1, *v2, *v3, xx, yy),
                ),
            forall|i: int, j: int|
                0 <= i < j < frags@.len() ==> frag_lex_lt(
                    #[trigger] frags@[i],
                    #[trigger] frags@[j],
                ),
            forall|i: int| 0 <= i < frags@.len() ==> (#[trigger] frags@[i]).y < y,
        decreases max_y + 1 - y,
    {
        let mut x: i64 = min_x;
        while x <= max_x
            invariant
                raster_inputs_ok(*v1, *v2, *v3),
                a == v1.transformed_position,
                b == v2.transformed_position,
                c == v3.transformed_position,
                min_x == bbox_min_x(a, b, c),
                min_y == bbox_min_y(a, b, c),
                max_x == bbox_max_x(a, b, c),
                max_y == bbox_max_y(a, b, c),
                -PIX_LIM <= min_x <= PIX_LIM,
                -PIX_LIM <= min_y <= PIX_LIM,
                -PIX_LIM <= max_x <= PIX_LIM,
                -PIX_LIM <= max_y <= PIX_LIM,
                min_y <= y <= max_y,
                min_x <= x <= max_x + 1,
                forall|i: int|
                    0 <= i < frags@.len() ==> frag_props(*v1, *v2, *v3, #[trigger] frags@[i]),
                forall|xx: int, yy: int|
                    min_y <= yy < y && pixel_accepted(a, b, c, xx, yy) ==> #[trigger] frags@.contains(
                        frag_at(*v1, *v2, *v3, xx, yy),
                    ),
                forall|xx: int|
                    min_x <= xx < x && pixel_accepted(a, b, c, xx, y as int)
                        ==> #[trigger] frags@.contains(frag_at(*v1, *v2, *v3, xx, y as int)),
                forall|i: int, j: int|
                    0 <= i < j < frags@.len() ==> frag_lex_lt(
                        #[trigger] frags@[i],
                        #[trigger] frags@[j],
                    ),
                forall|i: int|
                    0 <= i < frags@.len() ==> ((#[trigger] frags@[i]).y < y || (frags@[i].y == y
                        && frags@[i].x < x)),
            decreases max_x + 1 - x,
        {
            let ghost old_frags = frags@;
            match pixel_fragment(v1, v2, v3, x, y) {
                Some(f) => {
                    proof {
                        lemma_accepted_in_bbox(a, b, c, x as int, y as int);
                    }
                    frags.push(f);
                    proof {
                        assert(frags@ == old_frags.push(f));
                        assert(frags@[old_frags.len() as int] == f);
                        assert(f.x == x && f.y == y);
                        assert forall|ia: int, ib: int| 0 <= ia < ib < frags@.len() implies
                            frag_lex_lt(#[trigger] frags@[ia], #[trigger] frags@[ib]) by {
                            assert(frags@[ia] == old_frags[ia]);
                            if ib < old_frags.len() {
                                assert(frags@[ib] == old_frags[ib]);
                            } else {
                                assert(frags@[ib] == f);
                            }
                        };
                        assert forall|i: int| 0 <= i < frags@.len() implies frag_props(
                            *v1,
                            *v2,
                            *v3,
                            #[trigger] frags@[i],
                        ) by {
                            if i < old_frags.len() {
                                assert(frags@[i] == old_frags[i]);
                            }
                        };
                        assert forall|xx: int, yy: int|
                            min_y <= yy < y && pixel_accepted(a, b, c, xx, yy) implies #[trigger] frags@.contains(
                            frag_at(*v1, *v2, *v3, xx, yy),
                        ) by {
                            assert(old_frags.contains(frag_at(*v1, *v2, *v3, xx, yy)));
                            let j = choose|j: int|
                                0 <= j < old_frags.len() && old_frags[j] == frag_at(
                                    *v1,
                                    *v2,
                                    *v3,
                                    xx,
                                    yy,
                                );
                            assert(frags@[j] == frag_at(*v1, *v2, *v3, xx, yy));
                        };
                        assert forall|xx: int|
                            min_x <= xx < x + 1 && pixel_accepted(a, b, c, xx, y as int)
                                implies #[trigger] frags@.contains(
                            frag_at(*v1, *v2, *v3, xx, y as int),
                        ) by {
                            if xx < x {
                                assert(old_frags.contains(frag_at(*v1, *v2, *v3, xx, y as int)));
                                let j = choose|j: int|
                                    0 <= j < old_frags.len() && old_frags[j] == frag_at(
                                        *v1,
                                        *v2,
                                        *v3,
                                        xx,
                                        y as int,
                                    );
                                assert(frags@[j] == frag_at(*v1, *v2, *v3, xx, y as int));
                            } else {
                                assert(frags@[old_frags.len() as int] == frag_at(
                                    *v1,
                                    *v2,
                                    *v3,
                                    xx,
                                    y as int,
                                ));
                            }
                        };
                    }
                },
                None => {
                    proof {
                        assert forall|xx: int|
                            min_x <= xx < x + 1 && pixel_accepted(a, b, c, xx, y as int)
                                implies #[trigger] frags@.contains(
                            frag_at(*v1, *v2, *v3, xx, y as int),
                        ) by {
                            assert(xx != x);
                        };
                    }
                },
            }
            x = x + 1;
        }
        proof {
            assert forall|xx: int, yy: int|
                min_y <= yy < y + 1 && pixel_accepted(a, b, c, xx, yy) implies #[trigger] frags@.contains(
                frag_at(*v1, *v2, *v3, xx, yy),
            ) by {
                if yy == y {
                    lemma_accepted_in_bbox(a, b, c, xx, yy);
                }
            };
        }
        y = y + 1;
    }
    proof {
        assert forall|x0: int, y0: int| pixel_accepted(a, b, c, x0, y0) implies #[trigger] frags@.contains(
            frag_at(*v1, *v2, *v3, x0, y0),
        ) by {
            lemma_accepted_in_bbox(a, b, c, x0, y0);
        };
    }
    frags
}

/// The three barycentric numerators sum to the denominator: the three
/// rational weights sum to exactly one.
pub proof fn lemma_weights_sum_to_den(a: Vec3Fx, b: Vec3Fx, c: Vec3Fx, px: int, py: int)
    ensures
        bary_n1(a, b, c, px, py) + bary_n2(a, b, c, px, py) + bary_n3(a, b, c, px, py) == bary_den(
            a,
            b,
            c,
        ),
{
}

/// The barycentric weights reproduce the sampled point: the weighted sum
/// of the vertices' screen coordinates, over the shared denominator,
/// equals the point itself. Interpolating a vertex's own screen position
/// under its own weights therefore returns exactly that position.
pub proof fn lemma_bary_affine(a: Vec3Fx, b: Vec3Fx, c: Vec3Fx, px: int, py: int)
    ensures
        bary_n1(a, b, c, px, py) * a.x + bary_n2(a, b, c, px, py) * b.x + bary_n3(a, b, c, px, py)
            * c.x == bary_den(a, b, c) * px,
        bary_n1(a, b, c, px, py) * a.y + bary_n2(a, b, c, px, py) * b.y + bary_n3(a, b, c, px, py)
            * c.y == bary_den(a, b, c) * py,
{
    let den = bary_den(a, b, c);
    let n2 = bary_n2(a, b, c, px, py);
    let n3 = bary_n3(a, b, c, px, py);
    assert(n2 * (b.x - a.x) + n3 * (c.x - a.x) == den * (px - a.x)) by (nonlinear_arith)
        requires
            den == (b.x - a.x) * (c.y - a.y) - (b.y - a.y) * (c.x - a.x),
            n2 == (px - a.x) * (c.y - a.y) - (py - a.y) * (c.x - a.x),
            n3 == (b.x - a.x) * (py - a.y) - (b.y - a.y) * (px - a.x),
    ;
    assert(n2 * (b.y - a.y) + n3 * (c.y - a.y) == den * (py - a.y)) by (nonlinear_arith)
        requires
            den == (b.x - a.x) * (c.y - a.y) - (b.y - a.y) * (c.x - a.x),
            n2 == (px - a.x) * (c.y - a.y) - (py - a.y) * (c.x - a.x),
            n3 == (b.x - a.x) * (py - a.y) - (b.y - a.y) * (px - a.x),
    ;
    let n1 = bary_n1(a, b, c, px, py);
    assert(n1 * a.x + n2 * b.x + n3 * c.x == den * px) by (nonlinear_arith)
        requires
            n1 == den - n2 - n3,
            n2 * (b.x - a.x) + n3 * (c.x - a.x) == den * (px - a.x),
    ;
    assert(n1 * a.y + n2 * b.y + n3 * c.y == den * py) by (nonlinear_arith)
        requires
            n1 == den - n2 - n3,
            n2 * (b.y - a.y) + n3 * (c.y - a.y) == den * (py - a.y),
    ;
}

/// A weighted sum with weights in `[0, 1]` summing to one stays between
/// the smallest and largest of its three inputs, scaled by the
/// denominator.
proof fn lemma_convex_between(n1: int, n2: int, n3: int, den: int, t1: int, t2: int, t3: int, lo: int, hi: int, s: int)
    requires
        den != 0,
        n1 + n2 + n3 == den,
        weight_in_range(n1, den),
        weight_in_range(n2, den),
        weight_in_range(n3, den),
        lo <= t1 <= hi,
        lo <= t2 <= hi,
        lo <= t3 <= hi,
        n1 * t1 + n2 * t2 + n3 * t3 == den * s,
    ensures
        lo <= s <= hi,
{
    if den > 0 {
        assert(den * lo <= den * s <= den * hi) by (nonlinear_arith)
            requires
                0 <= n1 <= den,
                0 <= n2 <= den,
                0 <= n3 <= den,
                n1 + n2 + n3 == den,
                lo <= t1 <= hi,
                lo <= t2 <= hi,
                lo <= t3 <= hi,
                n1 * t1 + n2 * t2 + n3 * t3 == den * s,
        ;
        assert(lo <= s <= hi) by (nonlinear_arith)
            requires
                den > 0,
                den * lo <= den * s <= den * hi,
        ;
    } else {
        assert(den * hi <= den * s <= den * lo) by (nonlinear_arith)
            requires
                den <= n1 <= 0,
                den <= n2 <= 0,
                den <= n3 <= 0,
                n1 + n2 + n3 == den,
                den < 0,
                lo <= t1 <= hi,
                lo <= t2 <= hi,
                lo <= t3 <= hi,
                n1 * t1 + n2 * t2 + n3 * t3 == den * s,
        ;
        assert(lo <= s <= hi) by (nonlinear_arith)
            requires
                den < 0,
                den * hi <= den * s <= den * lo,
        ;
    }
}

/// An accepted pixel lies in the triangle's bounding box: its center is
/// an affine combination of the vertices, so it sits between the
/// coordinate extremes, and the box's floor and ceiling enclose it.
pub proof fn lemma_accepted_in_bbox(a: Vec3Fx, b: Vec3Fx, c: Vec3Fx, x: int, y: int)
    requires
        pixel_accepted(a, b, c, x, y),
    ensures
        bbox_contains(a, b, c, x, y),
{
    let px = pixel_center(x);
    let py = pixel_center(y);
    let den = bary_den(a, b, c);
    let n1 = bary_n1(a, b, c, px, py);
    let n2 = bary_n2(a, b, c, px, py);
    let n3 = bary_n3(a, b, c, px, py);
    lemma_bary_affine(a, b, c, px, py);
    let mnx = min2(min2(a.x as int, b.x as int), c.x as int);
    let mxx = max2(max2(a.x as int, b.x as int), c.x as int);
    let mny = min2(min2(a.y as int, b.y as int), c.y as int);
    let mxy = max2(max2(a.y as int, b.y as int), c.y as int);
    lemma_convex_between(n1, n2, n3, den, a.x as int, b.x as int, c.x as int, mnx, mxx, px);
    lemma_convex_between(n1, n2, n3, den, a.y as int, b.y as int, c.y as int, mny, mxy, py);
    lemma_pixel_range(x, mnx, mxx);
    lemma_pixel_range(y, mny, mxy);
}

/// A pixel whose center lies between two coordinates lies between the
/// floor of the lower and the ceiling of the upper, in whole pixels.
proof fn lemma_pixel_range(x: int, mn: int, mx: int)
    requires
        mn <= pixel_center(x) <= mx,
    ensures
        mn / (SCALE as int) <= x <= -((-mx) / (SCALE as int)),
{
    let s = SCALE as int;
    let q = mn / s;
    assert(s * q <= mn) by (nonlinear_arith)
        requires
            s == 10000,
            q == mn / s,
    ;
    assert(x * s + (HALF as int) >= mn);
    assert(x > q - 1) by (nonlinear_arith)
        requires
            s == 10000,
            x * s + 5000 >= mn,
            s * q <= mn,
    ;
    let qc = (-mx) / s;
    assert(s * qc <= -mx) by (nonlinear_arith)
        requires
            s == 10000,
            qc == (-mx) / s,
    ;
    assert(x < -qc + 1) by (nonlinear_arith)
        requires
            s == 10000,
            x * s + 5000 <= mx,
            s * qc <= -mx,
    ;
}

/// A pixel center strictly inside the triangle passes the acceptance
/// test, so it appears in the rasterizer's output.
pub proof fn lemma_strictly_inside_accepted(a: Vec3Fx, b: Vec3Fx, c: Vec3Fx, x: int, y: int)
    requires
        pixel_strictly_inside(a, b, c, x, y),
    ensures
        pixel_accepted(a, b, c, x, y),
{
}

/// Truncating division is exact on multiples.
proof fn lemma_tdiv_exact(q: int, b: int)
    requires
        b > 0,
    ensures
        tdiv(q * b, b) == q,
{
    if q >= 0 {
        assert((q * b) / b == q) by (nonlinear_arith)
            requires
                b > 0,
                q >= 0,
        ;
    } else {
        assert(q * b < 0) by (nonlinear_arith)
            requires
                b > 0,
                q < 0,
        ;
        assert((-(q * b)) / b == -q) by (nonlinear_arith)
            requires
                b > 0,
                q < 0,
        ;
    }
}

/// Interpolation reproduces a vertex: under the weights `(1, 0, 0)` —
/// numerators `(den, 0, 0)` — the interpolated attribute is exactly the
/// first vertex's value.
pub proof fn lemma_interp_at_vertex(den: int, z1: int, z2: int, z3: int)
    requires
        den != 0,
    ensures
        interp3_spec(den, 0, 0, den, z1, z2, z3) == z1,
{
    assert(den * z1 + 0 * z2 + 0 * z3 == z1 * den) by (nonlinear_arith);
    if den > 0 {
        lemma_tdiv_exact(z1, den);
    } else {
        assert(-(z1 * den) == z1 * (-den)) by (nonlinear_arith);
        lemma_tdiv_exact(z1, -den);
    }
}

/// Euclidean division is unique: any decomposition with a remainder in
/// range is the division.
proof fn lemma_ediv_unique(aa: int, bb: int, q: int, r: int)
    requires
        bb > 0,
        aa == q * bb + r,
        0 <= r < bb,
    ensures
        aa / bb == q,
{
    assert(aa / bb == q) by (nonlinear_arith)
        requires
            bb > 0,
            aa == q * bb + r,
            0 <= r < bb,
    ;
}

/// A common factor cancels out of the interpolation quotient.
proof fn lemma_idiv_half(n: int, s: int)
    requires
        n != 0,
    ensures
        idiv(n * s, 2 * n) == idiv(s, 2),
{
    let k: int = if n > 0 {
        n
    } else {
        -n
    };
    assert(k > 0);
    if s >= 0 {
        let q = s / 2;
        let r = s % 2;
        assert(s == q * 2 + r && 0 <= r < 2);
        assert(k * s == q * (2 * k) + k * r) by (nonlinear_arith)
            requires
                s == q * 2 + r,
        ;
        assert(0 <= k * r < 2 * k) by (nonlinear_arith)
            requires
                k > 0,
                0 <= r < 2,
        ;
        lemma_ediv_unique(k * s, 2 * k, q, k * r);
        assert(k * s >= 0) by (nonlinear_arith)
            requires
                k > 0,
                s >= 0,
        ;
        assert(tdiv(k * s, 2 * k) == q);
        if n > 0 {
            assert(idiv(n * s, 2 * n) == tdiv(k * s, 2 * k));
        } else {
            assert(-(n * s) == k * s && -(2 * n) == 2 * k) by (nonlinear_arith)
                requires
                    k == -n,
            ;
            assert(idiv(n * s, 2 * n) == tdiv(k * s, 2 * k));
        }
        assert(idiv(s, 2) == q);
    } else {
        let m = -s;
        let q = m / 2;
        let r = m % 2;
        assert(m == q * 2 + r && 0 <= r < 2);
        assert(k * m == q * (2 * k) + k * r) by (nonlinear_arith)
            requires
                m == q * 2 + r,
        ;
        assert(0 <= k * r < 2 * k) by (nonlinear_arith)
            requires
                k > 0,
                0 <= r < 2,
        ;
        lemma_ediv_unique(k * m, 2 * k, q, k * r);
        assert(k * m > 0) by (nonlinear_arith)
            requires
                k > 0,
                m > 0,
        ;
        assert(tdiv(-(k * m), 2 * k) == -q);
        if n > 0 {
            assert(n * s == -(k * m)) by (nonlinear_arith)
                requires
                    k == n,
                    m == -s,
            ;
            assert(idiv(n * s, 2 * n) == tdiv(-(k * m), 2 * k));
        } else {
            assert(-(n * s) == -(k * m) && -(2 * n) == 2 * k) by (nonlinear_arith)
                requires
                    k == -n,
                    m == -s,
            ;
            assert(idiv(n * s, 2 * n) == tdiv(-(k * m), 2 * k));
        }
        assert(idiv(s, 2) == -q);
    }
}

/// Depth interpolation is affine: at the midpoint of an edge — equal
/// weights on the edge's endpoints, none on the third vertex — the
/// interpolated value is the endpoints' arithmetic mean, up to one raw
/// unit of truncation.
pub proof fn lemma_interp_edge_midpoint(n: int, z1: int, z2: int, z3: int)
    requires
        n != 0,
    ensures
        -1 <= 2 * interp3_spec(n, n, 0, 2 * n, z1, z2, z3) - (z1 + z2) <= 1,
{
    let s = z1 + z2;
    assert(n * z1 + n * z2 + 0 * z3 == n * s) by (nonlinear_arith)
        requires
            s == z1 + z2,
    ;
    lemma_idiv_half(n, s);
    if s >= 0 {
        assert(s == (s / 2) * 2 + s % 2 && 0 <= s % 2 < 2);
        assert(idiv(s, 2) == s / 2);
    } else {
        assert(-s == ((-s) / 2) * 2 + (-s) % 2 && 0 <= (-s) % 2 < 2);
        assert(idiv(s, 2) == -((-s) / 2));
    }
}

/// One weighted term is bounded by the denominator times the attribute
/// limit, and numerically by the largest such product.
proof fn lemma_weighted_term_bound(n: int, den: int, z: int)
    requires
        weight_in_range(n, den),
        -ATTR_LIM <= z <= ATTR_LIM,
        -18_000_000_000_000_000_000 <= den <= 18_000_000_000_000_000_000,
    ensures
        den > 0 ==> -1_000_000_000 * den <= n * z <= 1_000_000_000 * den,
        den < 0 ==> 1_000_000_000 * den <= n * z <= -1_000_000_000 * den,
        den == 0 ==> n * z == 0,
        -18_000_000_000_000_000_000_000_000_000 <= n * z
            <= 18_000_000_000_000_000_000_000_000_000,
{
    if den > 0 {
        assert(-1_000_000_000 * den <= n * z <= 1_000_000_000 * den) by (nonlinear_arith)
            requires
                0 <= n <= den,
                -1_000_000_000 <= z <= 1_000_000_000,
        ;
    } else if den < 0 {
        assert(1_000_000_000 * den <= n * z <= -1_000_000_000 * den) by (nonlinear_arith)
            requires
                den <= n <= 0,
                -1_000_000_000 <= z <= 1_000_000_000,
                den < 0,
        ;
    } else {
        assert(n == 0);
        assert(n * z == 0) by (nonlinear_arith)
            requires
                n == 0,
        ;
    }
}

} // verus!
