//! The vertex transform stage and the procedural fragment shading stage.
//!
//! The coherent-noise source is an outside collaborator: the stages take
//! the sampled noise values as plain fixed-point inputs, and the helpers
//! here compute the exact sample coordinates the caller must query.

use vstd::prelude::*;
use crate::fixed::{
    SCALE,
    MUL_LIM,
    tdiv,
    tdiv_i128,
    clamp_spec,
    clamp_i64,
    fx_mul,
    fx_mul_spec,
    fx_div_spec,
    fx_div_clamped,
    fx_sqrt,
    fx_sqrt_spec,
    lemma_tdiv_mag,
};
use crate::trig::{fx_sin, fx_cos, fx_sin_spec, fx_cos_spec};
use crate::vec3::{
    Vec3Fx,
    vec3_bounded,
    vec3_dot_spec,
    vec3_normalize_spec,
    vec3_clamp_spec,
    lemma_dot_sharp,
};
use crate::mat::{
    Mat4Fx,
    Vec4Fx,
    Mat3Fx,
    mat4_mul_mat4_spec,
    mat4_mul_vec4_spec,
    mat4_to_mat3,
    mat4_to_mat3_spec,
    mat3_transpose_spec,
    mat3_inverse_or_identity_spec,
    mat3_mul_vec3_spec,
    lemma_mat4_vec_bounded,
};
use crate::vertex::Vertex;
use crate::fragment::Fragment;
use crate::color::{Color, color_scale_spec, color_hex_spec};
use crate::uniforms::{Uniforms, uniforms_ok, TIME_LIM, VIEWPORT_LIM};
use crate::triangle::{COORD_LIM, ATTR_LIM};

verus! {

/// Largest object-space coordinate or normal component the transform
/// stage accepts.
pub const VERT_LIM: i64 = 10_000_000;

/// Normalized-device-coordinate saturation bound: ten whole units.
pub const NDC_LIM: i64 = 100_000;

/// The sinusoidal displacement pulse of the transform stage:
/// `sin(time * 1.8) * 0.35 + 0.65`.
pub open spec fn vertex_pulse_spec(time: int) -> int {
    fx_mul_spec(fx_sin_spec(fx_mul_spec(time, 18000)), 3500) + 6500
}

/// The surface displacement scalar: the noise sample scaled by the fixed
/// amplitude and modulated by the pulse.
pub open spec fn displacement_spec(noise_value: int, time: int) -> int {
    fx_mul_spec(fx_mul_spec(noise_value, 800), vertex_pulse_spec(time))
}

/// The object-space point at which the transform stage samples the
/// noise: the position scaled by 1.5, pushed along the time axis at rate
/// 0.3.
pub open spec fn vertex_noise_point_spec(position: Vec3Fx, time: int) -> Vec3Fx {
    Vec3Fx {
        x: fx_mul_spec(position.x as int, 15000) as i64,
        y: fx_mul_spec(position.y as int, 15000) as i64,
        z: (fx_mul_spec(position.z as int, 15000) + fx_mul_spec(time, 3000)) as i64,
    }
}

/// The point at which the transform stage samples the noise source.
pub fn vertex_noise_point(position: Vec3Fx, time: i64) -> (p: Vec3Fx)
    requires
        vec3_bounded(position, VERT_LIM as int),
        -TIME_LIM <= time <= TIME_LIM,
    ensures
        p == vertex_noise_point_spec(position, time as int),
{
    Vec3Fx {
        x: fx_mul(position.x, 15000),
        y: fx_mul(position.y, 15000),
        z: fx_mul(position.z, 15000) + fx_mul(time, 3000),
    }
}

/// The homogeneous position displaced along the normal by the noise
/// pulse.
pub open spec fn displaced_position_spec(v: Vertex, noise_value: int, time: int) -> Vec4Fx {
    let d = displacement_spec(noise_value, time);
    Vec4Fx {
        x: (v.position.x + fx_mul_spec(v.normal.x as int, d)) as i64,
        y: (v.position.y + fx_mul_spec(v.normal.y as int, d)) as i64,
        z: (v.position.z + fx_mul_spec(v.normal.z as int, d)) as i64,
        w: SCALE,
    }
}

/// The combined model-view-projection map.
pub open spec fn mvp_spec(u: Uniforms) -> Mat4Fx {
    mat4_mul_mat4_spec(mat4_mul_mat4_spec(u.projection_matrix, u.view_matrix), u.model_matrix)
}

/// The clip-space position of a vertex: the displaced homogeneous
/// position through the combined matrix.
pub open spec fn clip_position_spec(v: Vertex, u: Uniforms, noise_value: int) -> Vec4Fx {
    mat4_mul_vec4_spec(mvp_spec(u), displaced_position_spec(v, noise_value, u.time as int))
}

/// Normalized device coordinates: each clip component divided by the
/// homogeneous w, saturated into `NDC_LIM`.
pub open spec fn ndc_spec(clip: Vec4Fx) -> Vec4Fx
    recommends
        clip.w != 0,
{
    Vec4Fx {
        x: clamp_spec(fx_div_spec(clip.x as int, clip.w as int), -NDC_LIM as int, NDC_LIM as int) as i64,
        y: clamp_spec(fx_div_spec(clip.y as int, clip.w as int), -NDC_LIM as int, NDC_LIM as int) as i64,
        z: clamp_spec(fx_div_spec(clip.z as int, clip.w as int), -NDC_LIM as int, NDC_LIM as int) as i64,
        w: SCALE,
    }
}

/// The matrix that transforms normals: the inverse of the transposed
/// upper 3 by 3 block of the model matrix, or the identity when that
/// block is singular.
pub open spec fn normal_matrix_spec(u: Uniforms) -> Mat3Fx {
    mat3_inverse_or_identity_spec(mat3_transpose_spec(mat4_to_mat3_spec(u.model_matrix)))
}

/// The full transform of one vertex, when the homogeneous w does not
/// vanish: screen position from the viewport map of the normalized
/// device coordinates, and the normal through the normal matrix,
/// saturated into the rasterizer's attribute range.
pub open spec fn vertex_shader_spec(v: Vertex, u: Uniforms, noise_value: int) -> Option<Vertex> {
    let clip = clip_position_spec(v, u, noise_value);
    if clip.w == 0 {
        None
    } else {
        let screen = mat4_mul_vec4_spec(u.viewport_matrix, ndc_spec(clip));
        let tn = vec3_clamp_spec(
            mat3_mul_vec3_spec(normal_matrix_spec(u), v.normal),
            ATTR_LIM as int,
        );
        Some(
            Vertex {
                position: v.position,
                normal: v.normal,
                tex_coords: v.tex_coords,
                color: v.color,
                transformed_position: Vec3Fx { x: screen.x, y: screen.y, z: screen.z },
                transformed_normal: tn,
            },
        )
    }
}

/// Transform one vertex: displace it along its normal by the noise
/// pulse, run it through model, view and projection, divide by the
/// homogeneous w, and map into pixel space; the normal goes through the
/// inverse-transpose of the model block. A vertex whose homogeneous w
/// vanishes is not representable and yields nothing.
pub fn vertex_shader(vertex: &Vertex, uniforms: &Uniforms, noise_value: i64) -> (r: Option<Vertex>)
    requires
        uniforms_ok(*uniforms),
        vec3_bounded(vertex.position, VERT_LIM as int),
        vec3_bounded(vertex.normal, VERT_LIM as int),
        -SCALE <= noise_value <= SCALE,
    ensures
        r == vertex_shader_spec(*vertex, *uniforms, noise_value as int),
        r is Some <==> clip_position_spec(*vertex, *uniforms, noise_value as int).w != 0,
        r is Some ==> {
            let out = r->Some_0;
            &&& vec3_bounded(out.transformed_position, COORD_LIM as int)
            &&& vec3_bounded(out.transformed_normal, ATTR_LIM as int)
            &&& out.position == vertex.position
        },
{
    let sp: i64 = fx_mul(uniforms.time, 18000);
    let pulse: i64 = fx_mul(fx_sin(sp), 3500) + 6500;
    let nv8: i64 = fx_mul(noise_value, 800);
    proof {
        lemma_tdiv_mag((noise_value as int) * 800, SCALE as int, 8_000_000);
        assert(-8_000_000 <= (noise_value as int) * 800 <= 8_000_000);
        lemma_tdiv_mag((fx_sin_spec(sp as int)) * 3500, SCALE as int, 35_000_000);
    }
    let displacement: i64 = fx_mul(nv8, pulse);
    proof {
        assert(-8_000_000 <= (nv8 as int) * (pulse as int) <= 8_000_000) by (nonlinear_arith)
            requires
                -800 <= nv8 <= 800,
                0 <= pulse <= 10000,
        ;
        lemma_tdiv_mag((nv8 as int) * (pulse as int), SCALE as int, 8_000_000);
    }
    let dx: i64 = fx_mul(vertex.normal.x, displacement);
    let dy: i64 = fx_mul(vertex.normal.y, displacement);
    let dz: i64 = fx_mul(vertex.normal.z, displacement);
    proof {
        lemma_disp_prod(vertex.normal.x as int, displacement as int);
        lemma_disp_prod(vertex.normal.y as int, displacement as int);
        lemma_disp_prod(vertex.normal.z as int, displacement as int);
    }
    let displaced_position = Vec4Fx {
        x: vertex.position.x + dx,
        y: vertex.position.y + dy,
        z: vertex.position.z + dz,
        w: SCALE,
    };
    let pv = uniforms.projection_matrix.mul_mat4(&uniforms.view_matrix);
    let mvp = pv.mul_mat4(&uniforms.model_matrix);
    let transformed = mvp.mul_vec4(&displaced_position);
    if transformed.w == 0 {
        return None;
    }
    let ndc_position = Vec4Fx {
        x: fx_div_clamped(transformed.x, transformed.w, NDC_LIM),
        y: fx_div_clamped(transformed.y, transformed.w, NDC_LIM),
        z: fx_div_clamped(transformed.z, transformed.w, NDC_LIM),
        w: SCALE,
    };
    let screen_position = uniforms.viewport_matrix.mul_vec4(&ndc_position);
    proof {
        lemma_mat4_vec_bounded(
            uniforms.viewport_matrix,
            ndc_position,
            VIEWPORT_LIM as int,
            NDC_LIM as int,
        );
    }
    let model_mat3 = mat4_to_mat3(&uniforms.model_matrix);
    let normal_matrix = model_mat3.transpose().inverse_or_identity();
    let transformed_normal = normal_matrix.mul_vec3(&vertex.normal).clamp_to(ATTR_LIM);
    Some(
        Vertex {
            position: vertex.position,
            normal: vertex.normal,
            tex_coords: vertex.tex_coords,
            color: vertex.color,
            transformed_position: Vec3Fx {
                x: screen_position.x,
                y: screen_position.y,
                z: screen_position.z,
            },
            transformed_normal,
        },
    )
}

/// One fixed-point sample of each of the shading stage's three noise
/// layers: large-scale convection, mid-scale turbulence and fine-scale
/// spot granularity. Each value lies in one unit either way.
#[derive(Clone, Copy, Debug, PartialEq, Eq, Structural)]
pub struct NoiseSamples {
    pub base: i64,
    pub detail: i64,
    pub spots: i64,
}

/// The samples lie within one unit either way.
pub open spec fn samples_ok(s: NoiseSamples) -> bool {
    &&& -SCALE <= s.base <= SCALE
    &&& -SCALE <= s.detail <= SCALE
    &&& -SCALE <= s.spots <= SCALE
}

/// The three object-space points at which the shading stage samples the
/// noise source: the fragment position at spatial frequencies 2.2, 5 and
/// 9, pushed along the time axis at rates 0.18, 0.27 and -0.126.
pub open spec fn shading_sample_points_spec(pos: Vec3Fx, time: int) -> (Vec3Fx, Vec3Fx, Vec3Fx) {
    (
        Vec3Fx {
            x: fx_mul_spec(pos.x as int, 22000) as i64,
            y: fx_mul_spec(pos.y as int, 22000) as i64,
            z: (fx_mul_spec(pos.z as int, 22000) + fx_mul_spec(time, 1800)) as i64,
        },
        Vec3Fx {
            x: fx_mul_spec(pos.x as int, 50000) as i64,
            y: fx_mul_spec(pos.y as int, 50000) as i64,
            z: (fx_mul_spec(pos.z as int, 50000) + fx_mul_spec(time, 2700)) as i64,
        },
        Vec3Fx {
            x: fx_mul_spec(pos.x as int, 90000) as i64,
            y: fx_mul_spec(pos.y as int, 90000) as i64,
            z: (fx_mul_spec(pos.z as int, 90000) - fx_mul_spec(time, 1260)) as i64,
        },
    )
}

/// The points at which the shading stage samples the noise source.
pub fn shading_sample_points(pos: Vec3Fx, time: i64) -> (r: (Vec3Fx, Vec3Fx, Vec3Fx))
    requires
        vec3_bounded(pos, ATTR_LIM as int),
        -TIME_LIM <= time <= TIME_LIM,
    ensures
        r == shading_sample_points_spec(pos, time as int),
{
    (
        Vec3Fx {
            x: fx_mul(pos.x, 22000),
            y: fx_mul(pos.y, 22000),
            z: fx_mul(pos.z, 22000) + fx_mul(time, 1800),
        },
        Vec3Fx {
            x: fx_mul(pos.x, 50000),
            y: fx_mul(pos.y, 50000),
            z: fx_mul(pos.z, 50000) + fx_mul(time, 2700),
        },
        Vec3Fx {
            x: fx_mul(pos.x, 90000),
            y: fx_mul(pos.y, 90000),
            z: fx_mul(pos.z, 90000) - fx_mul(time, 1260),
        },
    )
}

/// The first brightness pulse: `sin(time * 2.2) * 0.5 + 0.5`.
pub open spec fn pulse1_spec(time: int) -> int {
    fx_mul_spec(fx_sin_spec(fx_mul_spec(time, 22000)), 5000) + 5000
}

/// The second brightness pulse: `cos(time * 3.3 + 1) * 0.5 + 0.5`.
pub open spec fn pulse2_spec(time: int) -> int {
    fx_mul_spec(fx_cos_spec(fx_mul_spec(time, 33000) + (SCALE as int)), 5000) + 5000
}

/// The three noise layers combined with weights 0.35, 0.35 and 0.30.
pub open spec fn combined_noise_spec(s: NoiseSamples) -> int {
    tdiv(35 * s.base + 35 * s.detail + 30 * s.spots, 100)
}

/// The power-law bias toward hot values: the three-eighths power,
/// computed exactly as a cube followed by three square roots.
pub open spec fn pow38_spec(x: int) -> int
    recommends
        0 <= x <= SCALE,
{
    fx_sqrt_spec(fx_sqrt_spec(fx_sqrt_spec(fx_mul_spec(fx_mul_spec(x, x), x))))
}

/// The shading temperature: combined noise remapped from one unit either
/// way into a unit interval, biased by the power law, clamped to the
/// unit interval.
pub open spec fn temperature_spec(s: NoiseSamples) -> int {
    let normalized = (combined_noise_spec(s) + (SCALE as int)) / 2;
    clamp_spec(pow38_spec(normalized), 0, SCALE as int)
}

/// The temperature modulated by the first pulse: a blend between 75 and
/// 100 percent of itself.
pub open spec fn temp_pulsed_spec(s: NoiseSamples, time: int) -> int {
    fx_mul_spec(temperature_spec(s), 7500 + fx_mul_spec(pulse1_spec(time), 2500))
}

/// One linearly interpolated channel of a color band: `start` at the
/// band's lower boundary, `start + delta` at its upper, truncated toward
/// zero.
pub open spec fn ramp_channel_spec(tp: int, lo: int, span: int, start: int, delta: int) -> int
    recommends
        span > 0,
{
    start + tdiv((tp - lo) * delta, span)
}

/// The seven-band piecewise-linear color ramp from white-hot through
/// yellow, orange and red down to dark spot tones.
pub open spec fn color_band_spec(tp: int) -> Color
    recommends
        0 <= tp <= SCALE,
{
    if tp > 8800 {
        Color { r: 255u8, g: 255u8, b: 248u8 }
    } else if tp > 7500 {
        Color {
            r: 255u8,
            g: ramp_channel_spec(tp, 7500, 1300, 242, -12) as u8,
            b: ramp_channel_spec(tp, 7500, 1300, 195, 53) as u8,
        }
    } else if tp > 6100 {
        Color {
            r: 255u8,
            g: ramp_channel_spec(tp, 6100, 1400, 210, 32) as u8,
            b: ramp_channel_spec(tp, 6100, 1400, 90, 105) as u8,
        }
    } else if tp > 4700 {
        Color {
            r: ramp_channel_spec(tp, 4700, 1400, 238, 17) as u8,
            g: ramp_channel_spec(tp, 4700, 1400, 165, 45) as u8,
            b: ramp_channel_spec(tp, 4700, 1400, 35, 55) as u8,
        }
    } else if tp > 3400 {
        Color {
            r: ramp_channel_spec(tp, 3400, 1300, 205, 33) as u8,
            g: ramp_channel_spec(tp, 3400, 1300, 115, 50) as u8,
            b: ramp_channel_spec(tp, 3400, 1300, 18, 17) as u8,
        }
    } else if tp > 2200 {
        Color {
            r: ramp_channel_spec(tp, 2200, 1200, 165, 40) as u8,
            g: ramp_channel_spec(tp, 2200, 1200, 60, 55) as u8,
            b: ramp_channel_spec(tp, 2200, 1200, 8, 10) as u8,
        }
    } else {
        Color {
            r: ramp_channel_spec(tp, 0, 2200, 80, 85) as u8,
            g: ramp_channel_spec(tp, 0, 2200, 15, 45) as u8,
            b: ramp_channel_spec(tp, 0, 2200, 3, 5) as u8,
        }
    }
}

/// At a band boundary the ramp below reaches its upper endpoint exactly,
/// so the output there is the boundary endpoint color with no rounding
/// residue. At every interior boundary that color also equals the next
/// band's lower endpoint, so the ramp is continuous everywhere except at
/// the white-hot cutoff.
pub proof fn lemma_band_boundary_exact()
    ensures
        color_band_spec(7500) == (Color { r: 255u8, g: 242u8, b: 195u8 }),
        color_band_spec(6100) == (Color { r: 255u8, g: 210u8, b: 90u8 }),
        color_band_spec(4700) == (Color { r: 238u8, g: 165u8, b: 35u8 }),
        color_band_spec(3400) == (Color { r: 205u8, g: 115u8, b: 18u8 }),
        color_band_spec(2200) == (Color { r: 165u8, g: 60u8, b: 8u8 }),
        color_band_spec(0) == (Color { r: 80u8, g: 15u8, b: 3u8 }),
{
}

/// The base emission of the four discrete temperature tiers.
pub open spec fn base_emission_spec(tp: int) -> int {
    if tp > 7500 {
        15000
    } else if tp > 5500 {
        11500
    } else if tp > 3500 {
        9000
    } else {
        6500
    }
}

/// The emission modulated by the second pulse: a blend between 92 and
/// 100 percent.
pub open spec fn emission_spec(tp: int, time: int) -> int {
    fx_mul_spec(base_emission_spec(tp), 9200 + fx_mul_spec(pulse2_spec(time), 800))
}

/// The limb-brightening edge term: one minus the magnitude of the
/// cosine between view direction and normal, raised to the
/// thirteen-fourths power — cube times fourth root, both exactly
/// computable — scaled by 0.3 and the first pulse.
pub open spec fn edge_glow_spec(f: Fragment, time: int) -> int {
    let view_dir = vec3_normalize_spec(f.vertex_position);
    let normal = vec3_normalize_spec(f.normal);
    let d = vec3_dot_spec(view_dir, normal);
    let ad = if d >= 0 {
        d
    } else {
        -d
    };
    let fres_base = clamp_spec((SCALE as int) - ad, 0, SCALE as int);
    let fresnel = fx_mul_spec(
        fx_mul_spec(fx_mul_spec(fres_base, fres_base), fres_base),
        fx_sqrt_spec(fx_sqrt_spec(fres_base)),
    );
    fx_mul_spec(fx_mul_spec(fresnel, 3000), pulse1_spec(time))
}

/// The full shading of one fragment: the band color of the pulsed
/// temperature, scaled by emission plus edge glow, saturating per
/// channel.
pub open spec fn fragment_shader_spec(f: Fragment, u: Uniforms, s: NoiseSamples) -> Color {
    let tp = temp_pulsed_spec(s, u.time as int);
    color_scale_spec(
        color_band_spec(tp),
        emission_spec(tp, u.time as int) + edge_glow_spec(f, u.time as int),
    )
}

/// One linearly interpolated channel of a color band.
fn ramp_channel(tp: i64, lo: i64, span: i64, start: i64, delta: i64) -> (r: u8)
    requires
        0 < span <= SCALE,
        0 <= tp - lo <= span,
        -255 <= delta <= 255,
        0 <= start <= 255,
        0 <= start + delta <= 255,
    ensures
        r == ramp_channel_spec(tp as int, lo as int, span as int, start as int, delta as int),
{
    let d: i64 = tp - lo;
    proof {
        assert(-2_550_000 <= (d as int) * (delta as int) <= 2_550_000) by (nonlinear_arith)
            requires
                0 <= d <= span <= 10000,
                -255 <= delta <= 255,
        ;
    }
    let num: i64 = d * delta;
    let q: i64 = tdiv_i128(num as i128, span as i128) as i64;
    proof {
        if delta >= 0 {
            assert(0 <= (d as int) * (delta as int) <= (span as int) * (delta as int))
                by (nonlinear_arith)
                requires
                    0 <= d <= span,
                    delta >= 0,
            ;
            assert(((span as int) * (delta as int)) / (span as int) == delta as int)
                by (nonlinear_arith)
                requires
                    span >= 1,
            ;
            assert(0 <= tdiv(num as int, span as int) <= delta as int) by {
                lemma_tdiv_mono_bound(num as int, (span as int) * (delta as int), span as int);
            };
        } else {
            assert((span as int) * (delta as int) <= (d as int) * (delta as int) <= 0)
                by (nonlinear_arith)
                requires
                    0 <= d <= span,
                    delta < 0,
            ;
            assert(((span as int) * (-(delta as int))) / (span as int) == -(delta as int))
                by (nonlinear_arith)
                requires
                    span >= 1,
            ;
            assert(-((span as int) * (delta as int)) == (span as int) * (-(delta as int)))
                by (nonlinear_arith);
            assert(delta as int <= tdiv(num as int, span as int) <= 0) by {
                lemma_tdiv_mono_bound(-(num as int), (span as int) * (-(delta as int)), span as int);
            };
        }
    }
    (start + q) as u8
}

/// A non-negative bound on a dividend carries to its truncated quotient.
proof fn lemma_tdiv_mono_bound(a: int, m: int, b: int)
    requires
        b >= 1,
        0 <= a <= m,
    ensures
        0 <= tdiv(a, b) <= m / b,
{
    assert(0 <= a / b <= m / b) by (nonlinear_arith)
        requires
            b >= 1,
            0 <= a <= m,
    ;
}

/// The seven-band color ramp.
pub fn color_band(tp: i64) -> (c: Color)
    requires
        0 <= tp <= SCALE,
    ensures
        c == color_band_spec(tp as int),
{
    if tp > 8800 {
        Color { r: 255, g: 255, b: 248 }
    } else if tp > 7500 {
        Color {
            r: 255,
            g: ramp_channel(tp, 7500, 1300, 242, -12),
            b: ramp_channel(tp, 7500, 1300, 195, 53),
        }
    } else if tp > 6100 {
        Color {
            r: 255,
            g: ramp_channel(tp, 6100, 1400, 210, 32),
            b: ramp_channel(tp, 6100, 1400, 90, 105),
        }
    } else if tp > 4700 {
        Color {
            r: ramp_channel(tp, 4700, 1400, 238, 17),
            g: ramp_channel(tp, 4700, 1400, 165, 45),
            b: ramp_channel(tp, 4700, 1400, 35, 55),
        }
    } else if tp > 3400 {
        Color {
            r: ramp_channel(tp, 3400, 1300, 205, 33),
            g: ramp_channel(tp, 3400, 1300, 115, 50),
            b: ramp_channel(tp, 3400, 1300, 18, 17),
        }
    } else if tp > 2200 {
        Color {
            r: ramp_channel(tp, 2200, 1200, 165, 40),
            g: ramp_channel(tp, 2200, 1200, 60, 55),
            b: ramp_channel(tp, 2200, 1200, 8, 10),
        }
    } else {
        Color {
            r: ramp_channel(tp, 0, 2200, 80, 85),
            g: ramp_channel(tp, 0, 2200, 15, 45),
            b: ramp_channel(tp, 0, 2200, 3, 5),
        }
    }
}

/// The three-eighths power on the unit interval.
fn pow38(x: i64) -> (r: i64)
    requires
        0 <= x <= SCALE,
    ensures
        r == pow38_spec(x as int),
        0 <= r <= SCALE,
{
    let c1: i64 = fx_mul(x, x);
    proof {
        lemma_unit_prod(x as int, x as int);
    }
    let c2: i64 = fx_mul(c1, x);
    proof {
        lemma_unit_prod(c1 as int, x as int);
    }
    let s1: i64 = fx_sqrt(c2);
    proof {
        lemma_unit_sqrt(c2 as int, s1 as int);
    }
    let s2: i64 = fx_sqrt(s1);
    proof {
        lemma_unit_sqrt(s1 as int, s2 as int);
    }
    let s3: i64 = fx_sqrt(s2);
    proof {
        lemma_unit_sqrt(s2 as int, s3 as int);
    }
    s3
}

/// The fixed-point product of two unit-interval values stays in the unit
/// interval.
proof fn lemma_unit_prod(a: int, b: int)
    requires
        0 <= a <= SCALE,
        0 <= b <= SCALE,
    ensures
        0 <= fx_mul_spec(a, b) <= SCALE,
{
    assert(0 <= a * b <= 100_000_000) by (nonlinear_arith)
        requires
            0 <= a <= 10_000,
            0 <= b <= 10_000,
    ;
    lemma_tdiv_mag(a * b, SCALE as int, 100_000_000);
    assert(tdiv(a * b, SCALE as int) >= 0) by (nonlinear_arith)
        requires
            a * b >= 0,
            SCALE == 10000,
    ;
}

/// A square root whose square is at most one square unit lies in the
/// unit interval.
proof fn lemma_unit_sqrt(a: int, r: int)
    requires
        0 <= a <= SCALE,
        r >= 0,
        r * r <= a * (SCALE as int),
    ensures
        r <= SCALE,
{
    assert(r <= SCALE) by (nonlinear_arith)
        requires
            r >= 0,
            r * r <= a * (SCALE as int),
            a <= SCALE,
            SCALE == 10000,
    ;
}

/// Shade one fragment: combine the three noise layers into a
/// temperature, map it through the color bands, and scale by the pulsed
/// emission plus the edge glow. A pure function of its inputs: equal
/// fragments, uniforms and samples give bit-identical colors.
pub fn fragment_shader(fragment: &Fragment, uniforms: &Uniforms, samples: &NoiseSamples) -> (c:
    Color)
    requires
        uniforms_ok(*uniforms),
        samples_ok(*samples),
        vec3_bounded(fragment.vertex_position, MUL_LIM as int),
        vec3_bounded(fragment.normal, MUL_LIM as int),
    ensures
        c == fragment_shader_spec(*fragment, *uniforms, *samples),
{
    let time: i64 = uniforms.time;
    let pulse1: i64 = fx_mul(fx_sin(fx_mul(time, 22000)), 5000) + 5000;
    let pulse2: i64 = fx_mul(fx_cos(fx_mul(time, 33000) + SCALE), 5000) + 5000;
    proof {
        lemma_half_pulse(fx_sin_spec(fx_mul_spec(time as int, 22000)));
        lemma_half_pulse(fx_cos_spec(fx_mul_spec(time as int, 33000) + (SCALE as int)));
    }
    let combined: i64 = tdiv_i128(
        (35 * samples.base + 35 * samples.detail + 30 * samples.spots) as i128,
        100,
    ) as i64;
    proof {
        lemma_tdiv_mag(
            35 * (samples.base as int) + 35 * (samples.detail as int) + 30 * (
            samples.spots as int),
            100,
            1_000_000,
        );
    }
    let normalized: i64 = (((combined + SCALE) as u64) / 2) as i64;
    let temperature: i64 = clamp_i64(pow38(normalized), 0, SCALE);
    let temp_factor: i64 = 7500 + fx_mul(pulse1, 2500);
    proof {
        lemma_quarter_blend(pulse1 as int);
    }
    let temp_pulsed: i64 = fx_mul(temperature, temp_factor);
    proof {
        lemma_unit_prod(temperature as int, temp_factor as int);
    }
    let color = color_band(temp_pulsed);
    let base_emission: i64 = if temp_pulsed > 7500 {
        15000
    } else if temp_pulsed > 5500 {
        11500
    } else if temp_pulsed > 3500 {
        9000
    } else {
        6500
    };
    let emission_factor: i64 = 9200 + fx_mul(pulse2, 800);
    proof {
        lemma_emission_blend(pulse2 as int);
    }
    let pulsating_emission: i64 = fx_mul(base_emission, emission_factor);
    proof {
        assert(0 <= (base_emission as int) * (emission_factor as int) <= 150_000_000)
            by (nonlinear_arith)
            requires
                0 <= base_emission <= 15000,
                0 <= emission_factor <= 10000,
        ;
        lemma_tdiv_mag((base_emission as int) * (emission_factor as int), SCALE as int, 150_000_000);
        assert(tdiv((base_emission as int) * (emission_factor as int), SCALE as int) >= 0)
            by (nonlinear_arith)
            requires
                (base_emission as int) * (emission_factor as int) >= 0,
                SCALE == 10000,
        ;
    }
    let view_dir = fragment.vertex_position.normalize_or_zero();
    let normal = fragment.normal.normalize_or_zero();
    let d: i64 = view_dir.dot(normal);
    proof {
        lemma_dot_sharp(view_dir, normal, SCALE as int, SCALE as int);
    }
    let ad: i64 = if d >= 0 {
        d
    } else {
        -d
    };
    let fres_base: i64 = clamp_i64(SCALE - ad, 0, SCALE);
    let f2: i64 = fx_mul(fres_base, fres_base);
    proof {
        lemma_unit_prod(fres_base as int, fres_base as int);
    }
    let f3: i64 = fx_mul(f2, fres_base);
    proof {
        lemma_unit_prod(f2 as int, fres_base as int);
    }
    let fr1: i64 = fx_sqrt(fres_base);
    proof {
        lemma_unit_sqrt(fres_base as int, fr1 as int);
    }
    let fr2: i64 = fx_sqrt(fr1);
    proof {
        lemma_unit_sqrt(fr1 as int, fr2 as int);
    }
    let fresnel: i64 = fx_mul(f3, fr2);
    proof {
        lemma_unit_prod(f3 as int, fr2 as int);
    }
    let f30: i64 = fx_mul(fresnel, 3000);
    proof {
        lemma_unit_prod(fresnel as int, 3000);
    }
    let edge_glow: i64 = fx_mul(f30, pulse1);
    proof {
        lemma_unit_prod(f30 as int, pulse1 as int);
    }
    color.scale_fx(pulsating_emission + edge_glow)
}

/// What the frame driver hands the framebuffer sink for one fragment:
/// pixel x, pixel y, depth, and the shaded color packed for storage.
pub open spec fn shaded_point_spec(f: Fragment, u: Uniforms, s: NoiseSamples) -> (
    i64,
    i64,
    i64,
    u32,
) {
    (f.x, f.y, f.depth, color_hex_spec(fragment_shader_spec(f, u, s)) as u32)
}

/// Shade a whole run of fragments against their noise samples, yielding
/// for each the tuple the framebuffer sink consumes; the sink is
/// responsible for bounds checks and the nearer-wins depth test.
pub fn shade_fragments(
    fragments: &Vec<Fragment>,
    uniforms: &Uniforms,
    samples: &Vec<NoiseSamples>,
) -> (out: Vec<(i64, i64, i64, u32)>)
    requires
        uniforms_ok(*uniforms),
        fragments@.len() == samples@.len(),
        forall|i: int|
            0 <= i < fragments@.len() ==> {
                &&& vec3_bounded((#[trigger] fragments@[i]).vertex_position, MUL_LIM as int)
                &&& vec3_bounded(fragments@[i].normal, MUL_LIM as int)
            },
        forall|i: int| 0 <= i < samples@.len() ==> samples_ok(#[trigger] samples@[i]),
    ensures
        out@.len() == fragments@.len(),
        forall|i: int|
            0 <= i < out@.len() ==> #[trigger] out@[i] == shaded_point_spec(
                fragments@[i],
                *uniforms,
                samples@[i],
            ),
{
    let mut out: Vec<(i64, i64, i64, u32)> = Vec::new();
    let n: usize = fragments.len();
    let mut i: usize = 0;
    while i < n
        invariant
            n == fragments@.len(),
            fragments@.len() == samples@.len(),
            uniforms_ok(*uniforms),
            forall|j: int|
                0 <= j < fragments@.len() ==> {
                    &&& vec3_bounded((#[trigger] fragments@[j]).vertex_position, MUL_LIM as int)
                    &&& vec3_bounded(fragments@[j].normal, MUL_LIM as int)
                },
            forall|j: int| 0 <= j < samples@.len() ==> samples_ok(#[trigger] samples@[j]),
            i <= n,
            out@.len() == i as int,
            forall|j: int|
                0 <= j < i as int ==> #[trigger] out@[j] == shaded_point_spec(
                    fragments@[j],
                    *uniforms,
                    samples@[j],
                ),
        decreases n - i,
    {
        let f = &fragments[i];
        let c = fragment_shader(f, uniforms, &samples[i]);
        out.push((f.x, f.y, f.depth, c.to_hex()));
        i = i + 1;
    }
    out
}

/// A half-amplitude pulse lies in the unit interval.
proof fn lemma_half_pulse(s: int)
    requires
        -SCALE <= s <= SCALE,
    ensures
        0 <= fx_mul_spec(s, 5000) + 5000 <= SCALE,
{
    lemma_tdiv_mag(s * 5000, SCALE as int, 50_000_000);
    assert(-50_000_000 <= s * 5000 <= 50_000_000);
}

/// The temperature blend factor lies between 0.75 and 1.
proof fn lemma_quarter_blend(p: int)
    requires
        0 <= p <= SCALE,
    ensures
        7500 <= 7500 + fx_mul_spec(p, 2500) <= SCALE,
{
    lemma_tdiv_mag(p * 2500, SCALE as int, 25_000_000);
    assert(0 <= p * 2500 <= 25_000_000);
    assert(tdiv(p * 2500, SCALE as int) >= 0) by (nonlinear_arith)
        requires
            p * 2500 >= 0,
            SCALE == 10000,
    ;
}

/// The emission blend factor lies between 0.92 and 1.
proof fn lemma_emission_blend(p: int)
    requires
        0 <= p <= SCALE,
    ensures
        9200 <= 9200 + fx_mul_spec(p, 800) <= SCALE,
{
    lemma_tdiv_mag(p * 800, SCALE as int, 8_000_000);
    assert(0 <= p * 800 <= 8_000_000);
    assert(tdiv(p * 800, SCALE as int) >= 0) by (nonlinear_arith)
        requires
            p * 800 >= 0,
            SCALE == 10000,
    ;
}

/// The displacement product of a bounded normal component stays small.
proof fn lemma_disp_prod(n: int, d: int)
    requires
        -VERT_LIM <= n <= VERT_LIM,
        -800 <= d <= 800,
    ensures
        -800_000 <= fx_mul_spec(n, d) <= 800_000,
{
    assert(-8_000_000_000 <= n * d <= 8_000_000_000) by (nonlinear_arith)
        requires
            -10_000_000 <= n <= 10_000_000,
            -800 <= d <= 800,
    ;
    lemma_tdiv_mag(n * d, SCALE as int, 8_000_000_000);
}

} // verus!
