//! The orbit-and-zoom camera.
//!
//! The camera keeps spherical bookkeeping — yaw, pitch and radius around
//! a center — accumulated from orbit and zoom deltas; the eye position
//! the pipeline consumes is derived from that state. Orbiting wraps the
//! yaw around one turn and clamps the pitch just short of the poles;
//! zooming moves the eye along the line of sight by exactly the given
//! amount.

use vstd::prelude::*;
use crate::fixed::{SCALE, fx_mul, fx_mul_spec, clamp_spec, clamp_i64, lemma_tdiv_mag};
use crate::trig::{
    fx_sin,
    fx_cos,
    fx_sin_spec,
    fx_cos_spec,
    reduce_spec,
    reduce_angle,
    TAU_FX,
    HALF_PI_FX,
};
use crate::vec3::{Vec3Fx, vec3_bounded};

verus! {

/// Largest camera coordinate, radius or delta magnitude.
pub const CAM_RANGE: i64 = 1_000_000_000;

/// The pitch clamp margin: a tenth of a unit short of either pole.
pub const PITCH_MARGIN: i64 = 1000;

/// Spherical camera state around a center point.
#[derive(Clone, Copy, Debug, PartialEq, Eq, Structural)]
pub struct Camera {
    pub center: Vec3Fx,
    pub up: Vec3Fx,
    pub yaw: i64,
    pub pitch: i64,
    pub radius: i64,
}

/// The camera's state stays in the ranges the trigonometry accepts.
pub open spec fn camera_wf(c: Camera) -> bool {
    &&& vec3_bounded(c.center, CAM_RANGE as int)
    &&& vec3_bounded(c.up, CAM_RANGE as int)
    &&& 0 <= c.yaw < TAU_FX
    &&& -HALF_PI_FX <= c.pitch <= HALF_PI_FX
    &&& -CAM_RANGE <= c.radius <= CAM_RANGE
}

/// One orbit step: the yaw advanced and wrapped around one turn, the
/// pitch advanced and clamped short of the poles.
pub open spec fn camera_orbit_spec(c: Camera, delta_yaw: int, delta_pitch: int) -> Camera {
    Camera {
        yaw: reduce_spec(c.yaw + delta_yaw) as i64,
        pitch: clamp_spec(
            c.pitch + delta_pitch,
            -(HALF_PI_FX as int) + PITCH_MARGIN,
            (HALF_PI_FX as int) - PITCH_MARGIN,
        ) as i64,
        ..c
    }
}

/// One zoom step: the radius shortened by exactly the delta.
pub open spec fn camera_zoom_spec(c: Camera, delta: int) -> Camera {
    Camera { radius: (c.radius - delta) as i64, ..c }
}

/// The eye position the pipeline consumes, derived from the spherical
/// state.
pub open spec fn camera_eye_spec(c: Camera) -> Vec3Fx {
    let cp = fx_cos_spec(c.pitch as int);
    let sp = fx_sin_spec(c.pitch as int);
    let cy = fx_cos_spec(c.yaw as int);
    let sy = fx_sin_spec(c.yaw as int);
    let rcp = fx_mul_spec(c.radius as int, cp);
    Vec3Fx {
        x: (c.center.x + fx_mul_spec(rcp, cy)) as i64,
        y: (c.center.y - fx_mul_spec(c.radius as int, sp)) as i64,
        z: (c.center.z + fx_mul_spec(rcp, sy)) as i64,
    }
}

impl Camera {
    /// Build a camera from its center, up hint and spherical
    /// coordinates.
    pub fn new(center: Vec3Fx, up: Vec3Fx, yaw: i64, pitch: i64, radius: i64) -> (c: Camera)
        requires
            vec3_bounded(center, CAM_RANGE as int),
            vec3_bounded(up, CAM_RANGE as int),
            0 <= yaw < TAU_FX,
            -HALF_PI_FX <= pitch <= HALF_PI_FX,
            -CAM_RANGE <= radius <= CAM_RANGE,
        ensures
            c == (Camera { center, up, yaw, pitch, radius }),
            camera_wf(c),
    {
        Camera { center, up, yaw, pitch, radius }
    }

    /// Orbit: accumulate a yaw delta, wrapping around one turn, and a
    /// pitch delta, clamped short of the poles.
    pub fn orbit(&mut self, delta_yaw: i64, delta_pitch: i64)
        requires
            camera_wf(*old(self)),
            -CAM_RANGE <= delta_yaw <= CAM_RANGE,
            -CAM_RANGE <= delta_pitch <= CAM_RANGE,
        ensures
            *final(self) == camera_orbit_spec(*old(self), delta_yaw as int, delta_pitch as int),
            camera_wf(*final(self)),
    {
        self.yaw = reduce_angle(self.yaw + delta_yaw);
        self.pitch = clamp_i64(
            self.pitch + delta_pitch,
            -HALF_PI_FX + PITCH_MARGIN,
            HALF_PI_FX - PITCH_MARGIN,
        );
    }

    /// Zoom: move the eye toward the center by exactly `delta` (away for
    /// a negative delta).
    pub fn zoom(&mut self, delta: i64)
        requires
            camera_wf(*old(self)),
            -CAM_RANGE <= delta <= CAM_RANGE,
            -CAM_RANGE <= old(self).radius - delta <= CAM_RANGE,
        ensures
            *final(self) == camera_zoom_spec(*old(self), delta as int),
            camera_wf(*final(self)),
    {
        self.radius = self.radius - delta;
    }

    /// The eye position for the view matrix.
    pub fn eye(&self) -> (e: Vec3Fx)
        requires
            camera_wf(*self),
        ensures
            e == camera_eye_spec(*self),
            vec3_bounded(e, 2 * CAM_RANGE as int),
    {
        let cp: i64 = fx_cos(self.pitch);
        let sp: i64 = fx_sin(self.pitch);
        let cy: i64 = fx_cos(self.yaw);
        let sy: i64 = fx_sin(self.yaw);
        let rcp: i64 = fx_mul(self.radius, cp);
        proof {
            lemma_scaled_radius(self.radius as int, cp as int);
            lemma_scaled_radius(self.radius as int, sp as int);
        }
        let ex: i64 = self.center.x + fx_mul(rcp, cy);
        let ey: i64 = self.center.y - fx_mul(self.radius, sp);
        let ez: i64 = self.center.z + fx_mul(rcp, sy);
        proof {
            lemma_scaled_radius(rcp as int, cy as int);
            lemma_scaled_radius(rcp as int, sy as int);
        }
        Vec3Fx { x: ex, y: ey, z: ez }
    }
}

/// Zooming in and back out by the same amount restores the camera — and
/// with it the derived eye position — exactly.
pub proof fn lemma_zoom_round_trip(c: Camera, d: int)
    requires
        camera_wf(c),
        -CAM_RANGE <= d <= CAM_RANGE,
        -CAM_RANGE <= c.radius - d <= CAM_RANGE,
    ensures
        camera_zoom_spec(camera_zoom_spec(c, d), -d) == c,
        camera_eye_spec(camera_zoom_spec(camera_zoom_spec(c, d), -d)) == camera_eye_spec(c),
{
}

/// The radius scaled by a sine or cosine keeps the radius bound.
proof fn lemma_scaled_radius(r: int, t: int)
    requires
        -CAM_RANGE <= r <= CAM_RANGE,
        -SCALE <= t <= SCALE,
    ensures
        -CAM_RANGE <= fx_mul_spec(r, t) <= CAM_RANGE,
{
    assert(-10_000_000_000_000 <= r * t <= 10_000_000_000_000) by (nonlinear_arith)
        requires
            -1_000_000_000 <= r <= 1_000_000_000,
            -10_000 <= t <= 10_000,
    ;
    lemma_tdiv_mag(r * t, SCALE as int, 10_000_000_000_000);
}

} // verus!
