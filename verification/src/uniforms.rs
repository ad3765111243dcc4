//! Per-frame uniforms and the builders of the four pipeline matrices.

use vstd::prelude::*;
use crate::fixed::{SCALE, fx_mul, fx_mul_spec, fx_div_clamped, fx_div_spec, clamp_spec};
use crate::trig::{fx_sin, fx_cos, fx_sin_spec, fx_cos_spec};
use crate::vec3::{Vec3Fx, vec3_bounded, vec3_minus_spec, vec3_normalize_spec, vec3_cross_spec, vec3_dot_spec, lemma_dot_sharp, lemma_cross_sharp};
use crate::mat::{
    Mat4Fx,
    Vec4Fx,
    mat4_bounded,
    mat4_mul_mat4_spec,
    MAT_LIM,
    lemma_mat4_mul_bounded,
};

verus! {

/// Largest time magnitude the pipeline accepts.
pub const TIME_LIM: i64 = 1_000_000_000;

/// Largest magnitude of a model translation or scale factor.
pub const MODEL_IN_LIM: i64 = 10_000_000;

/// Largest rotation-angle magnitude the model builder accepts.
pub const ROT_LIM: i64 = 1_000_000_000_000;

/// Entry bound guaranteed for a built model matrix.
pub const MODEL_LIM: i64 = 1_000_000_000;

/// Largest camera-vector component the view builder accepts.
pub const CAM_LIM: i64 = 1_000_000_000;

/// Entry bound for viewport matrices, and half the largest accepted
/// framebuffer dimension.
pub const VIEWPORT_LIM: i64 = 25_000_000;

/// Cotangent of half the 45-degree field of view.
pub const FOV_COT_FX: i64 = 24142;

/// Near plane distance.
pub const NEAR_FX: i64 = 1000;

/// Far plane distance.
pub const FAR_FX: i64 = 10_000_000;

/// One frame's frozen inputs: the four pipeline matrices and the scalar
/// time. Immutable for the duration of a frame; every stage only reads
/// it.
#[derive(Clone, Copy, Debug, PartialEq, Eq, Structural)]
pub struct Uniforms {
    pub model_matrix: Mat4Fx,
    pub view_matrix: Mat4Fx,
    pub projection_matrix: Mat4Fx,
    pub viewport_matrix: Mat4Fx,
    pub time: i64,
}

/// The ranges under which the pipeline stages accept a uniforms
/// snapshot.
pub open spec fn uniforms_ok(u: Uniforms) -> bool {
    &&& mat4_bounded(u.model_matrix, MODEL_LIM as int)
    &&& mat4_bounded(u.view_matrix, MAT_LIM as int)
    &&& mat4_bounded(u.projection_matrix, MAT_LIM as int)
    &&& mat4_bounded(u.viewport_matrix, VIEWPORT_LIM as int)
    &&& -TIME_LIM <= u.time <= TIME_LIM
}

/// Rotation about the x axis by an angle whose sine and cosine are
/// given.
pub open spec fn rot_x_spec(s: int, c: int) -> Mat4Fx {
    Mat4Fx {
        r0: Vec4Fx { x: SCALE, y: 0i64, z: 0i64, w: 0i64 },
        r1: Vec4Fx { x: 0i64, y: c as i64, z: (-s) as i64, w: 0i64 },
        r2: Vec4Fx { x: 0i64, y: s as i64, z: c as i64, w: 0i64 },
        r3: Vec4Fx { x: 0i64, y: 0i64, z: 0i64, w: SCALE },
    }
}

/// Rotation about the y axis.
pub open spec fn rot_y_spec(s: int, c: int) -> Mat4Fx {
    Mat4Fx {
        r0: Vec4Fx { x: c as i64, y: 0i64, z: s as i64, w: 0i64 },
        r1: Vec4Fx { x: 0i64, y: SCALE, z: 0i64, w: 0i64 },
        r2: Vec4Fx { x: (-s) as i64, y: 0i64, z: c as i64, w: 0i64 },
        r3: Vec4Fx { x: 0i64, y: 0i64, z: 0i64, w: SCALE },
    }
}

/// Rotation about the z axis.
pub open spec fn rot_z_spec(s: int, c: int) -> Mat4Fx {
    Mat4Fx {
        r0: Vec4Fx { x: c as i64, y: (-s) as i64, z: 0i64, w: 0i64 },
        r1: Vec4Fx { x: s as i64, y: c as i64, z: 0i64, w: 0i64 },
        r2: Vec4Fx { x: 0i64, y: 0i64, z: SCALE, w: 0i64 },
        r3: Vec4Fx { x: 0i64, y: 0i64, z: 0i64, w: SCALE },
    }
}

/// Uniform scale plus translation.
pub open spec fn scale_translate_spec(translation: Vec3Fx, scale_factor: i64) -> Mat4Fx {
    Mat4Fx {
        r0: Vec4Fx { x: scale_factor, y: 0i64, z: 0i64, w: translation.x },
        r1: Vec4Fx { x: 0i64, y: scale_factor, z: 0i64, w: translation.y },
        r2: Vec4Fx { x: 0i64, y: 0i64, z: scale_factor, w: translation.z },
        r3: Vec4Fx { x: 0i64, y: 0i64, z: 0i64, w: SCALE },
    }
}

/// The model matrix: rotations about z, y and x composed, then scaled
/// and translated.
pub open spec fn create_model_matrix_spec(
    translation: Vec3Fx,
    scale_factor: i64,
    rotation: Vec3Fx,
) -> Mat4Fx {
    let rx = rot_x_spec(fx_sin_spec(rotation.x as int), fx_cos_spec(rotation.x as int));
    let ry = rot_y_spec(fx_sin_spec(rotation.y as int), fx_cos_spec(rotation.y as int));
    let rz = rot_z_spec(fx_sin_spec(rotation.z as int), fx_cos_spec(rotation.z as int));
    let r = mat4_mul_mat4_spec(mat4_mul_mat4_spec(rz, ry), rx);
    mat4_mul_mat4_spec(scale_translate_spec(translation, scale_factor), r)
}

/// Build the model matrix from a translation, a uniform scale and
/// per-axis rotation angles.
pub fn create_model_matrix(translation: Vec3Fx, scale_factor: i64, rotation: Vec3Fx) -> (m: Mat4Fx)
    requires
        vec3_bounded(translation, MODEL_IN_LIM as int),
        -MODEL_IN_LIM <= scale_factor <= MODEL_IN_LIM,
        vec3_bounded(rotation, ROT_LIM as int),
    ensures
        m == create_model_matrix_spec(translation, scale_factor, rotation),
        mat4_bounded(m, MODEL_LIM as int),
{
    let sin_x: i64 = fx_sin(rotation.x);
    let cos_x: i64 = fx_cos(rotation.x);
    let sin_y: i64 = fx_sin(rotation.y);
    let cos_y: i64 = fx_cos(rotation.y);
    let sin_z: i64 = fx_sin(rotation.z);
    let cos_z: i64 = fx_cos(rotation.z);
    let rotation_matrix_x = Mat4Fx {
        r0: Vec4Fx { x: SCALE, y: 0, z: 0, w: 0 },
        r1: Vec4Fx { x: 0, y: cos_x, z: -sin_x, w: 0 },
        r2: Vec4Fx { x: 0, y: sin_x, z: cos_x, w: 0 },
        r3: Vec4Fx { x: 0, y: 0, z: 0, w: SCALE },
    };
    let rotation_matrix_y = Mat4Fx {
        r0: Vec4Fx { x: cos_y, y: 0, z: sin_y, w: 0 },
        r1: Vec4Fx { x: 0, y: SCALE, z: 0, w: 0 },
        r2: Vec4Fx { x: -sin_y, y: 0, z: cos_y, w: 0 },
        r3: Vec4Fx { x: 0, y: 0, z: 0, w: SCALE },
    };
    let rotation_matrix_z = Mat4Fx {
        r0: Vec4Fx { x: cos_z, y: -sin_z, z: 0, w: 0 },
        r1: Vec4Fx { x: sin_z, y: cos_z, z: 0, w: 0 },
        r2: Vec4Fx { x: 0, y: 0, z: SCALE, w: 0 },
        r3: Vec4Fx { x: 0, y: 0, z: 0, w: SCALE },
    };
    let zy = rotation_matrix_z.mul_mat4(&rotation_matrix_y);
    proof {
        lemma_mat4_mul_bounded(rotation_matrix_z, rotation_matrix_y, SCALE as int, SCALE as int);
    }
    let rotation_matrix = zy.mul_mat4(&rotation_matrix_x);
    proof {
        lemma_mat4_mul_bounded(zy, rotation_matrix_x, 40_000, SCALE as int);
    }
    let transform_matrix = Mat4Fx {
        r0: Vec4Fx { x: scale_factor, y: 0, z: 0, w: translation.x },
        r1: Vec4Fx { x: 0, y: scale_factor, z: 0, w: translation.y },
        r2: Vec4Fx { x: 0, y: 0, z: scale_factor, w: translation.z },
        r3: Vec4Fx { x: 0, y: 0, z: 0, w: SCALE },
    };
    let m = transform_matrix.mul_mat4(&rotation_matrix);
    proof {
        lemma_mat4_mul_bounded(transform_matrix, rotation_matrix, MODEL_IN_LIM as int, 160_000);
    }
    m
}

/// The right-handed look-at view matrix: orthonormal camera axes from
/// the forward direction and the up hint, with the eye projected onto
/// them as the translation column.
pub open spec fn create_view_matrix_spec(eye: Vec3Fx, center: Vec3Fx, up: Vec3Fx) -> Mat4Fx {
    let f = vec3_normalize_spec(vec3_minus_spec(center, eye));
    let s = vec3_normalize_spec(vec3_cross_spec(f, up));
    let u = vec3_cross_spec(s, f);
    Mat4Fx {
        r0: Vec4Fx { x: s.x, y: s.y, z: s.z, w: (-vec3_dot_spec(s, eye)) as i64 },
        r1: Vec4Fx { x: u.x, y: u.y, z: u.z, w: (-vec3_dot_spec(u, eye)) as i64 },
        r2: Vec4Fx {
            x: (-f.x) as i64,
            y: (-f.y) as i64,
            z: (-f.z) as i64,
            w: vec3_dot_spec(f, eye) as i64,
        },
        r3: Vec4Fx { x: 0i64, y: 0i64, z: 0i64, w: SCALE },
    }
}

/// Build the view matrix from the camera's eye, center and up vectors.
pub fn create_view_matrix(eye: Vec3Fx, center: Vec3Fx, up: Vec3Fx) -> (m: Mat4Fx)
    requires
        vec3_bounded(eye, CAM_LIM as int),
        vec3_bounded(center, CAM_LIM as int),
        vec3_bounded(up, CAM_LIM as int),
    ensures
        m == create_view_matrix_spec(eye, center, up),
        mat4_bounded(m, MAT_LIM as int),
{
    let f = center.minus(eye).normalize_or_zero();
    let s_raw = f.cross(up);
    proof {
        lemma_cross_sharp(f, up, SCALE as int, CAM_LIM as int);
    }
    let s = s_raw.normalize_or_zero();
    let u = s.cross(f);
    proof {
        lemma_cross_sharp(s, f, SCALE as int, SCALE as int);
    }
    let tx: i64 = -s.dot(eye);
    let ty: i64 = -u.dot(eye);
    let tz: i64 = f.dot(eye);
    proof {
        lemma_dot_sharp(s, eye, SCALE as int, CAM_LIM as int);
        lemma_dot_sharp(u, eye, 20_000, CAM_LIM as int);
        lemma_dot_sharp(f, eye, SCALE as int, CAM_LIM as int);
    }
    Mat4Fx {
        r0: Vec4Fx { x: s.x, y: s.y, z: s.z, w: tx },
        r1: Vec4Fx { x: u.x, y: u.y, z: u.z, w: ty },
        r2: Vec4Fx { x: -f.x, y: -f.y, z: -f.z, w: tz },
        r3: Vec4Fx { x: 0, y: 0, z: 0, w: SCALE },
    }
}

/// The perspective projection for a 45-degree field of view, the window
/// aspect ratio, and the fixed near and far planes.
pub open spec fn create_perspective_matrix_spec(window_width: i64, window_height: i64) -> Mat4Fx {
    let fh = fx_mul_spec(FOV_COT_FX as int, window_height as int);
    let m00 = clamp_spec(
        fx_div_spec(fh, window_width as int),
        -MAT_LIM as int,
        MAT_LIM as int,
    );
    let m22 = clamp_spec(
        fx_div_spec((FAR_FX + NEAR_FX) as int, (NEAR_FX - FAR_FX) as int),
        -MAT_LIM as int,
        MAT_LIM as int,
    );
    let f2 = fx_mul_spec(2 * FAR_FX as int, NEAR_FX as int);
    let m23 = clamp_spec(
        fx_div_spec(f2, (NEAR_FX - FAR_FX) as int),
        -MAT_LIM as int,
        MAT_LIM as int,
    );
    Mat4Fx {
        r0: Vec4Fx { x: m00 as i64, y: 0i64, z: 0i64, w: 0i64 },
        r1: Vec4Fx { x: 0i64, y: FOV_COT_FX, z: 0i64, w: 0i64 },
        r2: Vec4Fx { x: 0i64, y: 0i64, z: m22 as i64, w: m23 as i64 },
        r3: Vec4Fx { x: 0i64, y: 0i64, z: (-SCALE) as i64, w: 0i64 },
    }
}

/// Build the perspective matrix from the window dimensions.
pub fn create_perspective_matrix(window_width: i64, window_height: i64) -> (m: Mat4Fx)
    requires
        1 <= window_width <= 2 * VIEWPORT_LIM,
        1 <= window_height <= 2 * VIEWPORT_LIM,
    ensures
        m == create_perspective_matrix_spec(window_width, window_height),
        mat4_bounded(m, MAT_LIM as int),
{
    let fh: i64 = fx_mul(FOV_COT_FX, window_height);
    let m00: i64 = fx_div_clamped(fh, window_width, MAT_LIM);
    let m22: i64 = fx_div_clamped(FAR_FX + NEAR_FX, NEAR_FX - FAR_FX, MAT_LIM);
    let f2: i64 = fx_mul(2 * FAR_FX, NEAR_FX);
    let m23: i64 = fx_div_clamped(f2, NEAR_FX - FAR_FX, MAT_LIM);
    Mat4Fx {
        r0: Vec4Fx { x: m00, y: 0, z: 0, w: 0 },
        r1: Vec4Fx { x: 0, y: FOV_COT_FX, z: 0, w: 0 },
        r2: Vec4Fx { x: 0, y: 0, z: m22, w: m23 },
        r3: Vec4Fx { x: 0, y: 0, z: -SCALE, w: 0 },
    }
}

/// The viewport matrix: scale normalized device coordinates by half the
/// framebuffer size, flip the y axis, and translate to the center.
pub open spec fn create_viewport_matrix_spec(width: i64, height: i64) -> Mat4Fx {
    let hw = width as int / 2;
    let hh = height as int / 2;
    Mat4Fx {
        r0: Vec4Fx { x: hw as i64, y: 0i64, z: 0i64, w: hw as i64 },
        r1: Vec4Fx { x: 0i64, y: (-hh) as i64, z: 0i64, w: hh as i64 },
        r2: Vec4Fx { x: 0i64, y: 0i64, z: SCALE, w: 0i64 },
        r3: Vec4Fx { x: 0i64, y: 0i64, z: 0i64, w: SCALE },
    }
}

/// Build the viewport matrix from the framebuffer dimensions.
pub fn create_viewport_matrix(width: i64, height: i64) -> (m: Mat4Fx)
    requires
        0 <= width <= 2 * VIEWPORT_LIM,
        0 <= height <= 2 * VIEWPORT_LIM,
    ensures
        m == create_viewport_matrix_spec(width, height),
        mat4_bounded(m, VIEWPORT_LIM as int),
{
    let hw: i64 = ((width as u64) / 2) as i64;
    let hh: i64 = ((height as u64) / 2) as i64;
    Mat4Fx {
        r0: Vec4Fx { x: hw, y: 0, z: 0, w: hw },
        r1: Vec4Fx { x: 0, y: -hh, z: 0, w: hh },
        r2: Vec4Fx { x: 0, y: 0, z: SCALE, w: 0 },
        r3: Vec4Fx { x: 0, y: 0, z: 0, w: SCALE },
    }
}

} // verus!
