use solar_render::camera::Camera;
use solar_render::fixed::SCALE;
use solar_render::mat::{Mat3Fx, Mat4Fx, Vec4Fx};
use solar_render::obj::{FaceVertex, Obj};
use solar_render::shaders::{vertex_noise_point, vertex_shader};
use solar_render::trig::{fx_cos, fx_sin, HALF_PI_FX, PI_FX, TAU_FX};
use solar_render::uniforms::{
    create_model_matrix,
    create_perspective_matrix,
    create_viewport_matrix,
    create_view_matrix,
    Uniforms,
    FOV_COT_FX,
};
use solar_render::vec3::Vec3Fx;
use solar_render::vertex::Vertex;

#[test]
fn sine_hits_the_exact_cardinal_points() {
    assert_eq!(fx_sin(0), 0);
    assert_eq!(fx_sin(HALF_PI_FX), SCALE);
    assert_eq!(fx_sin(PI_FX), 0);
    assert_eq!(fx_sin(PI_FX + HALF_PI_FX), -SCALE);
    assert_eq!(fx_sin(TAU_FX), 0);
    assert_eq!(fx_sin(-HALF_PI_FX), -SCALE);
    assert_eq!(fx_cos(0), SCALE);
    assert_eq!(fx_cos(PI_FX), -SCALE);
}

#[test]
fn identity_transform_maps_to_viewport_center_scale() {
    // Unit-scale model, identity view and projection, an 800 by 600
    // viewport: the point (1, 0, 0) lands on the right edge at the
    // vertical center.
    let u = Uniforms {
        model_matrix: create_model_matrix(Vec3Fx::zeros(), SCALE, Vec3Fx::zeros()),
        view_matrix: Mat4Fx::identity(),
        projection_matrix: Mat4Fx::identity(),
        viewport_matrix: create_viewport_matrix(800 * SCALE, 600 * SCALE),
        time: 0,
    };
    let v = Vertex::new(Vec3Fx::new(SCALE, 0, 0), Vec3Fx::new(0, 0, SCALE), Vec3Fx::zeros());
    let out = vertex_shader(&v, &u, 0).expect("w is nonzero");
    assert_eq!(out.transformed_position, Vec3Fx::new(800 * SCALE, 300 * SCALE, 0));
    assert_eq!(out.transformed_normal, Vec3Fx::new(0, 0, SCALE));
    assert_eq!(out.position, v.position);
    assert_eq!(out.normal, v.normal);
}

#[test]
fn zero_homogeneous_w_yields_nothing() {
    let zero = Mat4Fx::new(0, 0, 0, 0, 0, 0, 0, 0, 0, 0, 0, 0, 0, 0, 0, 0);
    let u = Uniforms {
        model_matrix: Mat4Fx::identity(),
        view_matrix: Mat4Fx::identity(),
        projection_matrix: zero,
        viewport_matrix: Mat4Fx::identity(),
        time: 0,
    };
    let v = Vertex::new(Vec3Fx::new(SCALE, 0, 0), Vec3Fx::new(0, 0, SCALE), Vec3Fx::zeros());
    assert!(vertex_shader(&v, &u, 0).is_none());
}

#[test]
fn model_matrix_without_rotation_is_scale_and_translation() {
    let t = Vec3Fx::new(10000, 20000, 30000);
    let m = create_model_matrix(t, 12 * SCALE, Vec3Fx::zeros());
    assert_eq!(m.r0, Vec4Fx { x: 12 * SCALE, y: 0, z: 0, w: 10000 });
    assert_eq!(m.r1, Vec4Fx { x: 0, y: 12 * SCALE, z: 0, w: 20000 });
    assert_eq!(m.r2, Vec4Fx { x: 0, y: 0, z: 12 * SCALE, w: 30000 });
    assert_eq!(m.r3, Vec4Fx { x: 0, y: 0, z: 0, w: SCALE });
}

#[test]
fn view_matrix_looking_down_negative_z_is_identity_like() {
    // Eye on the +z axis looking at the origin with +y up: the camera
    // axes are the world axes and the translation is the negated eye.
    let eye = Vec3Fx::new(0, 0, 85 * SCALE);
    let m = create_view_matrix(eye, Vec3Fx::zeros(), Vec3Fx::new(0, SCALE, 0));
    assert_eq!(m.r0, Vec4Fx { x: SCALE, y: 0, z: 0, w: 0 });
    assert_eq!(m.r1, Vec4Fx { x: 0, y: SCALE, z: 0, w: 0 });
    assert_eq!(m.r2, Vec4Fx { x: 0, y: 0, z: SCALE, w: -85 * SCALE });
    assert_eq!(m.r3, Vec4Fx { x: 0, y: 0, z: 0, w: SCALE });
}

#[test]
fn perspective_matrix_square_window() {
    let m = create_perspective_matrix(600 * SCALE, 600 * SCALE);
    // Square aspect: both focal entries are the cotangent of half the
    // field of view; the depth row uses the 0.1 and 1000 planes.
    assert_eq!(m.r0.x, FOV_COT_FX);
    assert_eq!(m.r1.y, FOV_COT_FX);
    assert_eq!(m.r2.z, -10002);
    assert_eq!(m.r2.w, -2000);
    assert_eq!(m.r3.z, -SCALE);
}

#[test]
fn viewport_matrix_scales_and_flips() {
    let m = create_viewport_matrix(800 * SCALE, 600 * SCALE);
    assert_eq!(m.r0, Vec4Fx { x: 400 * SCALE, y: 0, z: 0, w: 400 * SCALE });
    assert_eq!(m.r1, Vec4Fx { x: 0, y: -300 * SCALE, z: 0, w: 300 * SCALE });
    assert_eq!(m.r2, Vec4Fx { x: 0, y: 0, z: SCALE, w: 0 });
}

#[test]
fn singular_model_block_falls_back_to_identity_normals() {
    let m = Mat3Fx {
        r0: Vec3Fx::new(SCALE, 0, 0),
        r1: Vec3Fx::new(2 * SCALE, 0, 0),
        r2: Vec3Fx::new(0, 0, 0),
    };
    let inv = m.inverse_or_identity();
    assert_eq!(inv, Mat3Fx::identity());
}

#[test]
fn noise_point_scales_by_frequency_and_time() {
    let p = vertex_noise_point(Vec3Fx::new(10000, 20000, 30000), 10000);
    // Frequency 1.5 and time rate 0.3 at t = 1.
    assert_eq!(p, Vec3Fx::new(15000, 30000, 45000 + 3000));
}

#[test]
fn mesh_expansion_resolves_indices_and_zeroes_missing_ones() {
    let obj = Obj {
        vertices: vec![Vec3Fx::new(1, 2, 3), Vec3Fx::new(4, 5, 6)],
        normals: vec![Vec3Fx::new(0, 0, SCALE)],
        texcoords: vec![],
        faces: vec![(
            FaceVertex { position: 1, texcoord: 0, normal: 1 },
            FaceVertex { position: 2, texcoord: 0, normal: 1 },
            // An out-of-range position and normal resolve to zero.
            FaceVertex { position: 9, texcoord: 3, normal: 0 },
        )],
    };
    let out = obj.get_vertex_array();
    assert_eq!(out.len(), 3);
    assert_eq!(out[0].position, Vec3Fx::new(1, 2, 3));
    assert_eq!(out[0].normal, Vec3Fx::new(0, 0, SCALE));
    assert_eq!(out[0].tex_coords, Vec3Fx::zeros());
    assert_eq!(out[0].color, Vec3Fx::new(SCALE, SCALE, SCALE));
    assert_eq!(out[0].transformed_position, Vec3Fx::zeros());
    assert_eq!(out[1].position, Vec3Fx::new(4, 5, 6));
    assert_eq!(out[2].position, Vec3Fx::zeros());
    assert_eq!(out[2].normal, Vec3Fx::zeros());
}

#[test]
fn camera_zoom_round_trip_restores_eye() {
    let mut c = Camera::new(Vec3Fx::zeros(), Vec3Fx::new(0, SCALE, 0), 0, 0, 85 * SCALE);
    let eye_before = c.eye();
    c.zoom(15000);
    assert_eq!(c.radius, 85 * SCALE - 15000);
    c.zoom(-15000);
    assert_eq!(c.radius, 85 * SCALE);
    assert_eq!(c.eye(), eye_before);
}

#[test]
fn camera_orbit_wraps_yaw_and_clamps_pitch() {
    let mut c = Camera::new(Vec3Fx::zeros(), Vec3Fx::new(0, SCALE, 0), 0, 0, SCALE);
    c.orbit(-1000, 0);
    assert_eq!(c.yaw, TAU_FX - 1000);
    c.orbit(2000, HALF_PI_FX);
    assert_eq!(c.yaw, 1000);
    assert_eq!(c.pitch, HALF_PI_FX - 1000);
    c.orbit(0, -TAU_FX);
    assert_eq!(c.pitch, -(HALF_PI_FX - 1000));
}

#[test]
fn camera_eye_lies_on_the_sphere_axes() {
    // Yaw zero, pitch zero: the eye sits on the +x axis at the radius.
    let c = Camera::new(Vec3Fx::zeros(), Vec3Fx::new(0, SCALE, 0), 0, 0, 85 * SCALE);
    assert_eq!(c.eye(), Vec3Fx::new(85 * SCALE, 0, 0));
    // Yaw a quarter turn: the eye moves to the +z axis.
    let c2 = Camera::new(Vec3Fx::zeros(), Vec3Fx::new(0, SCALE, 0), HALF_PI_FX, 0, 85 * SCALE);
    assert_eq!(c2.eye(), Vec3Fx::new(0, 0, 85 * SCALE));
}
