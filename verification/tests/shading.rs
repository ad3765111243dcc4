use solar_render::color::Color;
use solar_render::fixed::SCALE;
use solar_render::fragment::Fragment;
use solar_render::mat::Mat4Fx;
use solar_render::shaders::{color_band, fragment_shader, shade_fragments, shading_sample_points, NoiseSamples};
use solar_render::triangle::triangle;
use solar_render::uniforms::Uniforms;
use solar_render::vec3::Vec3Fx;
use solar_render::vertex::Vertex;

fn base_uniforms(time: i64) -> Uniforms {
    Uniforms {
        model_matrix: Mat4Fx::identity(),
        view_matrix: Mat4Fx::identity(),
        projection_matrix: Mat4Fx::identity(),
        viewport_matrix: Mat4Fx::identity(),
        time,
    }
}

fn origin_fragment() -> Fragment {
    Fragment::new(
        0,
        0,
        0,
        Color::new(255, 255, 255),
        Vec3Fx::zeros(),
        Vec3Fx::zeros(),
        SCALE,
    )
}

#[test]
fn shading_is_a_pure_function() {
    let u = base_uniforms(1234);
    let f = origin_fragment();
    let s = NoiseSamples { base: 3000, detail: -2000, spots: 9999 };
    let c1 = fragment_shader(&f, &u, &s);
    let c2 = fragment_shader(&f, &u, &s);
    assert_eq!(c1, c2);
}

#[test]
fn band_boundary_colors_are_exact() {
    // Each boundary value falls in the band below it and sits exactly at
    // that band's upper endpoint.
    assert_eq!(color_band(10000), Color::new(255, 255, 248));
    assert_eq!(color_band(8801), Color::new(255, 255, 248));
    assert_eq!(color_band(8800), Color::new(255, 230, 248));
    assert_eq!(color_band(7500), Color::new(255, 242, 195));
    assert_eq!(color_band(6100), Color::new(255, 210, 90));
    assert_eq!(color_band(4700), Color::new(238, 165, 35));
    assert_eq!(color_band(3400), Color::new(205, 115, 18));
    assert_eq!(color_band(2200), Color::new(165, 60, 8));
    assert_eq!(color_band(0), Color::new(80, 15, 3));
}

#[test]
fn cold_fragment_shades_to_dark_spot_tone() {
    // All three noise layers at their minimum drive the temperature to
    // zero: the darkest band color (80, 15, 3), scaled by the emission
    // 6500 * 0.9816 = 6380 plus the grazing-angle glow 1500 (both view
    // direction and normal normalize to zero at the origin), truncating
    // per channel.
    let u = base_uniforms(0);
    let f = origin_fragment();
    let s = NoiseSamples { base: -SCALE, detail: -SCALE, spots: -SCALE };
    let c = fragment_shader(&f, &u, &s);
    assert_eq!(c, Color::new(63, 11, 2));
}

#[test]
fn hot_fragment_saturates_to_white() {
    let u = base_uniforms(0);
    let f = origin_fragment();
    let s = NoiseSamples { base: SCALE, detail: SCALE, spots: SCALE };
    let c = fragment_shader(&f, &u, &s);
    assert_eq!(c, Color::new(255, 255, 255));
}

#[test]
fn sample_points_scale_position_and_time() {
    let pos = Vec3Fx::new(10000, -20000, 30000);
    let (base, detail, spots) = shading_sample_points(pos, 10000);
    // Frequencies 2.2, 5.0, 9.0; time rates 0.18, 0.27, -0.126 at t = 1.
    assert_eq!(base, Vec3Fx::new(22000, -44000, 66000 + 1800));
    assert_eq!(detail, Vec3Fx::new(50000, -100000, 150000 + 2700));
    assert_eq!(spots, Vec3Fx::new(90000, -180000, 270000 - 1260));
}

#[test]
fn color_scaling_saturates_per_channel() {
    let c = Color::new(100, 200, 255);
    assert_eq!(c.scale_fx(15000), Color::new(150, 255, 255));
    assert_eq!(c.scale_fx(0), Color::new(0, 0, 0));
    assert_eq!(c.scale_fx(SCALE), c);
}

#[test]
fn flat_triangle_shades_identically_on_every_pixel() {
    // End to end: a flat screen-space triangle with constant normal and
    // constant object-space position, rasterized and then shaded with
    // the noise source pinned at zero and time zero, colors every
    // covered pixel identically.
    let mut v1 = Vertex::new(Vec3Fx::zeros(), Vec3Fx::new(0, 0, SCALE), Vec3Fx::zeros());
    v1.transformed_normal = Vec3Fx::new(0, 0, SCALE);
    let mut v2 = v1;
    let mut v3 = v1;
    v1.transformed_position = Vec3Fx::new(0, 0, 0);
    v2.transformed_position = Vec3Fx::new(4 * SCALE, 0, 0);
    v3.transformed_position = Vec3Fx::new(0, 4 * SCALE, 0);
    let frags = triangle(&v1, &v2, &v3);
    assert!(!frags.is_empty());
    let u = base_uniforms(0);
    let zero_noise = NoiseSamples { base: 0, detail: 0, spots: 0 };
    let first = fragment_shader(&frags[0], &u, &zero_noise);
    for f in &frags {
        assert_eq!(fragment_shader(f, &u, &zero_noise), first);
    }
}

#[test]
fn shade_fragments_emits_one_sink_tuple_per_fragment() {
    let u = base_uniforms(0);
    let mut f1 = origin_fragment();
    f1.x = 2;
    f1.y = 5;
    f1.depth = 77;
    let mut f2 = origin_fragment();
    f2.x = 3;
    f2.y = 5;
    f2.depth = -4;
    let fragments = vec![f1, f2];
    let cold = NoiseSamples { base: -SCALE, detail: -SCALE, spots: -SCALE };
    let samples = vec![cold, cold];
    let out = shade_fragments(&fragments, &u, &samples);
    assert_eq!(out.len(), 2);
    // The cold samples shade to (63, 11, 2); see the single-fragment test.
    let hex = Color::new(63, 11, 2).to_hex();
    assert_eq!(out[0], (2, 5, 77, hex));
    assert_eq!(out[1], (3, 5, -4, hex));
}

#[test]
fn color_packs_to_hex() {
    assert_eq!(Color::new(255, 128, 1).to_hex(), 0xFF8001);
    assert_eq!(Color::new(0, 0, 0).to_hex(), 0);
    assert_eq!(Color::new(0, 0, 8).to_hex(), 8);
}
