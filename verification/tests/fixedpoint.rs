use solar_render::fixed::{clamp_i64, fx_div_clamped, fx_mul, fx_sqrt, isqrt_u128, SCALE};

#[test]
fn multiply_is_exact_on_whole_units() {
    assert_eq!(fx_mul(2 * SCALE, 3 * SCALE), 6 * SCALE);
    assert_eq!(fx_mul(-2 * SCALE, 3 * SCALE), -6 * SCALE);
    assert_eq!(fx_mul(0, 12345), 0);
}

#[test]
fn multiply_truncates_toward_zero() {
    // 1.5 * 0.5 = 0.75 exactly; 0.0001 * 0.9999 truncates to 0.
    assert_eq!(fx_mul(15000, 5000), 7500);
    assert_eq!(fx_mul(1, 9999), 0);
    assert_eq!(fx_mul(-1, 9999), 0);
    // -1.5 * 0.3333 = -0.49995, truncated toward zero to -0.4999.
    assert_eq!(fx_mul(-15000, 3333), -4999);
}

#[test]
fn division_is_exact_and_saturates() {
    assert_eq!(fx_div_clamped(6 * SCALE, 3 * SCALE, 100 * SCALE), 2 * SCALE);
    assert_eq!(fx_div_clamped(SCALE, -2 * SCALE, 100 * SCALE), -5000);
    // 1 / 0.0001 = 10000, far past a limit of 2: saturates.
    assert_eq!(fx_div_clamped(SCALE, 1, 2 * SCALE), 2 * SCALE);
    assert_eq!(fx_div_clamped(-SCALE, 1, 2 * SCALE), -2 * SCALE);
}

#[test]
fn square_root_is_the_floor_root() {
    assert_eq!(isqrt_u128(0), 0);
    assert_eq!(isqrt_u128(1), 1);
    assert_eq!(isqrt_u128(3), 1);
    assert_eq!(isqrt_u128(4), 2);
    assert_eq!(isqrt_u128(99), 9);
    assert_eq!(isqrt_u128(100), 10);
    // sqrt(4.0) = 2.0 exactly; sqrt(2.0) = 1.4142 truncated.
    assert_eq!(fx_sqrt(4 * SCALE), 2 * SCALE);
    assert_eq!(fx_sqrt(2 * SCALE), 14142);
    assert_eq!(fx_sqrt(0), 0);
}

#[test]
fn clamping_pins_both_ends() {
    assert_eq!(clamp_i64(5, 0, 10), 5);
    assert_eq!(clamp_i64(-5, 0, 10), 0);
    assert_eq!(clamp_i64(15, 0, 10), 10);
}
