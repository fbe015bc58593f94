use ray_tracing::color::Color;
use ray_tracing::fixed::{
    fx_add, fx_clamp01, fx_div, fx_from_int, fx_mul, fx_neg, fx_powi, fx_round_count, fx_sqrt,
    fx_sub, FX_MAX, FX_MIN, FX_ONE, FX_TWO,
};

#[test]
fn color_add_saturates() {
    let a = Color::new(250, 0, 0);
    let b = Color::new(10, 0, 0);
    assert_eq!(a.add(&b), Color::new(255, 0, 0));
}

#[test]
fn color_add_plain() {
    let a = Color::new(10, 20, 30);
    let b = Color::new(1, 2, 3);
    assert_eq!(a.add(&b), Color::new(11, 22, 33));
}

#[test]
fn color_mul_clamps() {
    let a = Color::new(100, 0, 0);
    assert_eq!(a.mul(3), Color::new(255, 0, 0));
}

#[test]
fn color_mul_plain_and_negative() {
    assert_eq!(Color::new(10, 20, 30).mul(2), Color::new(20, 40, 60));
    assert_eq!(Color::new(10, 20, 30).mul(-1), Color::new(0, 0, 0));
}

#[test]
fn color_scale_by_fixed_factor() {
    let a = Color::new(100, 50, 0);
    assert_eq!(a.scale(FX_ONE / 2), Color::new(50, 25, 0));
    assert_eq!(a.scale(FX_TWO), Color::new(200, 100, 0));
    assert_eq!(a.scale(-FX_ONE), Color::new(0, 0, 0));
    assert_eq!(Color::new(255, 255, 255).scale(FX_TWO), Color::new(255, 255, 255));
}

#[test]
fn hex_round_trip() {
    let c = Color::new(0x12, 0x34, 0x56);
    assert_eq!(c.to_hex(), 0x123456);
    assert_eq!(Color::from_hex(0x123456), c);
    assert_eq!(Color::from_hex(0xff123456).to_hex(), 0x123456);
}

#[test]
fn fixed_exact_arithmetic() {
    let two = 2 * FX_ONE;
    let three = 3 * FX_ONE;
    assert_eq!(fx_add(two, three), 5 * FX_ONE);
    assert_eq!(fx_sub(two, three), -FX_ONE);
    assert_eq!(fx_mul(two, three), 6 * FX_ONE);
    assert_eq!(fx_div(three, two), FX_ONE + FX_ONE / 2);
    assert_eq!(fx_from_int(7), 7 * FX_ONE);
    assert_eq!(fx_neg(three), -three);
}

#[test]
fn fixed_saturates() {
    assert_eq!(fx_add(FX_MAX, FX_MAX), FX_MAX);
    assert_eq!(fx_sub(FX_MIN, FX_ONE), FX_MIN);
    assert_eq!(fx_mul(FX_MAX, FX_TWO), FX_MAX);
    assert_eq!(fx_mul(FX_MIN, FX_TWO), FX_MIN);
    assert_eq!(fx_neg(i64::MIN), FX_MAX);
}

#[test]
fn fixed_division_by_zero_saturates_like_infinity() {
    assert_eq!(fx_div(5 * FX_ONE, 0), FX_MAX);
    assert_eq!(fx_div(-5 * FX_ONE, 0), FX_MIN);
    assert_eq!(fx_div(0, 0), 0);
}

#[test]
fn fixed_sqrt() {
    assert_eq!(fx_sqrt(4 * FX_ONE), 2 * FX_ONE);
    assert_eq!(fx_sqrt(FX_ONE), FX_ONE);
    assert_eq!(fx_sqrt(0), 0);
    assert_eq!(fx_sqrt(-FX_ONE), 0);
    // floor(sqrt(2) * 2^32)
    let expected = ((2.0f64).sqrt() * 4294967296.0).floor() as i64;
    assert_eq!(fx_sqrt(2 * FX_ONE), expected);
}

#[test]
fn fixed_powi() {
    assert_eq!(fx_powi(2 * FX_ONE, 0), FX_ONE);
    assert_eq!(fx_powi(2 * FX_ONE, 3), 8 * FX_ONE);
    assert_eq!(fx_powi(FX_ONE / 2, 2), FX_ONE / 4);
}

#[test]
fn fixed_rounding_and_clamping() {
    assert_eq!(fx_round_count(FX_ONE / 2), 1);
    assert_eq!(fx_round_count(-FX_ONE / 2), -1);
    assert_eq!(fx_round_count(FX_ONE / 2 - 1), 0);
    assert_eq!(fx_round_count(3 * FX_ONE), 3);
    assert_eq!(fx_clamp01(-5), 0);
    assert_eq!(fx_clamp01(FX_ONE + 1), FX_ONE);
    assert_eq!(fx_clamp01(FX_ONE / 3), FX_ONE / 3);
}
