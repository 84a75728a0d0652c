//! Arithmetic and text rendering over fixed-point values.

use generative_art::fixed::{
    fx_abs, fx_add, fx_clamp, fx_cos, fx_div, fx_max, fx_min, fx_mul, fx_neg, fx_sin, fx_sqrt,
    fx_sub, FX_MAX, FX_MIN, FX_ONE, FX_TURN,

};
use generative_art::text::{push_dec, push_fx, push_fx_int, push_hex_byte};

#[test]
fn addition_and_subtraction() {
    assert_eq!(fx_add(65536, 65536), 131072);
    assert_eq!(fx_sub(65536, 131072), -65536);
    assert_eq!(fx_neg(65536), -65536);
}

#[test]
fn addition_saturates() {
    assert_eq!(fx_add(FX_MAX, FX_MAX), FX_MAX);
    assert_eq!(fx_sub(FX_MIN, FX_MAX), FX_MIN);
}

#[test]
fn multiplication_scales() {
    // 2.0 * 3.0 == 6.0
    assert_eq!(fx_mul(131072, 196608), 393216);
    // 0.5 * 0.5 == 0.25
    assert_eq!(fx_mul(32768, 32768), 16384);
    assert_eq!(fx_mul(FX_MAX, 131072), FX_MAX);
}

#[test]
fn division_scales() {
    // 6.0 / 3.0 == 2.0
    assert_eq!(fx_div(393216, 196608), 131072);
    // 1.0 / 0.0 saturates by sign instead of failing.
    assert_eq!(fx_div(65536, 0), FX_MAX);
    assert_eq!(fx_div(-65536, 0), FX_MIN);
    assert_eq!(fx_div(0, 0), 0);
}

#[test]
fn square_root() {
    // sqrt(4.0) == 2.0
    assert_eq!(fx_sqrt(262144), 131072);
    // sqrt(1.0) == 1.0
    assert_eq!(fx_sqrt(65536), 65536);
    assert_eq!(fx_sqrt(0), 0);
    assert_eq!(fx_sqrt(-65536), 0);
}

#[test]
fn sine_exact_at_cardinal_angles() {
    assert_eq!(fx_sin(0), 0);
    assert_eq!(fx_sin(16384), 65536);
    assert_eq!(fx_sin(32768), 0);
    assert_eq!(fx_sin(49152), -65536);
    assert_eq!(fx_cos(0), 65536);
    assert_eq!(fx_cos(16384), 0);
    assert_eq!(fx_cos(32768), -65536);
}

#[test]
fn sine_exact_at_diagonal_angles() {
    assert_eq!(fx_sin(8192), 46341);
    assert_eq!(fx_cos(8192), 46341);
    assert_eq!(fx_sin(24576), 46341);
    assert_eq!(fx_cos(24576), -46341);
}

#[test]
fn sine_wraps_whole_turns() {
    assert_eq!(fx_sin(65536 + 16384), fx_sin(16384));
    assert_eq!(fx_sin(-65536 + 8192), fx_sin(8192));
}

#[test]
fn decimal_rendering() {
    let mut s = String::new();
    push_dec(&mut s, 1234);
    assert_eq!(s, "1234");
    let mut s = String::new();
    push_dec(&mut s, 0);
    assert_eq!(s, "0");
}

#[test]
fn fixed_point_rendering() {
    let mut s = String::new();
    push_fx(&mut s, 98304);  // 1.5
    assert_eq!(s, "1.5000");
    let mut s = String::new();
    push_fx(&mut s, -65536);
    assert_eq!(s, "-1.0000");
    let mut s = String::new();
    push_fx(&mut s, 16384);  // 0.25
    assert_eq!(s, "0.2500");
}

#[test]
fn rounded_rendering() {
    let mut s = String::new();
    push_fx_int(&mut s, 98304);  // 1.5 rounds away from zero
    assert_eq!(s, "2");
    let mut s = String::new();
    push_fx_int(&mut s, 98303);  // just under 1.5
    assert_eq!(s, "1");
    let mut s = String::new();
    push_fx_int(&mut s, -98304);
    assert_eq!(s, "-2");
    let mut s = String::new();
    push_fx_int(&mut s, -100);
    assert_eq!(s, "0");
}

#[test]
fn ordering_helpers() {
    assert_eq!(fx_abs(-65536), 65536);
    assert_eq!(fx_abs(65536), 65536);
    assert_eq!(fx_min(3, -4), -4);
    assert_eq!(fx_max(3, -4), 3);
    assert_eq!(fx_clamp(200000, 0, FX_ONE), FX_ONE);
    assert_eq!(fx_clamp(-5, 0, FX_ONE), 0);
    assert_eq!(FX_TURN, 65536);
}

#[test]
fn hex_rendering() {
    let mut s = String::new();
    push_hex_byte(&mut s, 255);
    push_hex_byte(&mut s, 0);
    push_hex_byte(&mut s, 171);
    assert_eq!(s, "FF00AB");
}
