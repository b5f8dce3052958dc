//! Fixed-point arithmetic and trigonometry.

use graphics::fx::{fx_div, fx_mod, fx_mul, half, FX_ONE};
use graphics::trig::{cos_fx, sin_fx, HALF_PI_FX, PI_FX, TWO_PI_FX};

#[test]
fn fx_mul_exact_product() {
    // 3 * 2 == 6 in fixed point.
    assert_eq!(fx_mul(3 * FX_ONE, 2 * FX_ONE), 6 * FX_ONE);
}

#[test]
fn fx_mul_rounds_toward_minus_infinity() {
    // -3 * 0.5 == -1.5, which floors to -98304 (= -1.5 in fixed point).
    assert_eq!(fx_mul(-3 * FX_ONE, FX_ONE / 2), -3 * FX_ONE / 2);
    // 1 unit times one step is one step.
    assert_eq!(fx_mul(FX_ONE, 1), 1);
    // -1 step times 1 unit stays -1 step.
    assert_eq!(fx_mul(-1, FX_ONE), -1);
    // Half a step floors to zero; minus half a step floors to -1.
    assert_eq!(fx_mul(1, FX_ONE / 2), 0);
    assert_eq!(fx_mul(-1, FX_ONE / 2), -1);
}

#[test]
fn fx_div_exact_quotient() {
    assert_eq!(fx_div(6 * FX_ONE, 2 * FX_ONE), 3 * FX_ONE);
    assert_eq!(fx_div(FX_ONE, 4 * FX_ONE), FX_ONE / 4);
}

#[test]
fn half_floors() {
    assert_eq!(half(10), 5);
    assert_eq!(half(-5), -3);
    assert_eq!(half(7), 3);
}

#[test]
fn fx_mod_is_nonnegative() {
    assert_eq!(fx_mod(7, 3), 1);
    assert_eq!(fx_mod(-7, 3), 2);
    assert_eq!(fx_mod(-6, 3), 0);
}

#[test]
fn sine_at_zero_and_half_turns() {
    assert_eq!(sin_fx(0), 0);
    // At half a turn the parabola returns to zero.
    assert_eq!(sin_fx(PI_FX), 0);
    // The sine is periodic: a full turn changes nothing.
    assert_eq!(sin_fx(TWO_PI_FX), sin_fx(0));
    assert_eq!(sin_fx(HALF_PI_FX + TWO_PI_FX), sin_fx(HALF_PI_FX));
}

#[test]
fn sine_peak_is_within_a_step_of_one() {
    let peak = sin_fx(HALF_PI_FX);
    assert!(peak <= FX_ONE);
    assert!(peak >= FX_ONE - 16);
}

#[test]
fn sine_is_odd_around_the_half_turn() {
    // The second half turn mirrors the first.
    let a = sin_fx(HALF_PI_FX);
    let b = sin_fx(PI_FX + HALF_PI_FX);
    assert_eq!(a, -b);
}

#[test]
fn cosine_is_the_shifted_sine() {
    assert_eq!(cos_fx(0), sin_fx(HALF_PI_FX));
    assert_eq!(cos_fx(PI_FX), sin_fx(PI_FX + HALF_PI_FX));
    // The cosine stays within the unit range.
    assert!(cos_fx(0) <= FX_ONE && cos_fx(0) >= FX_ONE - 16);
}
