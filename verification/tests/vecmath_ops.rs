//! Affine transform operations.

use graphics::fx::FX_ONE;
use graphics::vecmath::{
    identity, multiply, rotate_radians, scale, shear, transform_point, translate,
};

#[test]
fn identity_is_neutral_on_the_right() {
    let a = translate(5 * FX_ONE, -7 * FX_ONE);
    let i = identity();
    assert_eq!(multiply(&a, &i), a);
}

#[test]
fn identity_is_neutral_on_the_left() {
    let a = shear(FX_ONE / 2, -FX_ONE / 4);
    let i = identity();
    assert_eq!(multiply(&i, &a), a);
}

#[test]
fn identity_is_neutral_for_an_arbitrary_matrix() {
    let a: [i64; 6] = [123456, -654321, 42, 98765, -13, 7 * FX_ONE];
    let i = identity();
    assert_eq!(multiply(&a, &i), a);
    assert_eq!(multiply(&i, &a), a);
}

#[test]
fn translate_moves_a_point() {
    let t = translate(10 * FX_ONE, 20 * FX_ONE);
    let p = transform_point(&t, 3 * FX_ONE, 4 * FX_ONE);
    assert_eq!(p, (13 * FX_ONE, 24 * FX_ONE));
}

#[test]
fn scale_multiplies_a_point() {
    let s = scale(2 * FX_ONE, 3 * FX_ONE);
    let p = transform_point(&s, 5 * FX_ONE, -7 * FX_ONE);
    assert_eq!(p, (10 * FX_ONE, -21 * FX_ONE));
}

#[test]
fn zero_scale_collapses_a_point() {
    let s = scale(0, 0);
    let p = transform_point(&s, 5 * FX_ONE, -7 * FX_ONE);
    assert_eq!(p, (0, 0));
}

#[test]
fn shear_slants_a_point() {
    let s = shear(FX_ONE, 0);
    let p = transform_point(&s, 2 * FX_ONE, 3 * FX_ONE);
    assert_eq!(p, (5 * FX_ONE, 3 * FX_ONE));
}

#[test]
fn composition_applies_right_factor_first() {
    // Scale by 2, then translate by 10: x maps to 2 x + 10.
    let m = multiply(&translate(10 * FX_ONE, 0), &scale(2 * FX_ONE, 2 * FX_ONE));
    let p = transform_point(&m, 3 * FX_ONE, 1 * FX_ONE);
    assert_eq!(p, (16 * FX_ONE, 2 * FX_ONE));
}

#[test]
fn rotation_matrix_has_the_expected_shape() {
    let r = rotate_radians(0);
    // cos 0 is within a step of one, sin 0 is exactly zero.
    assert_eq!(r[1], 0);
    assert_eq!(r[2], 0);
    assert_eq!(r[3], 0);
    assert_eq!(r[5], 0);
    assert_eq!(r[0], r[4]);
    assert!(r[0] >= FX_ONE - 16 && r[0] <= FX_ONE);
}
