//! Fixed-point sine and cosine.
//!
//! Angles are fixed-point radians. The angle is first reduced modulo a
//! full turn; on each half turn the sine is approximated by the parabola
//! `4 / pi^2 * x * (pi - x)`, which meets the true sine at `0`, `pi / 2`
//! and `pi`. The result is clamped to `[-FX_ONE, FX_ONE]` so that every
//! caller can rely on the unit range.

use vstd::prelude::*;
use crate::fx::{FX_ONE, fx_mul, fx_mod, spec_fx_mul, lemma_fx_mul_bound};
use vstd::arithmetic::div_mod::{
    lemma_mod_division_less_than_divisor, lemma_add_mod_noop, lemma_small_mod,
};

verus! {

/// Half a turn in fixed-point radians.
pub const PI_FX: i64 = 205887;

/// A full turn in fixed-point radians.
pub const TWO_PI_FX: i64 = 411775;

/// A quarter turn in fixed-point radians.
pub const HALF_PI_FX: i64 = 102944;

/// `4 / pi^2` in fixed point: the peak factor of the parabola.
pub const FOUR_OVER_PI_SQ_FX: i64 = 26561;

/// The parabola approximating the sine on one half turn,
/// for `x` in `[0, PI_FX]`.
pub open spec fn spec_parabola(x: int) -> int {
    spec_fx_mul(spec_fx_mul(x, PI_FX as int - x), FOUR_OVER_PI_SQ_FX as int)
}

/// Clamps a scalar to the unit range.
pub open spec fn spec_clamp_unit(x: int) -> int {
    if x > FX_ONE as int {
        FX_ONE as int
    } else if x < -(FX_ONE as int) {
        -(FX_ONE as int)
    } else {
        x
    }
}

/// The fixed-point sine of an angle in fixed-point radians.
pub open spec fn spec_sin(theta: int) -> int {
    let t = theta % (TWO_PI_FX as int);
    if t < PI_FX as int {
        spec_clamp_unit(spec_parabola(t))
    } else {
        spec_clamp_unit(-spec_parabola(t - PI_FX as int))
    }
}

/// The fixed-point cosine: the sine shifted by a quarter turn.
pub open spec fn spec_cos(theta: int) -> int {
    spec_sin(theta + HALF_PI_FX as int)
}

/// Evaluates the parabola for `x` in `[0, PI_FX]`.
fn parabola(x: i64) -> (r: i64)
    requires
        0 <= x <= PI_FX,
    ensures
        r as int == spec_parabola(x as int),
        0 <= r <= 0x50000,
{
    proof {
        lemma_fx_mul_bound(x as int, PI_FX as int - x, PI_FX as int, PI_FX as int);
        lemma_fx_mul_bound(
            spec_fx_mul(x as int, PI_FX as int - x),
            FOUR_OVER_PI_SQ_FX as int,
            646813,
            FOUR_OVER_PI_SQ_FX as int,
        );
    }
    let p = fx_mul(x, PI_FX - x);
    let r = fx_mul(p, FOUR_OVER_PI_SQ_FX);
    proof {
        if r < 0 {
            vstd::arithmetic::div_mod::lemma_div_pos_is_pos(x as int * (PI_FX as int - x), FX_ONE as int);
            assert(x as int * (PI_FX as int - x) >= 0) by (nonlinear_arith)
                requires
                    0 <= x as int <= PI_FX as int,
            ;
            vstd::arithmetic::div_mod::lemma_div_pos_is_pos(
                spec_fx_mul(x as int, PI_FX as int - x) * (FOUR_OVER_PI_SQ_FX as int),
                FX_ONE as int,
            );
            assert(spec_fx_mul(x as int, PI_FX as int - x) * (FOUR_OVER_PI_SQ_FX as int) >= 0)
                by (nonlinear_arith)
                requires
                    spec_fx_mul(x as int, PI_FX as int - x) >= 0,
            ;
        }
    }
    r
}

/// Clamps a scalar to the unit range.
fn clamp_unit(x: i64) -> (r: i64)
    ensures
        r as int == spec_clamp_unit(x as int),
        -FX_ONE <= r <= FX_ONE,
{
    if x > FX_ONE {
        FX_ONE
    } else if x < -FX_ONE {
        -FX_ONE
    } else {
        x
    }
}

/// The fixed-point sine of an angle in fixed-point radians.
/// Total: every angle is reduced modulo a full turn first.
pub fn sin_fx(theta: i64) -> (r: i64)
    ensures
        r as int == spec_sin(theta as int),
        -FX_ONE <= r <= FX_ONE,
{
    let t = fx_mod(theta, TWO_PI_FX);
    if t < PI_FX {
        clamp_unit(parabola(t))
    } else {
        clamp_unit(-parabola(t - PI_FX))
    }
}

/// The fixed-point cosine of an angle in fixed-point radians.
/// Total: every angle is reduced modulo a full turn first.
pub fn cos_fx(theta: i64) -> (r: i64)
    ensures
        r as int == spec_cos(theta as int),
        -FX_ONE <= r <= FX_ONE,
{
    let t = fx_mod(theta, TWO_PI_FX);
    proof {
        lemma_mod_division_less_than_divisor(theta as int, TWO_PI_FX as int);
        lemma_small_mod(HALF_PI_FX as nat, TWO_PI_FX as nat);
        lemma_add_mod_noop(theta as int, HALF_PI_FX as int, TWO_PI_FX as int);
    }
    sin_fx(t + HALF_PI_FX)
}

} // verus!
