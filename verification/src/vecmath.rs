//! 2D affine transforms over fixed-point scalars.
//!
//! A `Matrix2d` holds the six entries of a 2x3 affine matrix, row major.
//! Composition is matrix multiplication; the identity is its neutral
//! element. All operations are pure.

use vstd::prelude::*;
use crate::fx::{FX_ONE, fx_mul, spec_fx_mul, lemma_fx_mul_bound};
use crate::internal::{Matrix2d, ints_of};
use vstd::arithmetic::div_mod::{lemma_div_multiples_vanish, lemma_div_of0};

verus! {

/// Largest magnitude accepted for a matrix entry or a shape coordinate,
/// chosen so that the fixed-point products below stay inside `i64`.
pub const MAT_LIMIT: i64 = 0x8000_0000;

/// Largest magnitude accepted for a point pushed through a transform.
/// Local shape geometry (corner plus radius offsets) stays well below it.
pub const POINT_LIMIT: i64 = 0x10_0000_0000;

/// The mathematical value of a transform: its six entries as integers.
pub open spec fn mat_view(m: Matrix2d) -> Seq<int> {
    ints_of(m@)
}

/// All entries within `MAT_LIMIT`.
pub open spec fn mat_bounded(m: Matrix2d) -> bool {
    forall|i: int| 0 <= i < 6 ==> -MAT_LIMIT <= #[trigger] m@[i] <= MAT_LIMIT
}

/// The identity transform.
pub open spec fn spec_identity() -> Seq<int> {
    seq![FX_ONE as int, 0, 0, 0, FX_ONE as int, 0]
}

/// A translation by `(x, y)`.
pub open spec fn spec_translate(x: int, y: int) -> Seq<int> {
    seq![FX_ONE as int, 0, x, 0, FX_ONE as int, y]
}

/// A scaling by `(sx, sy)`.
pub open spec fn spec_scale(sx: int, sy: int) -> Seq<int> {
    seq![sx, 0, 0, 0, sy, 0]
}

/// A shear by `(sx, sy)`.
pub open spec fn spec_shear(sx: int, sy: int) -> Seq<int> {
    seq![FX_ONE as int, sx, 0, sy, FX_ONE as int, 0]
}

/// A rotation whose direction is the unit vector `(c, s)`.
pub open spec fn spec_rotation(c: int, s: int) -> Seq<int> {
    seq![c, -s, 0, s, c, 0]
}

/// The x coordinate of a transformed point.
pub open spec fn spec_transform_x(m: Seq<int>, x: int, y: int) -> int {
    spec_fx_mul(m[0], x) + spec_fx_mul(m[1], y) + m[2]
}

/// The y coordinate of a transformed point.
pub open spec fn spec_transform_y(m: Seq<int>, x: int, y: int) -> int {
    spec_fx_mul(m[3], x) + spec_fx_mul(m[4], y) + m[5]
}

/// The composition of two transforms: `spec_multiply(a, b)` applies `b`
/// first, then `a`.
pub open spec fn spec_multiply(a: Seq<int>, b: Seq<int>) -> Seq<int> {
    seq![
        spec_fx_mul(a[0], b[0]) + spec_fx_mul(a[1], b[3]),
        spec_fx_mul(a[0], b[1]) + spec_fx_mul(a[1], b[4]),
        spec_fx_mul(a[0], b[2]) + spec_fx_mul(a[1], b[5]) + a[2],
        spec_fx_mul(a[3], b[0]) + spec_fx_mul(a[4], b[3]),
        spec_fx_mul(a[3], b[1]) + spec_fx_mul(a[4], b[4]),
        spec_fx_mul(a[3], b[2]) + spec_fx_mul(a[4], b[5]) + a[5],
    ]
}

/// Multiplying a scalar by one changes nothing.
pub proof fn lemma_fx_mul_one(x: int)
    ensures
        spec_fx_mul(x, FX_ONE as int) == x,
        spec_fx_mul(FX_ONE as int, x) == x,
{
    lemma_div_multiples_vanish(x, FX_ONE as int);
    assert(x * (FX_ONE as int) == (FX_ONE as int) * x);
}

/// Multiplying a scalar by zero gives zero.
pub proof fn lemma_fx_mul_zero(x: int)
    ensures
        spec_fx_mul(x, 0) == 0,
        spec_fx_mul(0, x) == 0,
{
    lemma_div_of0(FX_ONE as int);
    assert(x * 0 == 0);
    assert(0 * x == 0);
}

/// The identity is the neutral element of composition: for every
/// transform `a`, `multiply(a, identity()) == a` and
/// `multiply(identity(), a) == a`.
pub proof fn lemma_multiply_identity(a: Seq<int>)
    requires
        a.len() == 6,
    ensures
        spec_multiply(a, spec_identity()) == a,
        spec_multiply(spec_identity(), a) == a,
{
    lemma_fx_mul_one(a[0]);
    lemma_fx_mul_one(a[1]);
    lemma_fx_mul_one(a[2]);
    lemma_fx_mul_one(a[3]);
    lemma_fx_mul_one(a[4]);
    lemma_fx_mul_one(a[5]);
    lemma_fx_mul_zero(a[0]);
    lemma_fx_mul_zero(a[1]);
    lemma_fx_mul_zero(a[2]);
    lemma_fx_mul_zero(a[3]);
    lemma_fx_mul_zero(a[4]);
    lemma_fx_mul_zero(a[5]);
    assert(spec_multiply(a, spec_identity()) =~= a);
    assert(spec_multiply(spec_identity(), a) =~= a);
}

/// Multiplies two matrix entries, with the bound needed by `multiply`.
fn fx_mul_mat(a: i64, b: i64) -> (r: i64)
    requires
        -MAT_LIMIT <= a <= MAT_LIMIT,
        -MAT_LIMIT <= b <= MAT_LIMIT,
    ensures
        r as int == spec_fx_mul(a as int, b as int),
        -0x4000_0000_0001 <= r <= 0x4000_0000_0000,
{
    proof {
        lemma_fx_mul_bound(a as int, b as int, MAT_LIMIT as int, MAT_LIMIT as int);
    }
    fx_mul(a, b)
}

/// Multiplies a matrix entry by a point coordinate, with the bound
/// needed by `transform_point`.
fn fx_mul_pt(a: i64, b: i64) -> (r: i64)
    requires
        -MAT_LIMIT <= a <= MAT_LIMIT,
        -POINT_LIMIT <= b <= POINT_LIMIT,
    ensures
        r as int == spec_fx_mul(a as int, b as int),
        -0x8_0000_0000_0001 <= r <= 0x8_0000_0000_0000,
{
    proof {
        lemma_fx_mul_bound(a as int, b as int, MAT_LIMIT as int, POINT_LIMIT as int);
    }
    fx_mul(a, b)
}

/// The identity transform.
pub fn identity() -> (r: Matrix2d)
    ensures
        mat_view(r) == spec_identity(),
        mat_bounded(r),
{
    let r: Matrix2d = [FX_ONE, 0, 0, 0, FX_ONE, 0];
    proof {
        assert(mat_view(r) =~= spec_identity());
    }
    r
}

/// A translation by `(x, y)`.
pub fn translate(x: i64, y: i64) -> (r: Matrix2d)
    ensures
        mat_view(r) == spec_translate(x as int, y as int),
        -MAT_LIMIT <= x <= MAT_LIMIT && -MAT_LIMIT <= y <= MAT_LIMIT ==> mat_bounded(r),
{
    let r: Matrix2d = [FX_ONE, 0, x, 0, FX_ONE, y];
    proof {
        assert(mat_view(r) =~= spec_translate(x as int, y as int));
    }
    r
}

/// A scaling by `(sx, sy)`. A degenerate scale (zero on an axis) is
/// permitted and collapses shapes; it is not an error.
pub fn scale(sx: i64, sy: i64) -> (r: Matrix2d)
    ensures
        mat_view(r) == spec_scale(sx as int, sy as int),
        -MAT_LIMIT <= sx <= MAT_LIMIT && -MAT_LIMIT <= sy <= MAT_LIMIT ==> mat_bounded(r),
{
    let r: Matrix2d = [sx, 0, 0, 0, sy, 0];
    proof {
        assert(mat_view(r) =~= spec_scale(sx as int, sy as int));
    }
    r
}

/// A shear by `(sx, sy)`.
pub fn shear(sx: i64, sy: i64) -> (r: Matrix2d)
    ensures
        mat_view(r) == spec_shear(sx as int, sy as int),
        -MAT_LIMIT <= sx <= MAT_LIMIT && -MAT_LIMIT <= sy <= MAT_LIMIT ==> mat_bounded(r),
{
    let r: Matrix2d = [FX_ONE, sx, 0, sy, FX_ONE, 0];
    proof {
        assert(mat_view(r) =~= spec_shear(sx as int, sy as int));
    }
    r
}

/// A rotation by an angle in fixed-point radians, counter-clockwise.
pub fn rotate_radians(theta: i64) -> (r: Matrix2d)
    ensures
        mat_view(r) == spec_rotation(
            crate::trig::spec_cos(theta as int),
            crate::trig::spec_sin(theta as int),
        ),
        mat_bounded(r),
{
    let c = crate::trig::cos_fx(theta);
    let s = crate::trig::sin_fx(theta);
    let r: Matrix2d = [c, -s, 0, s, c, 0];
    proof {
        assert(mat_view(r) =~= spec_rotation(
            crate::trig::spec_cos(theta as int),
            crate::trig::spec_sin(theta as int),
        ));
    }
    r
}

/// Composes two transforms: `multiply(a, b)` applies `b` first, then `a`.
pub fn multiply(a: &Matrix2d, b: &Matrix2d) -> (r: Matrix2d)
    requires
        mat_bounded(*a),
        mat_bounded(*b),
    ensures
        mat_view(r) == spec_multiply(mat_view(*a), mat_view(*b)),
{
    let e0 = fx_mul_mat(a[0], b[0]) + fx_mul_mat(a[1], b[3]);
    let e1 = fx_mul_mat(a[0], b[1]) + fx_mul_mat(a[1], b[4]);
    let e2 = fx_mul_mat(a[0], b[2]) + fx_mul_mat(a[1], b[5]) + a[2];
    let e3 = fx_mul_mat(a[3], b[0]) + fx_mul_mat(a[4], b[3]);
    let e4 = fx_mul_mat(a[3], b[1]) + fx_mul_mat(a[4], b[4]);
    let e5 = fx_mul_mat(a[3], b[2]) + fx_mul_mat(a[4], b[5]) + a[5];
    let r: Matrix2d = [e0, e1, e2, e3, e4, e5];
    proof {
        assert(mat_view(r) =~= spec_multiply(mat_view(*a), mat_view(*b)));
    }
    r
}

/// Pushes a point through a transform.
pub fn transform_point(m: &Matrix2d, x: i64, y: i64) -> (r: (i64, i64))
    requires
        mat_bounded(*m),
        -POINT_LIMIT <= x <= POINT_LIMIT,
        -POINT_LIMIT <= y <= POINT_LIMIT,
    ensures
        r.0 as int == spec_transform_x(mat_view(*m), x as int, y as int),
        r.1 as int == spec_transform_y(mat_view(*m), x as int, y as int),
{
    let rx = fx_mul_pt(m[0], x) + fx_mul_pt(m[1], y) + m[2];
    let ry = fx_mul_pt(m[3], x) + fx_mul_pt(m[4], y) + m[5];
    (rx, ry)
}

} // verus!
