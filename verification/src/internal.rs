//! The internal shape and style types shared by the tessellators,
//! the dispatch layer and the context builders.
//!
//! Every scalar is a fixed-point number: an `i64` counting steps of
//! `1 / fx::FX_ONE` of a unit.

use vstd::prelude::*;

verus! {

/// A fixed-point scalar.
pub type Scalar = i64;

/// A color component in fixed point: `fx::FX_ONE` is full intensity.
/// Components are not clamped by this layer; out-of-range values
/// propagate unchanged.
pub type ColorComponent = i64;

/// A 2x3 affine transform, row major:
/// `[a, b, c, d, e, f]` maps `(x, y)` to `(a x + b y + c, d x + e y + f)`.
pub type Matrix2d = [i64; 6];

/// A color `[r, g, b, a]`; `fx::FX_ONE` is full intensity or full opacity.
pub type Color = [i64; 4];

/// A rectangle `[x, y, w, h]` in local shape space, pre-transform.
pub type Rectangle = [i64; 4];

/// A line `[x1, y1, x2, y2]` in local shape space.
pub type Line = [i64; 4];

/// A corner or bevel radius in local units.
pub type Radius = i64;

/// A source rectangle `[x, y, w, h]` in texture pixel space.
pub type PixelRectangle = [u32; 4];

/// A polygon: an ordered sequence of 2D points, flattened as
/// `[x0, y0, x1, y1, ...]`, open and implicitly closed by the tessellator.
pub type Polygon<'a> = &'a [i64];

/// The mathematical value of a scalar buffer.
pub open spec fn ints_of(s: Seq<i64>) -> Seq<int> {
    s.map_values(|v: i64| v as int)
}

} // verus!
