//! A line context.

use vstd::prelude::*;
use crate::Field;
use crate::internal::{Line, Matrix2d};
use crate::trig::{spec_cos, spec_sin};
use crate::vecmath::{
    MAT_LIMIT, mat_bounded, mat_view, multiply, rotate_radians, scale, shear, spec_multiply,
    spec_rotation, spec_scale, spec_shear, spec_translate, translate,
};

verus! {

/// A line context.
#[derive(Clone, Copy)]
pub struct LineContext<'a> {
    /// Base/original transform.
    pub base: Field<'a, Matrix2d>,
    /// Current transform.
    pub transform: Field<'a, Matrix2d>,
    /// Current line.
    pub line: Field<'a, Line>,
}

impl<'a> LineContext<'a> {
    /// Translates the current transform.
    pub fn trans(&'a self, x: i64, y: i64) -> (c: LineContext<'a>)
        requires
            mat_bounded(self.transform@),
            -MAT_LIMIT <= x <= MAT_LIMIT,
            -MAT_LIMIT <= y <= MAT_LIMIT,
        ensures
            c.base@ == self.base@,
            mat_view(c.transform@) == spec_multiply(
                spec_translate(x as int, y as int),
                mat_view(self.transform@),
            ),
            c.line@ == self.line@,
    {
        let trans = translate(x, y);
        LineContext {
            base: Field::Borrowed(self.base.get()),
            transform: Field::Value(multiply(&trans, self.transform.get())),
            line: Field::Borrowed(self.line.get()),
        }
    }

    /// Rotates the current transform by an angle in fixed-point
    /// radians.
    pub fn rot_rad(&'a self, angle: i64) -> (c: LineContext<'a>)
        requires
            mat_bounded(self.transform@),
        ensures
            c.base@ == self.base@,
            mat_view(c.transform@) == spec_multiply(
                spec_rotation(spec_cos(angle as int), spec_sin(angle as int)),
                mat_view(self.transform@),
            ),
            c.line@ == self.line@,
    {
        let rot = rotate_radians(angle);
        LineContext {
            base: Field::Borrowed(self.base.get()),
            transform: Field::Value(multiply(&rot, self.transform.get())),
            line: Field::Borrowed(self.line.get()),
        }
    }

    /// Scales the current transform.
    pub fn scale(&'a self, sx: i64, sy: i64) -> (c: LineContext<'a>)
        requires
            mat_bounded(self.transform@),
            -MAT_LIMIT <= sx <= MAT_LIMIT,
            -MAT_LIMIT <= sy <= MAT_LIMIT,
        ensures
            c.base@ == self.base@,
            mat_view(c.transform@) == spec_multiply(
                spec_scale(sx as int, sy as int),
                mat_view(self.transform@),
            ),
            c.line@ == self.line@,
    {
        let scale_mat = scale(sx, sy);
        LineContext {
            base: Field::Borrowed(self.base.get()),
            transform: Field::Value(multiply(&scale_mat, self.transform.get())),
            line: Field::Borrowed(self.line.get()),
        }
    }

    /// Shears the current transform.
    pub fn shear(&'a self, sx: i64, sy: i64) -> (c: LineContext<'a>)
        requires
            mat_bounded(self.transform@),
            -MAT_LIMIT <= sx <= MAT_LIMIT,
            -MAT_LIMIT <= sy <= MAT_LIMIT,
        ensures
            c.base@ == self.base@,
            mat_view(c.transform@) == spec_multiply(
                spec_shear(sx as int, sy as int),
                mat_view(self.transform@),
            ),
            c.line@ == self.line@,
    {
        let shear_mat = shear(sx, sy);
        LineContext {
            base: Field::Borrowed(self.base.get()),
            transform: Field::Value(multiply(&shear_mat, self.transform.get())),
            line: Field::Borrowed(self.line.get()),
        }
    }
}

} // verus!
