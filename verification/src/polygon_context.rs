//! A polygon context.

use vstd::prelude::*;
use crate::Field;
use crate::internal::{Color, ColorComponent, Matrix2d, Polygon};
use crate::polygon_color_context::PolygonColorContext;

verus! {

/// A polygon context.
#[derive(Clone, Copy)]
pub struct PolygonContext<'a, 'b> {
    /// Base/origin transform.
    pub base: Field<'a, Matrix2d>,
    /// Current transform.
    pub transform: Field<'a, Matrix2d>,
    /// Current polygon.
    pub polygon: Field<'a, Polygon<'b>>,
}

impl<'a, 'b> PolygonContext<'a, 'b> {
    /// Gets the current transformation.
    pub fn get_transform(&'a self) -> (r: &'a Matrix2d)
        ensures
            *r == self.transform@,
    {
        self.transform.get()
    }

    /// Returns a context with a new current transformation.
    pub fn transform(&'a self, value: Matrix2d) -> (c: PolygonContext<'a, 'b>)
        ensures
            c.base@ == self.base@,
            c.transform@ == value,
            c.polygon@ == self.polygon@,
    {
        PolygonContext {
            base: Field::Borrowed(self.base.get()),
            transform: Field::Value(value),
            polygon: Field::Borrowed(self.polygon.get()),
        }
    }

    /// Gets the base (view) transformation.
    pub fn get_view_transform(&'a self) -> (r: &'a Matrix2d)
        ensures
            *r == self.base@,
    {
        self.base.get()
    }

    /// Returns a context with a new base (view) transformation.
    pub fn view_transform(&'a self, value: Matrix2d) -> (c: PolygonContext<'a, 'b>)
        ensures
            c.base@ == value,
            c.transform@ == self.transform@,
            c.polygon@ == self.polygon@,
    {
        PolygonContext {
            base: Field::Value(value),
            transform: Field::Borrowed(self.transform.get()),
            polygon: Field::Borrowed(self.polygon.get()),
        }
    }

    /// Adds a color to the context.
    pub fn rgba(
        &'a self,
        r: ColorComponent,
        g: ColorComponent,
        b: ColorComponent,
        a: ColorComponent,
    ) -> (c: PolygonColorContext<'a, 'b>)
        ensures
            c.base@ == self.base@,
            c.transform@ == self.transform@,
            c.polygon@ == self.polygon@,
            (c.color@)@ == seq![r, g, b, a],
    {
        let color: Color = [r, g, b, a];
        proof {
            assert(color@ =~= seq![r, g, b, a]);
        }
        PolygonColorContext {
            base: Field::Borrowed(self.base.get()),
            transform: Field::Borrowed(self.transform.get()),
            color: Field::Value(color),
            polygon: Field::Borrowed(self.polygon.get()),
        }
    }
}

} // verus!
