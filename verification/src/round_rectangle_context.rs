//! A rounded rectangle context.

use vstd::prelude::*;
use crate::Field;
use crate::internal::{Color, ColorComponent, Matrix2d, Radius, Rectangle};
use crate::round_rectangle_color_context::RoundRectangleColorContext;

verus! {

/// A rounded rectangle context.
#[derive(Clone, Copy)]
pub struct RoundRectangleContext<'a> {
    /// Base/original transformation.
    pub base: Field<'a, Matrix2d>,
    /// Current transformation.
    pub transform: Field<'a, Matrix2d>,
    /// Current rectangle.
    pub rect: Field<'a, Rectangle>,
    /// Current roundness radius.
    pub round_radius: Field<'a, Radius>,
}

impl<'a> RoundRectangleContext<'a> {
    /// Adds a color to the context.
    pub fn rgba(
        &'a self,
        r: ColorComponent,
        g: ColorComponent,
        b: ColorComponent,
        a: ColorComponent,
    ) -> (c: RoundRectangleColorContext<'a>)
        ensures
            c.base@ == self.base@,
            c.transform@ == self.transform@,
            c.rect@ == self.rect@,
            c.round_radius@ == self.round_radius@,
            (c.color@)@ == seq![r, g, b, a],
    {
        let color: Color = [r, g, b, a];
        proof {
            assert(color@ =~= seq![r, g, b, a]);
        }
        RoundRectangleColorContext {
            base: Field::Borrowed(self.base.get()),
            transform: Field::Borrowed(self.transform.get()),
            rect: Field::Borrowed(self.rect.get()),
            round_radius: Field::Borrowed(self.round_radius.get()),
            color: Field::Value(color),
        }
    }
}

} // verus!
