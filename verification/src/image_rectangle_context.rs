//! An image rectangle context.

use vstd::prelude::*;
use crate::{Field, Image};
use crate::image_rectangle_color_context::ImageRectangleColorContext;
use crate::internal::{Color, ColorComponent, Matrix2d, Rectangle};

verus! {

/// An image rectangle context.
#[derive(Clone, Copy)]
pub struct ImageRectangleContext<'a> {
    /// Base/original transformation.
    pub base: Field<'a, Matrix2d>,
    /// Current transformation.
    pub transform: Field<'a, Matrix2d>,
    /// Current rectangle.
    pub rect: Field<'a, Rectangle>,
    /// Current image.
    pub image: Field<'a, Image>,
}

impl<'a> ImageRectangleContext<'a> {
    /// Adds a color to the context.
    pub fn rgba(
        &'a self,
        r: ColorComponent,
        g: ColorComponent,
        b: ColorComponent,
        a: ColorComponent,
    ) -> (c: ImageRectangleColorContext<'a>)
        ensures
            c.base@ == self.base@,
            c.transform@ == self.transform@,
            c.rect@ == self.rect@,
            c.image@ == self.image@,
            (c.color@)@ == seq![r, g, b, a],
    {
        let color: Color = [r, g, b, a];
        proof {
            assert(color@ =~= seq![r, g, b, a]);
        }
        ImageRectangleColorContext {
            base: Field::Borrowed(self.base.get()),
            transform: Field::Borrowed(self.transform.get()),
            rect: Field::Borrowed(self.rect.get()),
            image: Field::Borrowed(self.image.get()),
            color: Field::Value(color),
        }
    }
}

} // verus!
