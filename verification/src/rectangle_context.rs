//! A rectangle context.

use vstd::prelude::*;
use crate::{Field, Image};
use crate::bevel_rectangle_context::BevelRectangleContext;
use crate::image_rectangle_context::ImageRectangleContext;
use crate::internal::{ColorComponent, Matrix2d, Radius, Rectangle};
use crate::rectangle_color_context::RectangleColorContext;
use crate::round_rectangle_context::RoundRectangleContext;

verus! {

/// A rectangle context.
#[derive(Clone, Copy)]
pub struct RectangleContext<'a> {
    /// Base/original transformation.
    pub base: Field<'a, Matrix2d>,
    /// Current transformation.
    pub transform: Field<'a, Matrix2d>,
    /// Current rectangle.
    pub rect: Field<'a, Rectangle>,
}

impl<'a> RectangleContext<'a> {
    /// Gets the current transformation.
    pub fn get_transform(&'a self) -> (r: &'a Matrix2d)
        ensures
            *r == self.transform@,
    {
        self.transform.get()
    }

    /// Returns a context with a new current transformation.
    pub fn transform(&'a self, value: Matrix2d) -> (c: RectangleContext<'a>)
        ensures
            c.base@ == self.base@,
            c.transform@ == value,
            c.rect@ == self.rect@,
    {
        RectangleContext {
            base: Field::Borrowed(self.base.get()),
            transform: Field::Value(value),
            rect: Field::Borrowed(self.rect.get()),
        }
    }

    /// Gets the base (view) transformation.
    pub fn get_view_transform(&'a self) -> (r: &'a Matrix2d)
        ensures
            *r == self.base@,
    {
        self.base.get()
    }

    /// Returns a context with a new base (view) transformation.
    pub fn view_transform(&'a self, value: Matrix2d) -> (c: RectangleContext<'a>)
        ensures
            c.base@ == value,
            c.transform@ == self.transform@,
            c.rect@ == self.rect@,
    {
        RectangleContext {
            base: Field::Value(value),
            transform: Field::Borrowed(self.transform.get()),
            rect: Field::Borrowed(self.rect.get()),
        }
    }

    /// Gets the current rectangle.
    pub fn get_rectangle(&'a self) -> (r: &'a Rectangle)
        ensures
            *r == self.rect@,
    {
        self.rect.get()
    }

    /// Returns a context with a new current rectangle.
    pub fn rectangle(&'a self, rect: Rectangle) -> (c: RectangleContext<'a>)
        ensures
            c.base@ == self.base@,
            c.transform@ == self.transform@,
            c.rect@ == rect,
    {
        RectangleContext {
            base: Field::Borrowed(self.base.get()),
            transform: Field::Borrowed(self.transform.get()),
            rect: Field::Value(rect),
        }
    }

    /// Adds a color to the context.
    pub fn rgba(
        &'a self,
        r: ColorComponent,
        g: ColorComponent,
        b: ColorComponent,
        a: ColorComponent,
    ) -> (c: RectangleColorContext<'a>)
        ensures
            c.base@ == self.base@,
            c.transform@ == self.transform@,
            c.rect@ == self.rect@,
            (c.color@)@ == seq![r, g, b, a],
    {
        let color: crate::internal::Color = [r, g, b, a];
        proof {
            assert(color@ =~= seq![r, g, b, a]);
        }
        RectangleColorContext {
            base: Field::Borrowed(self.base.get()),
            transform: Field::Borrowed(self.transform.get()),
            color: Field::Value(color),
            rect: Field::Borrowed(self.rect.get()),
        }
    }

    /// Adds a corner radius for a rounded rectangle.
    pub fn round(&'a self, radius: Radius) -> (c: RoundRectangleContext<'a>)
        ensures
            c.base@ == self.base@,
            c.transform@ == self.transform@,
            c.rect@ == self.rect@,
            c.round_radius@ == radius,
    {
        RoundRectangleContext {
            base: Field::Borrowed(self.base.get()),
            transform: Field::Borrowed(self.transform.get()),
            rect: Field::Borrowed(self.rect.get()),
            round_radius: Field::Value(radius),
        }
    }

    /// Adds a chamfer radius for a bevelled rectangle.
    pub fn bevel(&'a self, radius: Radius) -> (c: BevelRectangleContext<'a>)
        ensures
            c.base@ == self.base@,
            c.transform@ == self.transform@,
            c.rect@ == self.rect@,
            c.bevel_radius@ == radius,
    {
        BevelRectangleContext {
            base: Field::Borrowed(self.base.get()),
            transform: Field::Borrowed(self.transform.get()),
            rect: Field::Borrowed(self.rect.get()),
            bevel_radius: Field::Value(radius),
        }
    }

    /// Adds an image to the context.
    pub fn image(&'a self, image: Image) -> (c: ImageRectangleContext<'a>)
        ensures
            c.base@ == self.base@,
            c.transform@ == self.transform@,
            c.rect@ == self.rect@,
            c.image@ == image,
    {
        ImageRectangleContext {
            base: Field::Borrowed(self.base.get()),
            transform: Field::Borrowed(self.transform.get()),
            rect: Field::Borrowed(self.rect.get()),
            image: Field::Value(image),
        }
    }
}

} // verus!
