//! An image rectangle color context.

use vstd::prelude::*;
use crate::{Field, Image};
use crate::back_end::{BackEnd, BackEndCall};
use crate::dispatch::{
    GraphicsError, clear, draw_triangle_list_textured, spec_textured_draw_calls,
};
use crate::internal::{Color, Matrix2d, Rectangle, ints_of};
use crate::triangulation::{
    rect_bounded, rect_tri_list_xy, rect_tri_list_uv, spec_rect_tri_list_xy,
    spec_rect_tri_list_uv, spec_tri_list_rgba, tri_list_rgba,
};
use crate::vecmath::{mat_bounded, mat_view};

verus! {

/// An image rectangle color context.
#[derive(Clone, Copy)]
pub struct ImageRectangleColorContext<'a> {
    /// Base/original transformation.
    pub base: Field<'a, Matrix2d>,
    /// Current transformation.
    pub transform: Field<'a, Matrix2d>,
    /// Current rectangle.
    pub rect: Field<'a, Rectangle>,
    /// Current image.
    pub image: Field<'a, Image>,
    /// Current color.
    pub color: Field<'a, Color>,
}

impl<'a> ImageRectangleColorContext<'a> {
    /// Gets the current transformation.
    pub fn get_transform(&'a self) -> (r: &'a Matrix2d)
        ensures
            *r == self.transform@,
    {
        self.transform.get()
    }

    /// Returns a context with a new current transformation.
    pub fn transform(&'a self, value: Matrix2d) -> (c: ImageRectangleColorContext<'a>)
        ensures
            c.base@ == self.base@,
            c.transform@ == value,
            c.rect@ == self.rect@,
            c.image@ == self.image@,
            c.color@ == self.color@,
    {
        ImageRectangleColorContext {
            base: Field::Borrowed(self.base.get()),
            transform: Field::Value(value),
            rect: Field::Borrowed(self.rect.get()),
            image: Field::Borrowed(self.image.get()),
            color: Field::Borrowed(self.color.get()),
        }
    }

    /// Gets the base (view) transformation.
    pub fn get_view_transform(&'a self) -> (r: &'a Matrix2d)
        ensures
            *r == self.base@,
    {
        self.base.get()
    }

    /// Returns a context with a new base (view) transformation.
    pub fn view_transform(&'a self, value: Matrix2d) -> (c: ImageRectangleColorContext<'a>)
        ensures
            c.base@ == value,
            c.transform@ == self.transform@,
            c.rect@ == self.rect@,
            c.image@ == self.image@,
            c.color@ == self.color@,
    {
        ImageRectangleColorContext {
            base: Field::Value(value),
            transform: Field::Borrowed(self.transform.get()),
            rect: Field::Borrowed(self.rect.get()),
            image: Field::Borrowed(self.image.get()),
            color: Field::Borrowed(self.color.get()),
        }
    }

    /// Gets the current color.
    pub fn get_color(&'a self) -> (r: &'a Color)
        ensures
            *r == self.color@,
    {
        self.color.get()
    }

    /// Returns a context with a new current color.
    pub fn color(&'a self, value: Color) -> (c: ImageRectangleColorContext<'a>)
        ensures
            c.base@ == self.base@,
            c.transform@ == self.transform@,
            c.rect@ == self.rect@,
            c.image@ == self.image@,
            c.color@ == value,
    {
        ImageRectangleColorContext {
            base: Field::Borrowed(self.base.get()),
            transform: Field::Borrowed(self.transform.get()),
            color: Field::Value(value),
            rect: Field::Borrowed(self.rect.get()),
            image: Field::Borrowed(self.image.get()),
        }
    }

    /// Gets the current rectangle.
    pub fn get_rectangle(&'a self) -> (r: &'a Rectangle)
        ensures
            *r == self.rect@,
    {
        self.rect.get()
    }

    /// Returns a context with a new current rectangle.
    pub fn rectangle(&'a self, rect: Rectangle) -> (c: ImageRectangleColorContext<'a>)
        ensures
            c.base@ == self.base@,
            c.transform@ == self.transform@,
            c.rect@ == rect,
            c.image@ == self.image@,
            c.color@ == self.color@,
    {
        ImageRectangleColorContext {
            base: Field::Borrowed(self.base.get()),
            transform: Field::Borrowed(self.transform.get()),
            rect: Field::Value(rect),
            image: Field::Borrowed(self.image.get()),
            color: Field::Borrowed(self.color.get()),
        }
    }

    /// The operations that drawing this context performs on a back end
    /// that supports textured triangle lists and texture binding.
    pub open spec fn spec_draw_calls(
        &self,
        texture_has_alpha: bool,
        max_vertices: int,
    ) -> Seq<BackEndCall> {
        spec_textured_draw_calls(
            spec_rect_tri_list_xy(mat_view(self.transform@), ints_of((self.rect@)@)),
            spec_tri_list_rgba(ints_of((self.color@)@), 6),
            spec_rect_tri_list_uv(self.image@),
            (self.color@)@[3] as int,
            texture_has_alpha,
            (self.image@).texture_id as int,
            max_vertices,
        )
    }

    /// Draws the image rectangle: tessellates positions and texture
    /// coordinates, binds the texture around all submissions, and
    /// opens an alpha-blend scope when the color is not fully opaque
    /// or the texture carries an alpha channel. Fails when the back
    /// end lacks single-texture binding or textured triangle lists.
    pub fn draw<B: BackEnd>(&self, back_end: &mut B) -> (r: Result<(), GraphicsError>)
        requires
            mat_bounded(self.transform@),
            rect_bounded(self.rect@),
            0 < (self.image@).texture_width,
            0 < (self.image@).texture_height,
            old(back_end).capabilities().max_vertices >= 3,
            2 * old(back_end).capabilities().max_vertices <= usize::MAX,
        ensures
            final(back_end).capabilities() == old(back_end).capabilities(),
            r == Ok::<(), GraphicsError>(()) <==> old(back_end).capabilities().single_texture
                && old(back_end).capabilities().triangle_list_textured,
            r is Err ==> r == Err::<(), GraphicsError>(GraphicsError::UnsupportedPrimitive)
                && final(back_end).calls() == old(back_end).calls(),
            old(back_end).capabilities().single_texture && old(back_end).capabilities().triangle_list_textured ==> final(back_end).calls() == old(back_end).calls() + self.spec_draw_calls(
                old(back_end).capabilities().alpha_textures.contains(
                    (self.image@).texture_id as int,
                ),
                old(back_end).capabilities().max_vertices,
            ),
    {
        let image = self.image.get();
        let positions = rect_tri_list_xy(self.transform.get(), self.rect.get());
        let colors = tri_list_rgba(6, self.color.get());
        let uvs = rect_tri_list_uv(image);
        draw_triangle_list_textured(
            back_end,
            &positions,
            &colors,
            &uvs,
            *self.color.get(),
            image.texture_id,
        )
    }

    /// Clears the surface with the current color, or reports the
    /// failure when the back end lacks clear support.
    pub fn clear<B: BackEnd>(&self, back_end: &mut B) -> (r: Result<(), GraphicsError>)
        ensures
            final(back_end).capabilities() == old(back_end).capabilities(),
            old(back_end).capabilities().clear ==> r == Ok::<(), GraphicsError>(()) && final(back_end).calls() == old(back_end).calls().push(BackEndCall::ClearRgba {
                r: (self.color@)@[0] as int,
                g: (self.color@)@[1] as int,
                b: (self.color@)@[2] as int,
                a: (self.color@)@[3] as int,
            }),
            !old(back_end).capabilities().clear ==> r == Err::<(), GraphicsError>(
                GraphicsError::UnsupportedPrimitive,
            ) && final(back_end).calls() == old(back_end).calls(),
    {
        clear(back_end, *self.color.get())
    }
}

} // verus!
