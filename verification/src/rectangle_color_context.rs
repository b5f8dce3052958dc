//! A rectangle color context.

use vstd::prelude::*;
use crate::Field;
use crate::back_end::{BackEnd, BackEndCall};
use crate::dispatch::{GraphicsError, clear, draw_triangle_list, spec_plain_draw_calls};
use crate::internal::{Color, Matrix2d, Rectangle, ints_of};
use crate::triangulation::{
    rect_bounded, rect_tri_list_xy, spec_rect_tri_list_xy, spec_tri_list_rgba, tri_list_rgba,
};
use crate::vecmath::{mat_bounded, mat_view};

verus! {

/// A rectangle color context.
#[derive(Clone, Copy)]
pub struct RectangleColorContext<'a> {
    /// Base/original transformation.
    pub base: Field<'a, Matrix2d>,
    /// Current transformation.
    pub transform: Field<'a, Matrix2d>,
    /// Current color.
    pub color: Field<'a, Color>,
    /// Current rectangle.
    pub rect: Field<'a, Rectangle>,
}

impl<'a> RectangleColorContext<'a> {
    /// Gets the current color.
    pub fn get_color(&'a self) -> (r: &'a Color)
        ensures
            *r == self.color@,
    {
        self.color.get()
    }

    /// Gets the current rectangle.
    pub fn get_rectangle(&'a self) -> (r: &'a Rectangle)
        ensures
            *r == self.rect@,
    {
        self.rect.get()
    }

    /// The operations that filling this context performs on a back end
    /// that supports plain triangle lists.
    pub open spec fn spec_fill_calls(&self, max_vertices: int) -> Seq<BackEndCall> {
        spec_plain_draw_calls(
            spec_rect_tri_list_xy(mat_view(self.transform@), ints_of((self.rect@)@)),
            spec_tri_list_rgba(ints_of((self.color@)@), 6),
            (self.color@)@[3] as int,
            max_vertices,
        )
    }

    /// Fills the rectangle: tessellates it under the current transform
    /// and dispatches the triangles with the current color. Fails when
    /// the back end does not accept plain triangle lists.
    pub fn fill<B: BackEnd>(&self, back_end: &mut B) -> (r: Result<(), GraphicsError>)
        requires
            mat_bounded(self.transform@),
            rect_bounded(self.rect@),
            old(back_end).capabilities().max_vertices >= 3,
            2 * old(back_end).capabilities().max_vertices <= usize::MAX,
        ensures
            final(back_end).capabilities() == old(back_end).capabilities(),
            r == Ok::<(), GraphicsError>(()) <==> old(back_end).capabilities().triangle_list,
            r is Err ==> r == Err::<(), GraphicsError>(GraphicsError::UnsupportedPrimitive)
                && final(back_end).calls() == old(back_end).calls(),
            old(back_end).capabilities().triangle_list ==> final(back_end).calls() == old(back_end).calls() + self.spec_fill_calls(old(back_end).capabilities().max_vertices),
    {
        let positions = rect_tri_list_xy(self.transform.get(), self.rect.get());
        let colors = tri_list_rgba(6, self.color.get());
        draw_triangle_list(back_end, &positions, &colors, *self.color.get())
    }

    /// Clears the surface with the current color, or reports the
    /// failure when the back end lacks clear support.
    pub fn clear<B: BackEnd>(&self, back_end: &mut B) -> (r: Result<(), GraphicsError>)
        ensures
            final(back_end).capabilities() == old(back_end).capabilities(),
            old(back_end).capabilities().clear ==> r == Ok::<(), GraphicsError>(()) && final(back_end).calls() == old(back_end).calls().push(BackEndCall::ClearRgba {
                r: (self.color@)@[0] as int,
                g: (self.color@)@[1] as int,
                b: (self.color@)@[2] as int,
                a: (self.color@)@[3] as int,
            }),
            !old(back_end).capabilities().clear ==> r == Err::<(), GraphicsError>(
                GraphicsError::UnsupportedPrimitive,
            ) && final(back_end).calls() == old(back_end).calls(),
    {
        clear(back_end, *self.color.get())
    }
}

} // verus!
