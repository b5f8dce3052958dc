//! A rounded rectangle color context.

use vstd::prelude::*;
use crate::Field;
use crate::back_end::{BackEnd, BackEndCall};
use crate::dispatch::{GraphicsError, clear, draw_triangle_list, spec_plain_draw_calls};
use crate::internal::{Color, Matrix2d, Radius, Rectangle, ints_of};
use crate::triangulation::{
    SHAPE_LIMIT, lemma_round_rectangle_count, rect_bounded, round_rectangle_tri_list_xy,
    spec_round_rectangle_tri_list_xy, spec_round_rectangle_vertex_count, spec_tri_list_rgba,
    tri_list_rgba,
};
use crate::vecmath::{mat_bounded, mat_view};

verus! {

/// The corner subdivision count used when filling a rounded rectangle.
pub const ROUND_RECTANGLE_RESOLUTION: usize = 32;

/// A rounded rectangle color context.
#[derive(Clone, Copy)]
pub struct RoundRectangleColorContext<'a> {
    /// Base/original transformation.
    pub base: Field<'a, Matrix2d>,
    /// Current transformation.
    pub transform: Field<'a, Matrix2d>,
    /// Current rectangle.
    pub rect: Field<'a, Rectangle>,
    /// Current roundness radius.
    pub round_radius: Field<'a, Radius>,
    /// Current color.
    pub color: Field<'a, Color>,
}

impl<'a> RoundRectangleColorContext<'a> {
    /// Gets the current transformation.
    pub fn get_transform(&'a self) -> (r: &'a Matrix2d)
        ensures
            *r == self.transform@,
    {
        self.transform.get()
    }

    /// Returns a context with a new current transformation.
    pub fn transform(&'a self, value: Matrix2d) -> (c: RoundRectangleColorContext<'a>)
        ensures
            c.base@ == self.base@,
            c.transform@ == value,
            c.rect@ == self.rect@,
            c.round_radius@ == self.round_radius@,
            c.color@ == self.color@,
    {
        RoundRectangleColorContext {
            base: Field::Borrowed(self.base.get()),
            transform: Field::Value(value),
            rect: Field::Borrowed(self.rect.get()),
            round_radius: Field::Borrowed(self.round_radius.get()),
            color: Field::Borrowed(self.color.get()),
        }
    }

    /// Gets the base (view) transformation.
    pub fn get_view_transform(&'a self) -> (r: &'a Matrix2d)
        ensures
            *r == self.base@,
    {
        self.base.get()
    }

    /// Returns a context with a new base (view) transformation.
    pub fn view_transform(&'a self, value: Matrix2d) -> (c: RoundRectangleColorContext<'a>)
        ensures
            c.base@ == value,
            c.transform@ == self.transform@,
            c.rect@ == self.rect@,
            c.round_radius@ == self.round_radius@,
            c.color@ == self.color@,
    {
        RoundRectangleColorContext {
            base: Field::Value(value),
            transform: Field::Borrowed(self.transform.get()),
            rect: Field::Borrowed(self.rect.get()),
            round_radius: Field::Borrowed(self.round_radius.get()),
            color: Field::Borrowed(self.color.get()),
        }
    }

    /// Gets the current color.
    pub fn get_color(&'a self) -> (r: &'a Color)
        ensures
            *r == self.color@,
    {
        self.color.get()
    }

    /// Returns a context with a new current color.
    pub fn color(&'a self, value: Color) -> (c: RoundRectangleColorContext<'a>)
        ensures
            c.base@ == self.base@,
            c.transform@ == self.transform@,
            c.rect@ == self.rect@,
            c.round_radius@ == self.round_radius@,
            c.color@ == value,
    {
        RoundRectangleColorContext {
            base: Field::Borrowed(self.base.get()),
            transform: Field::Borrowed(self.transform.get()),
            color: Field::Value(value),
            rect: Field::Borrowed(self.rect.get()),
            round_radius: Field::Borrowed(self.round_radius.get()),
        }
    }

    /// Gets the current rectangle.
    pub fn get_rectangle(&'a self) -> (r: &'a Rectangle)
        ensures
            *r == self.rect@,
    {
        self.rect.get()
    }

    /// Returns a context with a new current rectangle.
    pub fn rectangle(&'a self, rect: Rectangle) -> (c: RoundRectangleColorContext<'a>)
        ensures
            c.base@ == self.base@,
            c.transform@ == self.transform@,
            c.rect@ == rect,
            c.round_radius@ == self.round_radius@,
            c.color@ == self.color@,
    {
        RoundRectangleColorContext {
            base: Field::Borrowed(self.base.get()),
            transform: Field::Borrowed(self.transform.get()),
            rect: Field::Value(rect),
            round_radius: Field::Borrowed(self.round_radius.get()),
            color: Field::Borrowed(self.color.get()),
        }
    }

    /// The operations that filling this context performs on a back end
    /// that supports plain triangle lists.
    pub open spec fn spec_fill_calls(&self, max_vertices: int) -> Seq<BackEndCall> {
        spec_plain_draw_calls(
            spec_round_rectangle_tri_list_xy(
                mat_view(self.transform@),
                ints_of((self.rect@)@),
                self.round_radius@ as int,
                ROUND_RECTANGLE_RESOLUTION as int,
            ),
            spec_tri_list_rgba(
                ints_of((self.color@)@),
                spec_round_rectangle_vertex_count(
                    self.round_radius@ as int,
                    ROUND_RECTANGLE_RESOLUTION as int,
                ),
            ),
            (self.color@)@[3] as int,
            max_vertices,
        )
    }

    /// Fills the rounded rectangle: tessellates it under the current
    /// transform and dispatches the triangles with the current color.
    /// Fails when the back end does not accept plain triangle lists.
    pub fn fill<B: BackEnd>(&self, back_end: &mut B) -> (r: Result<(), GraphicsError>)
        requires
            mat_bounded(self.transform@),
            rect_bounded(self.rect@),
            -SHAPE_LIMIT <= self.round_radius@ <= SHAPE_LIMIT,
            old(back_end).capabilities().max_vertices >= 3,
            2 * old(back_end).capabilities().max_vertices <= usize::MAX,
        ensures
            final(back_end).capabilities() == old(back_end).capabilities(),
            r == Ok::<(), GraphicsError>(()) <==> old(back_end).capabilities().triangle_list,
            r is Err ==> r == Err::<(), GraphicsError>(GraphicsError::UnsupportedPrimitive)
                && final(back_end).calls() == old(back_end).calls(),
            old(back_end).capabilities().triangle_list ==> final(back_end).calls() == old(back_end).calls() + self.spec_fill_calls(old(back_end).capabilities().max_vertices),
    {
        let radius = *self.round_radius.get();
        let positions = round_rectangle_tri_list_xy(
            ROUND_RECTANGLE_RESOLUTION,
            self.transform.get(),
            self.rect.get(),
            radius,
        );
        proof {
            lemma_round_rectangle_count(
                mat_view(self.transform@),
                ints_of((self.rect@)@),
                radius as int,
                ROUND_RECTANGLE_RESOLUTION as int,
            );
            let cnt = spec_round_rectangle_vertex_count(
                radius as int,
                ROUND_RECTANGLE_RESOLUTION as int,
            );
            vstd::arithmetic::div_mod::lemma_fundamental_div_mod(cnt, 3);
            assert(2 * cnt == 6 * (cnt / 3));
            vstd::arithmetic::div_mod::lemma_mod_multiples_basic(cnt / 3, 6);
            assert(positions@.len() % 6 == 0);
            vstd::arithmetic::div_mod::lemma_div_multiples_vanish(cnt, 2);
        }
        let vertex_count = positions.len() / 2;
        let colors = tri_list_rgba(vertex_count, self.color.get());
        draw_triangle_list(back_end, &positions, &colors, *self.color.get())
    }

    /// Clears the surface with the current color, or reports the
    /// failure when the back end lacks clear support.
    pub fn clear<B: BackEnd>(&self, back_end: &mut B) -> (r: Result<(), GraphicsError>)
        ensures
            final(back_end).capabilities() == old(back_end).capabilities(),
            old(back_end).capabilities().clear ==> r == Ok::<(), GraphicsError>(()) && final(back_end).calls() == old(back_end).calls().push(BackEndCall::ClearRgba {
                r: (self.color@)@[0] as int,
                g: (self.color@)@[1] as int,
                b: (self.color@)@[2] as int,
                a: (self.color@)@[3] as int,
            }),
            !old(back_end).capabilities().clear ==> r == Err::<(), GraphicsError>(
                GraphicsError::UnsupportedPrimitive,
            ) && final(back_end).calls() == old(back_end).calls(),
    {
        clear(back_end, *self.color.get())
    }
}

} // verus!
