//! A polygon color context.

use vstd::prelude::*;
use crate::Field;
use crate::back_end::{BackEnd, BackEndCall};
use crate::dispatch::{GraphicsError, clear, draw_triangle_list, spec_plain_draw_calls};
use crate::internal::{Color, Matrix2d, Polygon, ints_of};
use crate::triangulation::{
    polygon_bounded, polygon_tri_list_xy, spec_poly_points, spec_polygon_tri_list_xy,
    spec_tri_list_rgba, tri_list_rgba,
};
use crate::vecmath::{mat_bounded, mat_view};

verus! {

/// A polygon color context.
#[derive(Clone, Copy)]
pub struct PolygonColorContext<'a, 'b> {
    /// Base/origin transform.
    pub base: Field<'a, Matrix2d>,
    /// Current transform.
    pub transform: Field<'a, Matrix2d>,
    /// Current color.
    pub color: Field<'a, Color>,
    /// Current polygon.
    pub polygon: Field<'a, Polygon<'b>>,
}

impl<'a, 'b> PolygonColorContext<'a, 'b> {
    /// Gets the current color.
    pub fn get_color(&'a self) -> (r: &'a Color)
        ensures
            *r == self.color@,
    {
        self.color.get()
    }

    /// The number of vertices a fan triangulation of the polygon
    /// produces.
    pub open spec fn spec_vertex_count(&self) -> int {
        if (self.polygon@)@.len() < 6 {
            0
        } else {
            3 * ((self.polygon@)@.len() / 2 - 2)
        }
    }

    /// The operations that filling this context performs on a back end
    /// that supports plain triangle lists.
    pub open spec fn spec_fill_calls(&self, max_vertices: int) -> Seq<BackEndCall> {
        spec_plain_draw_calls(
            spec_polygon_tri_list_xy(
                mat_view(self.transform@),
                spec_poly_points(ints_of((self.polygon@)@)),
            ),
            spec_tri_list_rgba(ints_of((self.color@)@), self.spec_vertex_count()),
            (self.color@)@[3] as int,
            max_vertices,
        )
    }

    /// Fills the polygon: fan-triangulates it under the current
    /// transform and dispatches the triangles with the current color.
    /// Fails when the back end does not accept plain triangle lists.
    pub fn fill<B: BackEnd>(&self, back_end: &mut B) -> (r: Result<(), GraphicsError>)
        requires
            mat_bounded(self.transform@),
            (self.polygon@)@.len() % 2 == 0,
            (self.polygon@)@.len() <= 0x100_0000,
            polygon_bounded((self.polygon@)@),
            old(back_end).capabilities().max_vertices >= 3,
            2 * old(back_end).capabilities().max_vertices <= usize::MAX,
        ensures
            final(back_end).capabilities() == old(back_end).capabilities(),
            r == Ok::<(), GraphicsError>(()) <==> old(back_end).capabilities().triangle_list,
            r is Err ==> r == Err::<(), GraphicsError>(GraphicsError::UnsupportedPrimitive)
                && final(back_end).calls() == old(back_end).calls(),
            old(back_end).capabilities().triangle_list ==> final(back_end).calls() == old(back_end).calls() + self.spec_fill_calls(old(back_end).capabilities().max_vertices),
    {
        let polygon = *self.polygon.get();
        let positions = polygon_tri_list_xy(self.transform.get(), polygon);
        let vertex_count = positions.len() / 2;
        proof {
            if (self.polygon@)@.len() >= 6 {
                let k = (self.polygon@)@.len() / 2 - 2;
                vstd::arithmetic::div_mod::lemma_fundamental_div_mod(6 * k, 6);
                vstd::arithmetic::div_mod::lemma_mod_multiples_basic(k, 6);
                vstd::arithmetic::div_mod::lemma_div_multiples_vanish(3 * k, 2);
                assert(6 * k == 2 * (3 * k));
            }
        }
        let colors = tri_list_rgba(vertex_count, self.color.get());
        draw_triangle_list(back_end, &positions, &colors, *self.color.get())
    }

    /// Clears the surface with the current color, or reports the
    /// failure when the back end lacks clear support.
    pub fn clear<B: BackEnd>(&self, back_end: &mut B) -> (r: Result<(), GraphicsError>)
        ensures
            final(back_end).capabilities() == old(back_end).capabilities(),
            old(back_end).capabilities().clear ==> r == Ok::<(), GraphicsError>(()) && final(back_end).calls() == old(back_end).calls().push(BackEndCall::ClearRgba {
                r: (self.color@)@[0] as int,
                g: (self.color@)@[1] as int,
                b: (self.color@)@[2] as int,
                a: (self.color@)@[3] as int,
            }),
            !old(back_end).capabilities().clear ==> r == Err::<(), GraphicsError>(
                GraphicsError::UnsupportedPrimitive,
            ) && final(back_end).calls() == old(back_end).calls(),
    {
        clear(back_end, *self.color.get())
    }
}

} // verus!
