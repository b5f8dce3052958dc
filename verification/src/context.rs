//! The root drawing context.

use vstd::prelude::*;
use crate::Field;
use crate::internal::{Matrix2d, Rectangle};
use crate::rectangle_context::RectangleContext;
use crate::vecmath::{identity, mat_view, spec_identity};

verus! {

/// A drawing context: the base (view) transform and the current
/// transform, before any shape has been chosen.
#[derive(Clone, Copy)]
pub struct Context<'a> {
    /// Base/original transformation.
    pub base: Field<'a, Matrix2d>,
    /// Current transformation.
    pub transform: Field<'a, Matrix2d>,
}

impl<'a> Context<'a> {
    /// A fresh context: both transforms are the identity.
    pub fn new() -> (c: Context<'static>)
        ensures
            mat_view(c.base@) == spec_identity(),
            mat_view(c.transform@) == spec_identity(),
    {
        Context { base: Field::Value(identity()), transform: Field::Value(identity()) }
    }

    /// Adds a rectangle to the context.
    pub fn rect(&'a self, x: i64, y: i64, w: i64, h: i64) -> (c: RectangleContext<'a>)
        ensures
            c.base@ == self.base@,
            c.transform@ == self.transform@,
            (c.rect@)@ == seq![x, y, w, h],
    {
        let rect: Rectangle = [x, y, w, h];
        proof {
            assert(rect@ =~= seq![x, y, w, h]);
        }
        RectangleContext {
            base: Field::Borrowed(self.base.get()),
            transform: Field::Borrowed(self.transform.get()),
            rect: Field::Value(rect),
        }
    }
}

} // verus!
