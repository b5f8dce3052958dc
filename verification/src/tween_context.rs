//! An animation inbetweening context.

use vstd::prelude::*;
use crate::Field;
use crate::internal::Matrix2d;
use crate::vecmath::{identity, mat_view, spec_identity};

verus! {

/// An animation inbetweening context.
#[derive(Clone, Copy)]
pub struct TweenContext<'a> {
    /// Base/origin transform.
    pub base: Field<'a, Matrix2d>,
    /// Current transform.
    pub transform: Field<'a, Matrix2d>,
    /// Animation inbetweening factor, in fixed point.
    pub tween_factor: Field<'a, i64>,
}

impl<'a> TweenContext<'a> {
    /// Moves the current transform to the base (view) coordinate
    /// system.
    pub fn view(&'a self) -> (c: TweenContext<'a>)
        ensures
            c.base@ == self.base@,
            c.transform@ == self.base@,
            c.tween_factor@ == self.tween_factor@,
    {
        TweenContext {
            base: Field::Borrowed(self.base.get()),
            transform: Field::Borrowed(self.base.get()),
            tween_factor: Field::Borrowed(self.tween_factor.get()),
        }
    }

    /// Resets the current transform to the identity.
    pub fn reset(&'a self) -> (c: TweenContext<'a>)
        ensures
            c.base@ == self.base@,
            mat_view(c.transform@) == spec_identity(),
            c.tween_factor@ == self.tween_factor@,
    {
        TweenContext {
            base: Field::Borrowed(self.base.get()),
            transform: Field::Value(identity()),
            tween_factor: Field::Borrowed(self.tween_factor.get()),
        }
    }
}

} // verus!
