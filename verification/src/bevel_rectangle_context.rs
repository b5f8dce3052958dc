//! A bevelled rectangle context.

use vstd::prelude::*;
use crate::Field;
use crate::internal::{Matrix2d, Radius, Rectangle};

verus! {

/// A bevelled rectangle context.
#[derive(Clone, Copy)]
pub struct BevelRectangleContext<'a> {
    /// Base/original transformation.
    pub base: Field<'a, Matrix2d>,
    /// Current transformation.
    pub transform: Field<'a, Matrix2d>,
    /// Current rectangle.
    pub rect: Field<'a, Rectangle>,
    /// Current bevel radius.
    pub bevel_radius: Field<'a, Radius>,
}

impl<'a> BevelRectangleContext<'a> {
    /// Gets the current bevel radius.
    pub fn get_bevel_radius(&'a self) -> (r: &'a Radius)
        ensures
            *r == self.bevel_radius@,
    {
        self.bevel_radius.get()
    }
}

} // verus!
