//! A library for 2D graphics that works with multiple back-ends.
//!
//! Shape descriptions (rectangles, rounded rectangles, ellipses, polygons,
//! images, tweened polygons) together with an affine transform and a color
//! are turned into flat triangle-list vertex buffers, which are handed to a
//! pluggable back-end through a capability-negotiated protocol.
//!
//! All scalars are fixed-point numbers: an `i64` counts steps of
//! `1 / FX_ONE` of a unit (see the `fx` module), so every computation is
//! exact integer arithmetic.

use vstd::prelude::*;

pub mod back_end;
pub mod bevel_rectangle_context;
pub mod context;
pub mod dispatch;
pub mod fx;
pub mod image_rectangle_color_context;
pub mod image_rectangle_context;
pub mod internal;
pub mod line_context;
pub mod polygon_color_context;
pub mod polygon_context;
pub mod recording;
pub mod rectangle_color_context;
pub mod rectangle_context;
pub mod round_rectangle_color_context;
pub mod round_rectangle_context;
pub mod triangulation;
pub mod trig;
pub mod tween_context;
pub mod vecmath;

verus! {

/// A structure that might contain a value or a borrowed value.
/// This is used as a building block to create data structures
/// that are partially based on an existing structure.
#[derive(Clone, Copy)]
pub enum Field<'a, T> {
    /// Contains a value.
    Value(T),
    /// Contains a borrowed pointer.
    Borrowed(&'a T),
}

impl<'a, T> Field<'a, T> {
    /// The value held or pointed to by this field.
    pub open spec fn view(&self) -> T {
        match *self {
            Field::Value(ref val) => *val,
            Field::Borrowed(rval) => *rval,
        }
    }

    /// Gets a read only value.
    pub fn get(&'a self) -> (r: &'a T)
        ensures
            *r == self@,
    {
        match *self {
            Field::Value(ref val) => val,
            Field::Borrowed(rval) => rval,
        }
    }
}

/// Represents an image.
///
/// Images are often packed together in sprite sheets.
/// For this reason it refers to a rectangle within a texture.
///
/// The texture is a unique identifier recognized by the back-end.
/// An image contains the size of a texture to be able to
/// compute normalized coordinates.
///
/// There is no garbage collection of textures,
/// this responsibility is given to the back-end.
#[derive(Clone, Copy)]
pub struct Image {
    /// A unique identifier of the texture, recognizable by back-end.
    pub texture_id: usize,
    /// The pixel width of the texture.
    pub texture_width: u32,
    /// The pixel height of the texture.
    pub texture_height: u32,
    /// The source rectangle in the texture.
    pub source_rect: internal::PixelRectangle,
}

} // verus!
