//! A back end that records every operation instead of rendering.
//!
//! It advertises a configurable capability set and keeps the operations
//! it receives in a vector, so that a caller (or a test) can inspect
//! exactly what a draw did. It is a verified implementation of the
//! `BackEnd` contract.

use vstd::prelude::*;
use crate::back_end::{BackEnd, BackEndCall, BackEndCapabilities};
use crate::internal::ints_of;

verus! {

/// One recorded operation, holding its buffers by value.
pub enum RecordedCall {
    /// The surface was cleared with the given color.
    ClearRgba { r: i64, g: i64, b: i64, a: i64 },
    /// Alpha blending was switched on.
    EnableAlphaBlend,
    /// Alpha blending was switched off.
    DisableAlphaBlend,
    /// The given texture was bound.
    EnableSingleTexture { texture_id: usize },
    /// The bound texture was released.
    DisableSingleTexture,
    /// A plain triangle list was submitted.
    SubmitTriangleList { positions: Vec<i64>, colors: Vec<i64> },
    /// A textured triangle list was submitted.
    SubmitTriangleListTextured { positions: Vec<i64>, colors: Vec<i64>, uvs: Vec<i64> },
}

impl View for RecordedCall {
    type V = BackEndCall;

    open spec fn view(&self) -> BackEndCall {
        match *self {
            RecordedCall::ClearRgba { r, g, b, a } => BackEndCall::ClearRgba {
                r: r as int,
                g: g as int,
                b: b as int,
                a: a as int,
            },
            RecordedCall::EnableAlphaBlend => BackEndCall::EnableAlphaBlend,
            RecordedCall::DisableAlphaBlend => BackEndCall::DisableAlphaBlend,
            RecordedCall::EnableSingleTexture { texture_id } => {
                BackEndCall::EnableSingleTexture { texture_id: texture_id as int }
            },
            RecordedCall::DisableSingleTexture => BackEndCall::DisableSingleTexture,
            RecordedCall::SubmitTriangleList { ref positions, ref colors } => {
                BackEndCall::SubmitTriangleList {
                    positions: ints_of(positions@),
                    colors: ints_of(colors@),
                }
            },
            RecordedCall::SubmitTriangleListTextured { ref positions, ref colors, ref uvs } => {
                BackEndCall::SubmitTriangleListTextured {
                    positions: ints_of(positions@),
                    colors: ints_of(colors@),
                    uvs: ints_of(uvs@),
                }
            },
        }
    }
}

/// A back end with a configurable capability set that logs every
/// operation it receives.
pub struct RecordingBackEnd {
    /// Is a clear operation advertised?
    pub clear_supported: bool,
    /// Are plain triangle lists advertised?
    pub triangle_list_supported: bool,
    /// Are textured triangle lists advertised?
    pub triangle_list_textured_supported: bool,
    /// Is single-texture binding advertised?
    pub single_texture_supported: bool,
    /// The textures that carry an alpha channel.
    pub alpha_texture_ids: Vec<usize>,
    /// The most vertices accepted by one submission call.
    pub max_vertices: usize,
    /// Every operation received so far, oldest first.
    pub calls: Vec<RecordedCall>,
}

impl RecordingBackEnd {
    /// A recording back end with the given capability set and an
    /// empty log.
    pub fn new(
        clear_supported: bool,
        triangle_list_supported: bool,
        triangle_list_textured_supported: bool,
        single_texture_supported: bool,
        alpha_texture_ids: Vec<usize>,
        max_vertices: usize,
    ) -> (r: RecordingBackEnd)
        ensures
            r.capabilities() == (BackEndCapabilities {
                clear: clear_supported,
                triangle_list: triangle_list_supported,
                triangle_list_textured: triangle_list_textured_supported,
                single_texture: single_texture_supported,
                alpha_textures: alpha_texture_ids@.map_values(|id: usize| id as int).to_set(),
                max_vertices: max_vertices as int,
            }),
            r.calls() == Seq::<BackEndCall>::empty(),
    {
        let r = RecordingBackEnd {
            clear_supported,
            triangle_list_supported,
            triangle_list_textured_supported,
            single_texture_supported,
            alpha_texture_ids,
            max_vertices,
            calls: Vec::new(),
        };
        proof {
            assert(r.calls() =~= Seq::<BackEndCall>::empty());
        }
        r
    }

    /// Appends one operation to the log, leaving the capability set as
    /// it is.
    fn record(&mut self, call: RecordedCall)
        ensures
            final(self).capabilities() == old(self).capabilities(),
            final(self).calls() == old(self).calls().push(call@),
    {
        let ghost c = call@;
        self.calls.push(call);
        proof {
            assert(self.capabilities().alpha_textures =~= old(self).capabilities().alpha_textures);
            assert(self.capabilities() == old(self).capabilities());
            assert(self.calls() =~= old(self).calls().push(c));
        }
    }
}

impl BackEnd for RecordingBackEnd {
    open spec fn capabilities(&self) -> BackEndCapabilities {
        BackEndCapabilities {
            clear: self.clear_supported,
            triangle_list: self.triangle_list_supported,
            triangle_list_textured: self.triangle_list_textured_supported,
            single_texture: self.single_texture_supported,
            alpha_textures: self.alpha_texture_ids@.map_values(|id: usize| id as int).to_set(),
            max_vertices: self.max_vertices as int,
        }
    }

    open spec fn calls(&self) -> Seq<BackEndCall> {
        self.calls@.map_values(|c: RecordedCall| c@)
    }

    fn supports_clear_rgba(&self) -> (r: bool) {
        self.clear_supported
    }

    fn supports_triangle_list(&self) -> (r: bool) {
        self.triangle_list_supported
    }

    fn supports_triangle_list_textured(&self) -> (r: bool) {
        self.triangle_list_textured_supported
    }

    fn supports_single_texture(&self) -> (r: bool) {
        self.single_texture_supported
    }

    fn has_texture_alpha(&self, texture_id: usize) -> (r: bool) {
        let mut i: usize = 0;
        while i < self.alpha_texture_ids.len()
            invariant
                0 <= i <= self.alpha_texture_ids@.len(),
                forall|j: int| 0 <= j < i ==> self.alpha_texture_ids@[j] != texture_id,
            decreases self.alpha_texture_ids@.len() - i,
        {
            if self.alpha_texture_ids[i] == texture_id {
                proof {
                    let mapped = self.alpha_texture_ids@.map_values(|id: usize| id as int);
                    assert(mapped[i as int] == texture_id as int);
                    assert(mapped.contains(texture_id as int));
                }
                return true;
            }
            i += 1;
        }
        proof {
            let mapped = self.alpha_texture_ids@.map_values(|id: usize| id as int);
            assert(forall|j: int| 0 <= j < mapped.len() ==> mapped[j] != texture_id as int);
            assert(!mapped.contains(texture_id as int));
        }
        false
    }

    fn max_vertices_per_submission(&self) -> (r: usize) {
        self.max_vertices
    }

    fn clear_rgba(&mut self, r: i64, g: i64, b: i64, a: i64) {
        self.record(RecordedCall::ClearRgba { r, g, b, a });
    }

    fn enable_alpha_blend(&mut self) {
        self.record(RecordedCall::EnableAlphaBlend);
    }

    fn disable_alpha_blend(&mut self) {
        self.record(RecordedCall::DisableAlphaBlend);
    }

    fn enable_single_texture(&mut self, texture_id: usize) {
        self.record(RecordedCall::EnableSingleTexture { texture_id });
    }

    fn disable_single_texture(&mut self) {
        self.record(RecordedCall::DisableSingleTexture);
    }

    fn submit_triangle_list(&mut self, positions: &Vec<i64>, colors: &Vec<i64>) {
        let pos = clone_buffer(positions);
        let col = clone_buffer(colors);
        self.record(RecordedCall::SubmitTriangleList { positions: pos, colors: col });
    }

    fn submit_triangle_list_textured(
        &mut self,
        positions: &Vec<i64>,
        colors: &Vec<i64>,
        uvs: &Vec<i64>,
    ) {
        let pos = clone_buffer(positions);
        let col = clone_buffer(colors);
        let uv = clone_buffer(uvs);
        self.record(RecordedCall::SubmitTriangleListTextured {
            positions: pos,
            colors: col,
            uvs: uv,
        });
    }
}

/// Copies a scalar buffer.
fn clone_buffer(src: &Vec<i64>) -> (r: Vec<i64>)
    ensures
        r@ == src@,
{
    let mut r: Vec<i64> = Vec::new();
    let mut i: usize = 0;
    while i < src.len()
        invariant
            0 <= i <= src@.len(),
            r@ == src@.take(i as int),
        decreases src@.len() - i,
    {
        r.push(src[i]);
        proof {
            assert(r@ =~= src@.take(i as int + 1));
        }
        i += 1;
    }
    proof {
        assert(r@ =~= src@);
    }
    r
}

} // verus!
