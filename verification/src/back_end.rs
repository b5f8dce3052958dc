//! The contract between the renderer and a pluggable back end.
//!
//! A back end advertises a capability set (queried before every draw) and
//! accepts clear, blend-toggle, texture-binding and triangle-list
//! submission operations. Its specification carries a ghost log of every
//! operation performed, so that the dispatch layer can state exactly
//! which calls a draw makes and in which order.

use vstd::prelude::*;

verus! {

/// One operation performed on a back end, as it appears in the ghost log.
/// Buffers are logged as their mathematical values.
pub enum BackEndCall {
    /// The surface was cleared with the given color.
    ClearRgba { r: int, g: int, b: int, a: int },
    /// Alpha blending was switched on.
    EnableAlphaBlend,
    /// Alpha blending was switched off.
    DisableAlphaBlend,
    /// The given texture was bound.
    EnableSingleTexture { texture_id: int },
    /// The bound texture was released.
    DisableSingleTexture,
    /// A plain triangle list was submitted: two position values and four
    /// color values per vertex.
    SubmitTriangleList { positions: Seq<int>, colors: Seq<int> },
    /// A textured triangle list was submitted: additionally two texture
    /// coordinate values per vertex.
    SubmitTriangleListTextured { positions: Seq<int>, colors: Seq<int>, uvs: Seq<int> },
}

/// The advertised capability set of a back end. Capabilities are fixed:
/// no operation changes them.
pub struct BackEndCapabilities {
    /// Can the surface be cleared?
    pub clear: bool,
    /// Are plain position + color triangle lists accepted?
    pub triangle_list: bool,
    /// Are textured position + color + uv triangle lists accepted?
    pub triangle_list_textured: bool,
    /// Can a single texture be bound?
    pub single_texture: bool,
    /// The textures that carry an alpha channel.
    pub alpha_textures: Set<int>,
    /// The most vertices accepted by one submission call.
    pub max_vertices: int,
}

/// The interface every rendering target implements: capability queries
/// plus primitive-submission and clear/blend-toggle operations.
///
/// Every submission receives parallel buffers of equal vertex count, the
/// count a multiple of three and at most `max_vertices`; the dispatch
/// layer respects this by chunking.
pub trait BackEnd: Sized {
    /// The advertised capability set.
    spec fn capabilities(&self) -> BackEndCapabilities;

    /// The ghost log of every operation performed so far.
    spec fn calls(&self) -> Seq<BackEndCall>;

    /// Is a clear operation supported?
    fn supports_clear_rgba(&self) -> (r: bool)
        ensures
            r == self.capabilities().clear,
    ;

    /// Are plain triangle lists supported?
    fn supports_triangle_list(&self) -> (r: bool)
        ensures
            r == self.capabilities().triangle_list,
    ;

    /// Are textured triangle lists supported?
    fn supports_triangle_list_textured(&self) -> (r: bool)
        ensures
            r == self.capabilities().triangle_list_textured,
    ;

    /// Can a single texture be bound?
    fn supports_single_texture(&self) -> (r: bool)
        ensures
            r == self.capabilities().single_texture,
    ;

    /// Does the given texture carry an alpha channel?
    fn has_texture_alpha(&self, texture_id: usize) -> (r: bool)
        ensures
            r == self.capabilities().alpha_textures.contains(texture_id as int),
    ;

    /// The most vertices accepted by one submission call.
    fn max_vertices_per_submission(&self) -> (r: usize)
        ensures
            r as int == self.capabilities().max_vertices,
    ;

    /// Clears the surface with the given color.
    fn clear_rgba(&mut self, r: i64, g: i64, b: i64, a: i64)
        requires
            old(self).capabilities().clear,
        ensures
            final(self).capabilities() == old(self).capabilities(),
            final(self).calls() == old(self).calls().push(BackEndCall::ClearRgba {
                r: r as int,
                g: g as int,
                b: b as int,
                a: a as int,
            }),
    ;

    /// Switches alpha blending on.
    fn enable_alpha_blend(&mut self)
        ensures
            final(self).capabilities() == old(self).capabilities(),
            final(self).calls() == old(self).calls().push(BackEndCall::EnableAlphaBlend),
    ;

    /// Switches alpha blending off.
    fn disable_alpha_blend(&mut self)
        ensures
            final(self).capabilities() == old(self).capabilities(),
            final(self).calls() == old(self).calls().push(BackEndCall::DisableAlphaBlend),
    ;

    /// Binds the given texture.
    fn enable_single_texture(&mut self, texture_id: usize)
        requires
            old(self).capabilities().single_texture,
        ensures
            final(self).capabilities() == old(self).capabilities(),
            final(self).calls() == old(self).calls().push(BackEndCall::EnableSingleTexture {
                texture_id: texture_id as int,
            }),
    ;

    /// Releases the bound texture.
    fn disable_single_texture(&mut self)
        ensures
            final(self).capabilities() == old(self).capabilities(),
            final(self).calls() == old(self).calls().push(BackEndCall::DisableSingleTexture),
    ;

    /// Submits one plain triangle list: two position values and four
    /// color values per vertex, every three vertices one triangle.
    fn submit_triangle_list(&mut self, positions: &Vec<i64>, colors: &Vec<i64>)
        requires
            old(self).capabilities().triangle_list,
            positions@.len() % 6 == 0,
            colors@.len() == 2 * positions@.len(),
            positions@.len() <= 2 * old(self).capabilities().max_vertices,
        ensures
            final(self).capabilities() == old(self).capabilities(),
            final(self).calls() == old(self).calls().push(BackEndCall::SubmitTriangleList {
                positions: crate::internal::ints_of(positions@),
                colors: crate::internal::ints_of(colors@),
            }),
    ;

    /// Submits one textured triangle list: two position values, four
    /// color values and two texture coordinate values per vertex.
    fn submit_triangle_list_textured(
        &mut self,
        positions: &Vec<i64>,
        colors: &Vec<i64>,
        uvs: &Vec<i64>,
    )
        requires
            old(self).capabilities().triangle_list_textured,
            positions@.len() % 6 == 0,
            colors@.len() == 2 * positions@.len(),
            uvs@.len() == positions@.len(),
            positions@.len() <= 2 * old(self).capabilities().max_vertices,
        ensures
            final(self).capabilities() == old(self).capabilities(),
            final(self).calls() == old(self).calls().push(
                BackEndCall::SubmitTriangleListTextured {
                    positions: crate::internal::ints_of(positions@),
                    colors: crate::internal::ints_of(colors@),
                    uvs: crate::internal::ints_of(uvs@),
                },
            ),
    ;
}

} // verus!
