//! Capability-negotiated draw dispatch.
//!
//! Given tessellated buffers and a back end, these functions select the
//! supported submission form, decide whether an alpha-blend scope is
//! needed, split the buffers into submissions that respect the back
//! end's vertex cap (always on triangle boundaries), and report an
//! unsupported draw as an error instead of drawing nothing silently.

use vstd::prelude::*;
use crate::back_end::{BackEnd, BackEndCall};
use crate::fx::FX_ONE;
use crate::internal::{Color, ints_of};

verus! {

/// Why a requested operation could not be carried out.
#[derive(Clone, Copy, Debug, PartialEq, Eq, Structural)]
pub enum GraphicsError {
    /// The back end supports none of the acceptable submission forms
    /// for the requested operation.
    UnsupportedPrimitive,
    /// The two point sequences of a tween have different lengths.
    TweenLengthMismatch,
}

/// The position values a single submission may carry: the largest
/// multiple of three vertices within the cap, two values per vertex.
pub open spec fn spec_chunk_step(max_vertices: int) -> int {
    2 * (max_vertices - max_vertices % 3)
}

/// The submissions that a plain triangle list is split into: full
/// chunks off the front, the remainder last, every chunk a whole
/// number of triangles.
pub open spec fn spec_chunk_calls(positions: Seq<int>, colors: Seq<int>, max_vertices: int)
    -> Seq<BackEndCall>
    decreases positions.len(),
{
    let step = spec_chunk_step(max_vertices);
    if max_vertices < 3 || positions.len() == 0 {
        Seq::empty()
    } else if positions.len() <= step {
        seq![BackEndCall::SubmitTriangleList { positions, colors }]
    } else {
        seq![
            BackEndCall::SubmitTriangleList {
                positions: positions.take(step),
                colors: colors.take(2 * step),
            },
        ] + spec_chunk_calls(positions.skip(step), colors.skip(2 * step), max_vertices)
    }
}

/// The submissions that a textured triangle list is split into.
pub open spec fn spec_chunk_calls_textured(
    positions: Seq<int>,
    colors: Seq<int>,
    uvs: Seq<int>,
    max_vertices: int,
) -> Seq<BackEndCall>
    decreases positions.len(),
{
    let step = spec_chunk_step(max_vertices);
    if max_vertices < 3 || positions.len() == 0 {
        Seq::empty()
    } else if positions.len() <= step {
        seq![BackEndCall::SubmitTriangleListTextured { positions, colors, uvs }]
    } else {
        seq![
            BackEndCall::SubmitTriangleListTextured {
                positions: positions.take(step),
                colors: colors.take(2 * step),
                uvs: uvs.take(step),
            },
        ] + spec_chunk_calls_textured(
            positions.skip(step),
            colors.skip(2 * step),
            uvs.skip(step),
            max_vertices,
        )
    }
}

/// The operations a plain draw performs: nothing when the color is
/// fully transparent; the submissions alone when it is fully opaque;
/// the submissions inside exactly one alpha-blend scope otherwise.
pub open spec fn spec_plain_draw_calls(
    positions: Seq<int>,
    colors: Seq<int>,
    alpha: int,
    max_vertices: int,
) -> Seq<BackEndCall> {
    if alpha == 0 {
        Seq::empty()
    } else if alpha == FX_ONE as int {
        spec_chunk_calls(positions, colors, max_vertices)
    } else {
        seq![BackEndCall::EnableAlphaBlend] + spec_chunk_calls(positions, colors, max_vertices)
            + seq![BackEndCall::DisableAlphaBlend]
    }
}

/// The operations a textured draw performs: the texture binding
/// brackets all submissions of the draw, and the blend scope, when one
/// is needed, brackets the binding.
pub open spec fn spec_textured_draw_calls(
    positions: Seq<int>,
    colors: Seq<int>,
    uvs: Seq<int>,
    alpha: int,
    texture_has_alpha: bool,
    texture_id: int,
    max_vertices: int,
) -> Seq<BackEndCall> {
    if alpha == 0 {
        Seq::empty()
    } else {
        let bound = seq![BackEndCall::EnableSingleTexture { texture_id }]
            + spec_chunk_calls_textured(positions, colors, uvs, max_vertices)
            + seq![BackEndCall::DisableSingleTexture];
        if alpha == FX_ONE as int && !texture_has_alpha {
            bound
        } else {
            seq![BackEndCall::EnableAlphaBlend] + bound + seq![BackEndCall::DisableAlphaBlend]
        }
    }
}

/// Copies `src[from..to)` into a fresh buffer.
fn copy_range(src: &Vec<i64>, from: usize, to: usize) -> (r: Vec<i64>)
    requires
        from <= to <= src@.len(),
    ensures
        r@ == src@.subrange(from as int, to as int),
{
    let mut r: Vec<i64> = Vec::new();
    let mut i: usize = from;
    while i < to
        invariant
            from <= i <= to <= src@.len(),
            r@ == src@.subrange(from as int, i as int),
        decreases to - i,
    {
        r.push(src[i]);
        proof {
            assert(r@ =~= src@.subrange(from as int, i as int + 1));
        }
        i += 1;
    }
    r
}

/// Submits a plain triangle list in chunks that respect the back end's
/// vertex cap, each chunk a whole number of triangles.
fn submit_chunks<B: BackEnd>(back_end: &mut B, positions: &Vec<i64>, colors: &Vec<i64>)
    requires
        old(back_end).capabilities().triangle_list,
        old(back_end).capabilities().max_vertices >= 3,
        2 * old(back_end).capabilities().max_vertices <= usize::MAX,
        positions@.len() % 6 == 0,
        colors@.len() == 2 * positions@.len(),
    ensures
        final(back_end).capabilities() == old(back_end).capabilities(),
        final(back_end).calls() == old(back_end).calls() + spec_chunk_calls(
            ints_of(positions@),
            ints_of(colors@),
            old(back_end).capabilities().max_vertices,
        ),
{
    let ghost all_pos = ints_of(positions@);
    let ghost all_col = ints_of(colors@);
    let ghost max = old(back_end).capabilities().max_vertices;
    let max_vertices = back_end.max_vertices_per_submission();
    let step: usize = 2 * (max_vertices - max_vertices % 3);
    let mut off: usize = 0;
    proof {
        assert(step as int == spec_chunk_step(max));
        assert(all_pos.skip(0) =~= all_pos);
        assert(all_col.skip(0) =~= all_col);
    }
    while off < positions.len()
        invariant
            back_end.capabilities() == old(back_end).capabilities(),
            old(back_end).capabilities().triangle_list,
            max == old(back_end).capabilities().max_vertices,
            max >= 3,
            step as int == spec_chunk_step(max),
            positions@.len() % 6 == 0,
            colors@.len() == 2 * positions@.len(),
            all_pos == ints_of(positions@),
            all_col == ints_of(colors@),
            0 <= off <= positions@.len(),
            off % 6 == 0,
            2 * (off as int) <= colors@.len(),
            back_end.calls() + spec_chunk_calls(
                all_pos.skip(off as int),
                all_col.skip(2 * off as int),
                max,
            ) == old(back_end).calls() + spec_chunk_calls(all_pos, all_col, max),
        decreases positions@.len() - off,
    {
        let remaining = positions.len() - off;
        let take_now: usize = if remaining < step {
            remaining
        } else {
            step
        };
        let end = off + take_now;
        let total_cols = colors.len();
        proof {
            assert(end as int <= positions@.len());
            assert(2 * (end as int) <= total_cols as int);
        }
        let chunk_pos = copy_range(positions, off, end);
        let chunk_col = copy_range(colors, 2 * off, 2 * end);
        proof {
            assert(step % 6 == 0) by {
                assert(step as int == 2 * (max - max % 3));
                assert((max - max % 3) % 3 == 0) by {
                    vstd::arithmetic::div_mod::lemma_fundamental_div_mod(max, 3);
                    vstd::arithmetic::div_mod::lemma_mod_multiples_basic(max / 3, 3);
                };
            };
            if remaining < step {
                vstd::arithmetic::div_mod::lemma_sub_mod_noop(
                    positions@.len() as int,
                    off as int,
                    6,
                );
            }
            assert(take_now % 6 == 0);
            vstd::arithmetic::div_mod::lemma_mod_division_less_than_divisor(max, 3);
            assert(take_now as int <= 2 * max);
            assert(ints_of(chunk_pos@) =~= all_pos.skip(off as int).take(take_now as int));
            assert(ints_of(chunk_col@) =~= all_col.skip(2 * off as int).take(2 * take_now as int));
        }
        back_end.submit_triangle_list(&chunk_pos, &chunk_col);
        proof {
            let rest_pos = all_pos.skip(off as int);
            let rest_col = all_col.skip(2 * off as int);
            if remaining <= step {
                assert(rest_pos.take(take_now as int) =~= rest_pos);
                assert(rest_col.take(2 * take_now as int) =~= rest_col);
                assert(all_pos.skip(end as int) =~= rest_pos.skip(take_now as int));
                assert(all_pos.skip(end as int).len() == 0);
                assert(spec_chunk_calls(all_pos.skip(end as int), all_col.skip(2 * end as int), max)
                    =~= Seq::<BackEndCall>::empty());
                assert(spec_chunk_calls(rest_pos, rest_col, max) =~= seq![
                    BackEndCall::SubmitTriangleList {
                        positions: ints_of(chunk_pos@),
                        colors: ints_of(chunk_col@),
                    },
                ]);
            } else {
                assert(spec_chunk_calls(rest_pos, rest_col, max) == seq![
                    BackEndCall::SubmitTriangleList {
                        positions: rest_pos.take(step as int),
                        colors: rest_col.take(2 * step as int),
                    },
                ] + spec_chunk_calls(rest_pos.skip(step as int), rest_col.skip(2 * step as int), max));
                assert(all_pos.skip(end as int) =~= rest_pos.skip(step as int));
                assert(all_col.skip(2 * end as int) =~= rest_col.skip(2 * step as int));
            }
            assert(back_end.calls() + spec_chunk_calls(
                all_pos.skip(end as int),
                all_col.skip(2 * end as int),
                max,
            ) =~= old(back_end).calls() + spec_chunk_calls(all_pos, all_col, max));
        }
        off = end;
    }
    proof {
        assert(all_pos.skip(off as int).len() == 0);
        assert(spec_chunk_calls(all_pos.skip(off as int), all_col.skip(2 * off as int), max)
            =~= Seq::<BackEndCall>::empty());
        assert(back_end.calls() + Seq::<BackEndCall>::empty() =~= back_end.calls());
        assert(back_end.calls() =~= old(back_end).calls() + spec_chunk_calls(
            all_pos,
            all_col,
            max,
        ));
    }
}

/// Submits a textured triangle list in chunks that respect the back
/// end's vertex cap, each chunk a whole number of triangles.
fn submit_chunks_textured<B: BackEnd>(
    back_end: &mut B,
    positions: &Vec<i64>,
    colors: &Vec<i64>,
    uvs: &Vec<i64>,
)
    requires
        old(back_end).capabilities().triangle_list_textured,
        old(back_end).capabilities().max_vertices >= 3,
        2 * old(back_end).capabilities().max_vertices <= usize::MAX,
        positions@.len() % 6 == 0,
        colors@.len() == 2 * positions@.len(),
        uvs@.len() == positions@.len(),
    ensures
        final(back_end).capabilities() == old(back_end).capabilities(),
        final(back_end).calls() == old(back_end).calls() + spec_chunk_calls_textured(
            ints_of(positions@),
            ints_of(colors@),
            ints_of(uvs@),
            old(back_end).capabilities().max_vertices,
        ),
{
    let ghost all_pos = ints_of(positions@);
    let ghost all_col = ints_of(colors@);
    let ghost all_uv = ints_of(uvs@);
    let ghost max = old(back_end).capabilities().max_vertices;
    let max_vertices = back_end.max_vertices_per_submission();
    let step: usize = 2 * (max_vertices - max_vertices % 3);
    let mut off: usize = 0;
    proof {
        assert(step as int == spec_chunk_step(max));
        assert(all_pos.skip(0) =~= all_pos);
        assert(all_col.skip(0) =~= all_col);
        assert(all_uv.skip(0) =~= all_uv);
    }
    while off < positions.len()
        invariant
            back_end.capabilities() == old(back_end).capabilities(),
            old(back_end).capabilities().triangle_list_textured,
            max == old(back_end).capabilities().max_vertices,
            max >= 3,
            step as int == spec_chunk_step(max),
            positions@.len() % 6 == 0,
            colors@.len() == 2 * positions@.len(),
            uvs@.len() == positions@.len(),
            all_pos == ints_of(positions@),
            all_col == ints_of(colors@),
            all_uv == ints_of(uvs@),
            0 <= off <= positions@.len(),
            off % 6 == 0,
            back_end.calls() + spec_chunk_calls_textured(
                all_pos.skip(off as int),
                all_col.skip(2 * off as int),
                all_uv.skip(off as int),
                max,
            ) == old(back_end).calls() + spec_chunk_calls_textured(all_pos, all_col, all_uv, max),
        decreases positions@.len() - off,
    {
        let remaining = positions.len() - off;
        let take_now: usize = if remaining < step {
            remaining
        } else {
            step
        };
        let end = off + take_now;
        let total_cols = colors.len();
        let total_uvs = uvs.len();
        proof {
            assert(end as int <= positions@.len());
            assert(2 * (end as int) <= total_cols as int);
            assert(end as int <= total_uvs as int);
        }
        let chunk_pos = copy_range(positions, off, end);
        let chunk_col = copy_range(colors, 2 * off, 2 * end);
        let chunk_uv = copy_range(uvs, off, end);
        proof {
            assert(step % 6 == 0) by {
                assert(step as int == 2 * (max - max % 3));
                assert((max - max % 3) % 3 == 0) by {
                    vstd::arithmetic::div_mod::lemma_fundamental_div_mod(max, 3);
                    vstd::arithmetic::div_mod::lemma_mod_multiples_basic(max / 3, 3);
                };
            };
            if remaining < step {
                vstd::arithmetic::div_mod::lemma_sub_mod_noop(
                    positions@.len() as int,
                    off as int,
                    6,
                );
            }
            assert(take_now % 6 == 0);
            vstd::arithmetic::div_mod::lemma_mod_division_less_than_divisor(max, 3);
            assert(take_now as int <= 2 * max);
            assert(ints_of(chunk_pos@) =~= all_pos.skip(off as int).take(take_now as int));
            assert(ints_of(chunk_col@) =~= all_col.skip(2 * off as int).take(2 * take_now as int));
            assert(ints_of(chunk_uv@) =~= all_uv.skip(off as int).take(take_now as int));
        }
        back_end.submit_triangle_list_textured(&chunk_pos, &chunk_col, &chunk_uv);
        proof {
            let rest_pos = all_pos.skip(off as int);
            let rest_col = all_col.skip(2 * off as int);
            let rest_uv = all_uv.skip(off as int);
            if remaining <= step {
                assert(rest_pos.take(take_now as int) =~= rest_pos);
                assert(rest_col.take(2 * take_now as int) =~= rest_col);
                assert(rest_uv.take(take_now as int) =~= rest_uv);
                assert(all_pos.skip(end as int) =~= rest_pos.skip(take_now as int));
                assert(all_pos.skip(end as int).len() == 0);
                assert(spec_chunk_calls_textured(
                    all_pos.skip(end as int),
                    all_col.skip(2 * end as int),
                    all_uv.skip(end as int),
                    max,
                ) =~= Seq::<BackEndCall>::empty());
                assert(spec_chunk_calls_textured(rest_pos, rest_col, rest_uv, max) =~= seq![
                    BackEndCall::SubmitTriangleListTextured {
                        positions: ints_of(chunk_pos@),
                        colors: ints_of(chunk_col@),
                        uvs: ints_of(chunk_uv@),
                    },
                ]);
            } else {
                assert(spec_chunk_calls_textured(rest_pos, rest_col, rest_uv, max) == seq![
                    BackEndCall::SubmitTriangleListTextured {
                        positions: rest_pos.take(step as int),
                        colors: rest_col.take(2 * step as int),
                        uvs: rest_uv.take(step as int),
                    },
                ] + spec_chunk_calls_textured(
                    rest_pos.skip(step as int),
                    rest_col.skip(2 * step as int),
                    rest_uv.skip(step as int),
                    max,
                ));
                assert(all_pos.skip(end as int) =~= rest_pos.skip(step as int));
                assert(all_col.skip(2 * end as int) =~= rest_col.skip(2 * step as int));
                assert(all_uv.skip(end as int) =~= rest_uv.skip(step as int));
            }
            assert(back_end.calls() + spec_chunk_calls_textured(
                all_pos.skip(end as int),
                all_col.skip(2 * end as int),
                all_uv.skip(end as int),
                max,
            ) =~= old(back_end).calls() + spec_chunk_calls_textured(all_pos, all_col, all_uv, max));
        }
        off = end;
    }
    proof {
        assert(all_pos.skip(off as int).len() == 0);
        assert(spec_chunk_calls_textured(
            all_pos.skip(off as int),
            all_col.skip(2 * off as int),
            all_uv.skip(off as int),
            max,
        ) =~= Seq::<BackEndCall>::empty());
        assert(back_end.calls() + Seq::<BackEndCall>::empty() =~= back_end.calls());
        assert(back_end.calls() =~= old(back_end).calls() + spec_chunk_calls_textured(
            all_pos,
            all_col,
            all_uv,
            max,
        ));
    }
}

/// Clears the surface with the given color, or reports the failure
/// when the back end lacks clear support: a clear is never silently
/// skipped.
pub fn clear<B: BackEnd>(back_end: &mut B, color: Color) -> (r: Result<(), GraphicsError>)
    ensures
        final(back_end).capabilities() == old(back_end).capabilities(),
        old(back_end).capabilities().clear ==> r == Ok::<(), GraphicsError>(())
            && final(back_end).calls() == old(back_end).calls().push(BackEndCall::ClearRgba {
            r: color@[0] as int,
            g: color@[1] as int,
            b: color@[2] as int,
            a: color@[3] as int,
        }),
        !old(back_end).capabilities().clear ==> r == Err::<(), GraphicsError>(
            GraphicsError::UnsupportedPrimitive,
        ) && final(back_end).calls() == old(back_end).calls(),
{
    if back_end.supports_clear_rgba() {
        back_end.clear_rgba(color[0], color[1], color[2], color[3]);
        Ok(())
    } else {
        Err(GraphicsError::UnsupportedPrimitive)
    }
}

/// Draws a plain triangle list with one color: skips invisible
/// geometry, opens an alpha-blend scope exactly when the color is
/// neither fully transparent nor fully opaque, submits in chunks, and
/// reports an unsupported draw as an error.
pub fn draw_triangle_list<B: BackEnd>(
    back_end: &mut B,
    positions: &Vec<i64>,
    colors: &Vec<i64>,
    color: Color,
) -> (r: Result<(), GraphicsError>)
    requires
        old(back_end).capabilities().max_vertices >= 3,
        2 * old(back_end).capabilities().max_vertices <= usize::MAX,
        positions@.len() % 6 == 0,
        colors@.len() == 2 * positions@.len(),
    ensures
        final(back_end).capabilities() == old(back_end).capabilities(),
        r == Ok::<(), GraphicsError>(()) <==> old(back_end).capabilities().triangle_list,
        r is Err ==> r == Err::<(), GraphicsError>(GraphicsError::UnsupportedPrimitive)
            && final(back_end).calls() == old(back_end).calls(),
        old(back_end).capabilities().triangle_list ==> final(back_end).calls() == old(back_end).calls() + spec_plain_draw_calls(
            ints_of(positions@),
            ints_of(colors@),
            color@[3] as int,
            old(back_end).capabilities().max_vertices,
        ),
{
    if !back_end.supports_triangle_list() {
        return Err(GraphicsError::UnsupportedPrimitive);
    }
    let alpha = color[3];
    if alpha == 0 {
        proof {
            assert(old(back_end).calls() + spec_plain_draw_calls(
                ints_of(positions@),
                ints_of(colors@),
                color@[3] as int,
                old(back_end).capabilities().max_vertices,
            ) =~= old(back_end).calls());
        }
        return Ok(());
    }
    let needs_alpha = alpha != FX_ONE;
    if needs_alpha {
        back_end.enable_alpha_blend();
    }
    submit_chunks(back_end, positions, colors);
    if needs_alpha {
        back_end.disable_alpha_blend();
    }
    proof {
        assert(back_end.calls() =~= old(back_end).calls() + spec_plain_draw_calls(
            ints_of(positions@),
            ints_of(colors@),
            color@[3] as int,
            old(back_end).capabilities().max_vertices,
        ));
    }
    Ok(())
}

/// Draws a textured triangle list: binds the texture around all chunks
/// of the draw, opens an alpha-blend scope when the color is not fully
/// opaque or the texture carries an alpha channel, and reports an
/// unsupported draw as an error.
pub fn draw_triangle_list_textured<B: BackEnd>(
    back_end: &mut B,
    positions: &Vec<i64>,
    colors: &Vec<i64>,
    uvs: &Vec<i64>,
    color: Color,
    texture_id: usize,
) -> (r: Result<(), GraphicsError>)
    requires
        old(back_end).capabilities().max_vertices >= 3,
        2 * old(back_end).capabilities().max_vertices <= usize::MAX,
        positions@.len() % 6 == 0,
        colors@.len() == 2 * positions@.len(),
        uvs@.len() == positions@.len(),
    ensures
        final(back_end).capabilities() == old(back_end).capabilities(),
        r == Ok::<(), GraphicsError>(()) <==> old(back_end).capabilities().single_texture && old(back_end).capabilities().triangle_list_textured,
        r is Err ==> r == Err::<(), GraphicsError>(GraphicsError::UnsupportedPrimitive)
            && final(back_end).calls() == old(back_end).calls(),
        old(back_end).capabilities().single_texture && old(back_end).capabilities().triangle_list_textured ==> final(back_end).calls() == old(back_end).calls() + spec_textured_draw_calls(
            ints_of(positions@),
            ints_of(colors@),
            ints_of(uvs@),
            color@[3] as int,
            old(back_end).capabilities().alpha_textures.contains(texture_id as int),
            texture_id as int,
            old(back_end).capabilities().max_vertices,
        ),
{
    if !(back_end.supports_single_texture() && back_end.supports_triangle_list_textured()) {
        return Err(GraphicsError::UnsupportedPrimitive);
    }
    let ghost tex_alpha = old(back_end).capabilities().alpha_textures.contains(
        texture_id as int,
    );
    let alpha = color[3];
    if alpha == 0 {
        proof {
            assert(old(back_end).calls() + spec_textured_draw_calls(
                ints_of(positions@),
                ints_of(colors@),
                ints_of(uvs@),
                color@[3] as int,
                tex_alpha,
                texture_id as int,
                old(back_end).capabilities().max_vertices,
            ) =~= old(back_end).calls());
        }
        return Ok(());
    }
    let needs_alpha = alpha != FX_ONE || back_end.has_texture_alpha(texture_id);
    if needs_alpha {
        back_end.enable_alpha_blend();
    }
    back_end.enable_single_texture(texture_id);
    submit_chunks_textured(back_end, positions, colors, uvs);
    back_end.disable_single_texture();
    if needs_alpha {
        back_end.disable_alpha_blend();
    }
    proof {
        assert(back_end.calls() =~= old(back_end).calls() + spec_textured_draw_calls(
            ints_of(positions@),
            ints_of(colors@),
            ints_of(uvs@),
            color@[3] as int,
            tex_alpha,
            texture_id as int,
            old(back_end).capabilities().max_vertices,
        ));
    }
    Ok(())
}

/// Every operation of a chunked plain submission is a triangle-list
/// submission: chunking introduces no state toggles.
pub proof fn lemma_chunk_calls_only_submissions(
    positions: Seq<int>,
    colors: Seq<int>,
    max_vertices: int,
)
    ensures
        forall|i: int|
            0 <= i < spec_chunk_calls(positions, colors, max_vertices).len()
                ==> #[trigger] spec_chunk_calls(positions, colors, max_vertices)[i]
                is SubmitTriangleList,
    decreases positions.len(),
{
    let step = spec_chunk_step(max_vertices);
    if max_vertices < 3 || positions.len() == 0 {
    } else if positions.len() <= step {
    } else {
        lemma_chunk_calls_only_submissions(
            positions.skip(step),
            colors.skip(2 * step),
            max_vertices,
        );
    }
}

/// A draw whose alpha is strictly between transparent and opaque is
/// bracketed by exactly one alpha-blend scope: the first operation
/// enables blending, the last disables it, and everything in between
/// is a triangle-list submission, however many chunks there are.
pub proof fn lemma_alpha_blend_bracketing(
    positions: Seq<int>,
    colors: Seq<int>,
    alpha: int,
    max_vertices: int,
)
    requires
        alpha != 0,
        alpha != FX_ONE as int,
    ensures
        spec_plain_draw_calls(positions, colors, alpha, max_vertices).len() >= 2,
        spec_plain_draw_calls(positions, colors, alpha, max_vertices).first()
            is EnableAlphaBlend,
        spec_plain_draw_calls(positions, colors, alpha, max_vertices).last()
            is DisableAlphaBlend,
        forall|i: int|
            0 < i < spec_plain_draw_calls(positions, colors, alpha, max_vertices).len() - 1
                ==> #[trigger] spec_plain_draw_calls(positions, colors, alpha, max_vertices)[i]
                is SubmitTriangleList,
{
    lemma_chunk_calls_only_submissions(positions, colors, max_vertices);
}

/// Every operation of a chunked textured submission is a textured
/// triangle-list submission.
pub proof fn lemma_chunk_calls_textured_only_submissions(
    positions: Seq<int>,
    colors: Seq<int>,
    uvs: Seq<int>,
    max_vertices: int,
)
    ensures
        forall|i: int|
            0 <= i < spec_chunk_calls_textured(positions, colors, uvs, max_vertices).len()
                ==> #[trigger] spec_chunk_calls_textured(positions, colors, uvs, max_vertices)[i]
                is SubmitTriangleListTextured,
    decreases positions.len(),
{
    let step = spec_chunk_step(max_vertices);
    if max_vertices < 3 || positions.len() == 0 {
    } else if positions.len() <= step {
    } else {
        lemma_chunk_calls_textured_only_submissions(
            positions.skip(step),
            colors.skip(2 * step),
            uvs.skip(step),
            max_vertices,
        );
    }
}

/// A textured draw whose color is neither fully transparent nor fully
/// opaque is bracketed by exactly one alpha-blend scope: blending is
/// enabled first and disabled last, and no operation in between
/// touches the blend state, however many chunks there are.
pub proof fn lemma_textured_alpha_blend_bracketing(
    positions: Seq<int>,
    colors: Seq<int>,
    uvs: Seq<int>,
    alpha: int,
    texture_has_alpha: bool,
    texture_id: int,
    max_vertices: int,
)
    requires
        alpha != 0,
        alpha != FX_ONE as int,
    ensures
        spec_textured_draw_calls(
            positions,
            colors,
            uvs,
            alpha,
            texture_has_alpha,
            texture_id,
            max_vertices,
        ).len() >= 2,
        spec_textured_draw_calls(
            positions,
            colors,
            uvs,
            alpha,
            texture_has_alpha,
            texture_id,
            max_vertices,
        ).first() is EnableAlphaBlend,
        spec_textured_draw_calls(
            positions,
            colors,
            uvs,
            alpha,
            texture_has_alpha,
            texture_id,
            max_vertices,
        ).last() is DisableAlphaBlend,
        forall|i: int|
            0 < i < spec_textured_draw_calls(
                positions,
                colors,
                uvs,
                alpha,
                texture_has_alpha,
                texture_id,
                max_vertices,
            ).len() - 1 ==> !(#[trigger] spec_textured_draw_calls(
                positions,
                colors,
                uvs,
                alpha,
                texture_has_alpha,
                texture_id,
                max_vertices,
            )[i] is EnableAlphaBlend) && !(spec_textured_draw_calls(
                positions,
                colors,
                uvs,
                alpha,
                texture_has_alpha,
                texture_id,
                max_vertices,
            )[i] is DisableAlphaBlend),
{
    lemma_chunk_calls_textured_only_submissions(positions, colors, uvs, max_vertices);
}

} // verus!
