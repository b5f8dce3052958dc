//! The capability-negotiated rendering protocol, observed through a
//! recording back end.

use graphics::back_end::BackEnd;
use graphics::context::Context;
use graphics::dispatch::{clear, draw_triangle_list, GraphicsError};
use graphics::fx::FX_ONE;
use graphics::recording::{RecordedCall, RecordingBackEnd};

fn plain_back_end(max_vertices: usize) -> RecordingBackEnd {
    RecordingBackEnd::new(false, true, false, false, Vec::new(), max_vertices)
}

#[test]
fn fill_opaque_rectangle_submits_once_without_blend() {
    // A rectangle (0, 0, 100, 100) filled with (1, 0, 0, 1) under the
    // identity transform, on a back end that supports plain triangle
    // lists but not clear.
    let mut be = plain_back_end(120);
    let c = Context::new();
    let d = c.rect(0, 0, 100 * FX_ONE, 100 * FX_ONE);
    let e = d.rgba(FX_ONE, 0, 0, FX_ONE);
    assert!(e.fill(&mut be).is_ok());
    assert_eq!(be.calls.len(), 1);
    match &be.calls[0] {
        RecordedCall::SubmitTriangleList { positions, colors } => {
            assert_eq!(positions.len(), 12);
            assert_eq!(colors.len(), 24);
            let w = 100 * FX_ONE;
            assert_eq!(positions, &vec![0, 0, w, 0, 0, w, w, 0, w, w, 0, w]);
            for v in 0..6 {
                assert_eq!(colors[4 * v], FX_ONE);
                assert_eq!(colors[4 * v + 1], 0);
                assert_eq!(colors[4 * v + 2], 0);
                assert_eq!(colors[4 * v + 3], FX_ONE);
            }
        },
        _ => panic!("expected a plain triangle-list submission"),
    }
    // The same context reports a failed clear and makes no other call.
    assert!(matches!(
        e.clear(&mut be),
        Err(GraphicsError::UnsupportedPrimitive)
    ));
    assert_eq!(be.calls.len(), 1);
}

#[test]
fn clear_without_support_is_a_reported_failure() {
    let mut be = plain_back_end(120);
    let r = clear(&mut be, [0, 0, 0, FX_ONE]);
    assert!(matches!(r, Err(GraphicsError::UnsupportedPrimitive)));
    assert_eq!(be.calls.len(), 0);
}

#[test]
fn clear_with_support_forwards_the_color() {
    let mut be = RecordingBackEnd::new(true, true, false, false, Vec::new(), 120);
    assert!(clear(&mut be, [1, 2, 3, FX_ONE]).is_ok());
    assert_eq!(be.calls.len(), 1);
    assert!(matches!(
        be.calls[0],
        RecordedCall::ClearRgba { r: 1, g: 2, b: 3, a } if a == FX_ONE
    ));
}

#[test]
fn zero_alpha_draw_makes_no_back_end_call() {
    let mut be = plain_back_end(120);
    let c = Context::new();
    let d = c.rect(0, 0, 10 * FX_ONE, 10 * FX_ONE);
    let e = d.rgba(FX_ONE, FX_ONE, FX_ONE, 0);
    assert!(e.fill(&mut be).is_ok());
    assert_eq!(be.calls.len(), 0);
}

#[test]
fn translucent_draw_is_bracketed_by_one_blend_pair() {
    // With a cap of three vertices the six rectangle vertices are
    // split into two submissions, yet exactly one blend scope wraps
    // them both.
    let mut be = plain_back_end(3);
    let c = Context::new();
    let d = c.rect(0, 0, 10 * FX_ONE, 10 * FX_ONE);
    let e = d.rgba(FX_ONE, 0, 0, FX_ONE / 2);
    assert!(e.fill(&mut be).is_ok());
    assert_eq!(be.calls.len(), 4);
    assert!(matches!(be.calls[0], RecordedCall::EnableAlphaBlend));
    assert!(matches!(be.calls[1], RecordedCall::SubmitTriangleList { .. }));
    assert!(matches!(be.calls[2], RecordedCall::SubmitTriangleList { .. }));
    assert!(matches!(be.calls[3], RecordedCall::DisableAlphaBlend));
    for call in &be.calls[1..3] {
        if let RecordedCall::SubmitTriangleList { positions, colors } = call {
            assert_eq!(positions.len(), 6);
            assert_eq!(colors.len(), 12);
        }
    }
}

#[test]
fn unsupported_draw_fails_loudly() {
    let mut be = RecordingBackEnd::new(true, false, false, false, Vec::new(), 120);
    let positions = vec![0, 0, FX_ONE, 0, 0, FX_ONE];
    let colors = graphics::triangulation::tri_list_rgba(3, &[FX_ONE, 0, 0, FX_ONE]);
    let r = draw_triangle_list(&mut be, &positions, &colors, [FX_ONE, 0, 0, FX_ONE]);
    assert!(matches!(r, Err(GraphicsError::UnsupportedPrimitive)));
    assert_eq!(be.calls.len(), 0);
}

#[test]
fn chunking_respects_the_vertex_cap_on_triangle_boundaries() {
    // 20 triangles (60 vertices) against a cap of 7 vertices: chunks
    // of 6 vertices (the largest multiple of three within the cap).
    let mut be = plain_back_end(7);
    let mut positions: Vec<i64> = Vec::new();
    for k in 0..60 {
        positions.push(k);
        positions.push(-k);
    }
    let colors = graphics::triangulation::tri_list_rgba(60, &[FX_ONE, 0, 0, FX_ONE]);
    assert!(draw_triangle_list(&mut be, &positions, &colors, [FX_ONE, 0, 0, FX_ONE]).is_ok());
    assert_eq!(be.calls.len(), 10);
    let mut gathered: Vec<i64> = Vec::new();
    for call in &be.calls {
        match call {
            RecordedCall::SubmitTriangleList { positions: p, colors: c } => {
                // 6 vertices per chunk: 12 position values.
                assert_eq!(p.len(), 12);
                assert_eq!(c.len(), 24);
                gathered.extend_from_slice(p);
            },
            _ => panic!("expected only submissions"),
        }
    }
    // The chunks concatenate to the whole buffer, in order.
    assert_eq!(gathered, positions);
}

#[test]
fn textured_draw_brackets_binding_and_blend() {
    let mut be = RecordingBackEnd::new(false, false, true, true, vec![7], 120);
    assert!(be.has_texture_alpha(7));
    assert!(!be.has_texture_alpha(8));
    let c = Context::new();
    let d = c.rect(0, 0, 10 * FX_ONE, 10 * FX_ONE);
    let img = graphics::Image {
        texture_id: 7,
        texture_width: 64,
        texture_height: 64,
        source_rect: [0, 0, 64, 64],
    };
    let e = d.image(img);
    let f = e.rgba(FX_ONE, FX_ONE, FX_ONE, FX_ONE);
    assert!(f.draw(&mut be).is_ok());
    // The texture carries alpha, so a blend scope wraps the binding.
    assert_eq!(be.calls.len(), 5);
    assert!(matches!(be.calls[0], RecordedCall::EnableAlphaBlend));
    assert!(matches!(
        be.calls[1],
        RecordedCall::EnableSingleTexture { texture_id: 7 }
    ));
    assert!(matches!(
        be.calls[2],
        RecordedCall::SubmitTriangleListTextured { .. }
    ));
    assert!(matches!(be.calls[3], RecordedCall::DisableSingleTexture));
    assert!(matches!(be.calls[4], RecordedCall::DisableAlphaBlend));
}

#[test]
fn opaque_textured_draw_without_texture_alpha_skips_blend() {
    let mut be = RecordingBackEnd::new(false, false, true, true, Vec::new(), 120);
    let c = Context::new();
    let d = c.rect(0, 0, 10 * FX_ONE, 10 * FX_ONE);
    let img = graphics::Image {
        texture_id: 3,
        texture_width: 32,
        texture_height: 32,
        source_rect: [0, 0, 32, 32],
    };
    let e = d.image(img);
    let f = e.rgba(FX_ONE, FX_ONE, FX_ONE, FX_ONE);
    assert!(f.draw(&mut be).is_ok());
    assert_eq!(be.calls.len(), 3);
    assert!(matches!(
        be.calls[0],
        RecordedCall::EnableSingleTexture { texture_id: 3 }
    ));
    assert!(matches!(
        be.calls[1],
        RecordedCall::SubmitTriangleListTextured { .. }
    ));
    assert!(matches!(be.calls[2], RecordedCall::DisableSingleTexture));
}
