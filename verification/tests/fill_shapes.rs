//! Filling shapes end to end through the contexts.

use graphics::back_end::BackEnd;
use graphics::context::Context;
use graphics::fx::FX_ONE;
use graphics::recording::{RecordedCall, RecordingBackEnd};
use graphics::vecmath::identity;
use graphics::Field;
use graphics::polygon_color_context::PolygonColorContext;

#[test]
fn round_rectangle_fill_submits_its_fan() {
    let mut be = RecordingBackEnd::new(false, true, false, false, Vec::new(), 4096);
    let c = Context::new();
    let d = c.rect(0, 0, 100 * FX_ONE, 50 * FX_ONE);
    let e = d.round(5 * FX_ONE);
    let f = e.rgba(0, 0, FX_ONE, FX_ONE);
    assert!(f.fill(&mut be).is_ok());
    assert_eq!(be.calls.len(), 1);
    match &be.calls[0] {
        RecordedCall::SubmitTriangleList { positions, colors } => {
            // 12 * (32 + 1) vertices for the default resolution of 32.
            assert_eq!(positions.len(), 2 * 12 * 33);
            assert_eq!(colors.len(), 4 * 12 * 33);
        },
        _ => panic!("expected a plain triangle-list submission"),
    }
}

#[test]
fn round_rectangle_fill_with_zero_radius_is_the_plain_rectangle() {
    let mut be = RecordingBackEnd::new(false, true, false, false, Vec::new(), 4096);
    let c = Context::new();
    let d = c.rect(0, 0, 100 * FX_ONE, 50 * FX_ONE);
    let e = d.round(0);
    let f = e.rgba(0, 0, FX_ONE, FX_ONE);
    assert!(f.fill(&mut be).is_ok());
    assert_eq!(be.calls.len(), 1);
    match &be.calls[0] {
        RecordedCall::SubmitTriangleList { positions, .. } => {
            assert_eq!(positions.len(), 12);
        },
        _ => panic!("expected a plain triangle-list submission"),
    }
}

#[test]
fn round_rectangle_fill_fails_without_triangle_lists() {
    let mut be = RecordingBackEnd::new(true, false, false, false, Vec::new(), 4096);
    let c = Context::new();
    let d = c.rect(0, 0, 10 * FX_ONE, 10 * FX_ONE);
    let e = d.round(FX_ONE);
    let f = e.rgba(0, 0, FX_ONE, FX_ONE);
    assert!(f.fill(&mut be).is_err());
    assert_eq!(be.calls.len(), 0);
}

#[test]
fn polygon_fill_submits_the_fan() {
    let mut be = RecordingBackEnd::new(false, true, false, false, Vec::new(), 120);
    let pts: [i64; 8] = [0, 0, 4 * FX_ONE, 0, 4 * FX_ONE, 4 * FX_ONE, 0, 4 * FX_ONE];
    let p = PolygonColorContext {
        base: Field::Value(identity()),
        transform: Field::Value(identity()),
        color: Field::Value([FX_ONE, 0, 0, FX_ONE]),
        polygon: Field::Value(&pts),
    };
    assert!(p.fill(&mut be).is_ok());
    assert_eq!(be.calls.len(), 1);
    match &be.calls[0] {
        RecordedCall::SubmitTriangleList { positions, colors } => {
            // A quad fans into two triangles.
            assert_eq!(positions.len(), 12);
            assert_eq!(colors.len(), 24);
        },
        _ => panic!("expected a plain triangle-list submission"),
    }
}

#[test]
fn degenerate_polygon_fill_submits_nothing() {
    let mut be = RecordingBackEnd::new(false, true, false, false, Vec::new(), 120);
    let pts: [i64; 4] = [0, 0, 4 * FX_ONE, 0];
    let p = PolygonColorContext {
        base: Field::Value(identity()),
        transform: Field::Value(identity()),
        color: Field::Value([FX_ONE, 0, 0, FX_ONE]),
        polygon: Field::Value(&pts),
    };
    // An empty buffer is a valid degenerate draw: dispatch succeeds
    // and nothing is submitted.
    assert!(p.fill(&mut be).is_ok());
    assert_eq!(be.calls.len(), 0);
}

#[test]
fn capability_queries_match_construction() {
    let be = RecordingBackEnd::new(true, false, true, false, vec![1, 2], 33);
    assert!(be.supports_clear_rgba());
    assert!(!be.supports_triangle_list());
    assert!(be.supports_triangle_list_textured());
    assert!(!be.supports_single_texture());
    assert!(be.has_texture_alpha(1));
    assert!(be.has_texture_alpha(2));
    assert!(!be.has_texture_alpha(3));
    assert_eq!(be.max_vertices_per_submission(), 33);
}
