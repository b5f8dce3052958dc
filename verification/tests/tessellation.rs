//! Shape tessellation.

use graphics::dispatch::GraphicsError;
use graphics::fx::FX_ONE;
use graphics::triangulation::{
    bevel_border_tri_list_xy, bevel_rectangle_tri_list_xy, ellipse_tri_list_xy,
    polygon_tri_list_xy, rect_tri_list_uv, rect_tri_list_xy, round_border_tri_list_xy,
    round_rectangle_tri_list_xy, square_border_tri_list_xy, tri_list_rgba,
    tween_polygons_tri_list_xy,
};
use graphics::vecmath::identity;
use graphics::Image;

#[test]
fn rectangle_yields_six_transformed_corners() {
    let m = identity();
    let w = 100 * FX_ONE;
    let h = 50 * FX_ONE;
    let out = rect_tri_list_xy(&m, &[0, 0, w, h]);
    assert_eq!(
        out,
        vec![0, 0, w, 0, 0, h, w, 0, w, h, 0, h]
    );
}

#[test]
fn rectangle_corners_are_translated() {
    let m = graphics::vecmath::translate(10 * FX_ONE, 20 * FX_ONE);
    let out = rect_tri_list_xy(&m, &[0, 0, FX_ONE, FX_ONE]);
    let x = 10 * FX_ONE;
    let y = 20 * FX_ONE;
    let x2 = 11 * FX_ONE;
    let y2 = 21 * FX_ONE;
    assert_eq!(out, vec![x, y, x2, y, x, y2, x2, y, x2, y2, x, y2]);
}

#[test]
fn color_buffer_repeats_the_color_per_vertex() {
    let out = tri_list_rgba(3, &[FX_ONE, 0, FX_ONE / 2, FX_ONE]);
    assert_eq!(out.len(), 12);
    for v in 0..3 {
        assert_eq!(out[4 * v], FX_ONE);
        assert_eq!(out[4 * v + 1], 0);
        assert_eq!(out[4 * v + 2], FX_ONE / 2);
        assert_eq!(out[4 * v + 3], FX_ONE);
    }
}

#[test]
fn round_rectangle_vertex_count_depends_only_on_resolution_and_zero_radius() {
    let m = identity();
    let r = [0, 0, 100 * FX_ONE, 50 * FX_ONE];
    // At radius zero the arcs collapse to the plain rectangle.
    let flat = round_rectangle_tri_list_xy(4, &m, &r, 0);
    assert_eq!(flat, rect_tri_list_xy(&m, &r));
    // Any positive radius gives the same count for the same resolution.
    let a = round_rectangle_tri_list_xy(4, &m, &r, 2 * FX_ONE);
    let b = round_rectangle_tri_list_xy(4, &m, &r, 10 * FX_ONE);
    assert_eq!(a.len(), 2 * 12 * (4 + 1));
    assert_eq!(a.len(), b.len());
    // A whole number of triangles: value count divisible by six.
    assert_eq!(a.len() % 6, 0);
    let c = round_rectangle_tri_list_xy(7, &m, &r, 2 * FX_ONE);
    assert_eq!(c.len(), 2 * 12 * (7 + 1));
    assert_eq!(c.len() % 6, 0);
}

#[test]
fn bevel_rectangle_is_an_octagon_fan() {
    let m = identity();
    let out = bevel_rectangle_tri_list_xy(&m, &[0, 0, 10 * FX_ONE, 10 * FX_ONE], FX_ONE);
    // Eight triangles, three vertices each, two values per vertex.
    assert_eq!(out.len(), 48);
}

#[test]
fn ellipse_under_three_segments_is_empty() {
    let m = identity();
    let r = [0, 0, 10 * FX_ONE, 10 * FX_ONE];
    assert_eq!(ellipse_tri_list_xy(0, &m, &r).len(), 0);
    assert_eq!(ellipse_tri_list_xy(1, &m, &r).len(), 0);
    assert_eq!(ellipse_tri_list_xy(2, &m, &r).len(), 0);
    assert_eq!(ellipse_tri_list_xy(3, &m, &r).len(), 6 * 3);
    assert_eq!(ellipse_tri_list_xy(16, &m, &r).len(), 6 * 16);
}

#[test]
fn polygon_under_three_points_is_empty() {
    let m = identity();
    assert_eq!(polygon_tri_list_xy(&m, &[]).len(), 0);
    assert_eq!(polygon_tri_list_xy(&m, &[FX_ONE, FX_ONE]).len(), 0);
    assert_eq!(polygon_tri_list_xy(&m, &[0, 0, FX_ONE, 0]).len(), 0);
}

#[test]
fn triangle_fans_from_its_first_point() {
    let m = identity();
    let a = FX_ONE;
    let out = polygon_tri_list_xy(&m, &[0, 0, a, 0, a, a]);
    assert_eq!(out, vec![0, 0, a, 0, a, a]);
}

#[test]
fn square_fans_into_two_triangles() {
    let m = identity();
    let a = FX_ONE;
    let out = polygon_tri_list_xy(&m, &[0, 0, a, 0, a, a, 0, a]);
    assert_eq!(out, vec![0, 0, a, 0, a, a, 0, 0, a, a, 0, a]);
}

#[test]
fn tween_with_mismatched_lengths_is_rejected() {
    let m = identity();
    let a = [0, 0, FX_ONE, 0, FX_ONE, FX_ONE];
    let b = [0, 0, FX_ONE, 0, FX_ONE, FX_ONE, 0, FX_ONE];
    let out = tween_polygons_tri_list_xy(&m, &a, &b, FX_ONE / 2);
    assert!(matches!(out, Err(GraphicsError::TweenLengthMismatch)));
}

#[test]
fn tween_interpolates_halfway() {
    let m = identity();
    let a = [0, 0, 2 * FX_ONE, 0, 2 * FX_ONE, 2 * FX_ONE];
    let b = [2 * FX_ONE, 0, 4 * FX_ONE, 0, 4 * FX_ONE, 4 * FX_ONE];
    let out = tween_polygons_tri_list_xy(&m, &a, &b, FX_ONE / 2).unwrap();
    let e = FX_ONE;
    assert_eq!(out, vec![e, 0, 3 * e, 0, 3 * e, 3 * e]);
}

#[test]
fn tween_at_zero_is_the_source_polygon() {
    let m = identity();
    let a = [0, 0, 2 * FX_ONE, 0, FX_ONE, 2 * FX_ONE];
    let b = [FX_ONE, FX_ONE, 3 * FX_ONE, 0, 0, FX_ONE];
    let out = tween_polygons_tri_list_xy(&m, &a, &b, 0).unwrap();
    assert_eq!(out, polygon_tri_list_xy(&m, &a));
}

#[test]
fn zero_width_borders_are_empty() {
    let m = identity();
    let r = [0, 0, 10 * FX_ONE, 10 * FX_ONE];
    assert_eq!(square_border_tri_list_xy(&m, &r, 0).len(), 0);
    assert_eq!(round_border_tri_list_xy(4, &m, &r, FX_ONE, 0).len(), 0);
    assert_eq!(bevel_border_tri_list_xy(&m, &r, FX_ONE, 0).len(), 0);
}

#[test]
fn border_rings_have_the_expected_counts() {
    let m = identity();
    let r = [0, 0, 10 * FX_ONE, 10 * FX_ONE];
    // Four quads of two triangles each.
    assert_eq!(square_border_tri_list_xy(&m, &r, FX_ONE).len(), 48);
    // One quad pair per outline step: 4 * (n + 1) steps.
    assert_eq!(round_border_tri_list_xy(4, &m, &r, 2 * FX_ONE, FX_ONE).len(), 48 * 5);
    // Eight quads of two triangles each.
    assert_eq!(bevel_border_tri_list_xy(&m, &r, 2 * FX_ONE, FX_ONE).len(), 96);
}

#[test]
fn square_border_ring_vertices() {
    let m = identity();
    let a = 4 * FX_ONE;
    let w = FX_ONE;
    let out = square_border_tri_list_xy(&m, &[0, 0, a, a], w);
    // First quad: outer corner (0,0) to outer corner (a,0), inner
    // corners one border width inside.
    assert_eq!(&out[0..12], &[0, 0, w, w, a, 0, w, w, a, 0, a - w, w]);
}

#[test]
fn image_uv_is_the_normalized_source_rectangle() {
    let img = Image {
        texture_id: 7,
        texture_width: 64,
        texture_height: 64,
        source_rect: [16, 16, 32, 32],
    };
    let out = rect_tri_list_uv(&img);
    let u1 = FX_ONE / 4;
    let u2 = 3 * FX_ONE / 4;
    assert_eq!(
        out,
        vec![u1, u1, u2, u1, u1, u2, u2, u1, u2, u2, u1, u2]
    );
}
