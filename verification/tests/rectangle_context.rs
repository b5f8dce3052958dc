//! The context builder chain.

use graphics::context::Context;
use graphics::fx::FX_ONE;
use graphics::vecmath::identity;
use graphics::Field;
use graphics::tween_context::TweenContext;
use graphics::polygon_context::PolygonContext;
use graphics::line_context::LineContext;

#[test]
fn test_rgba() {
    let c = Context::new();
    let d = c.rect(0, 0, 100 * FX_ONE, 100 * FX_ONE);
    let e = d.rgba(FX_ONE, 0, 0, FX_ONE);
    let color = e.color.get();
    assert_eq!(color[0], FX_ONE);
}

#[test]
fn rect_sets_the_rectangle() {
    let c = Context::new();
    let d = c.rect(FX_ONE, 2 * FX_ONE, 3 * FX_ONE, 4 * FX_ONE);
    assert_eq!(*d.get_rectangle(), [FX_ONE, 2 * FX_ONE, 3 * FX_ONE, 4 * FX_ONE]);
}

#[test]
fn transform_replaces_only_the_current_transform() {
    let c = Context::new();
    let d = c.rect(0, 0, FX_ONE, FX_ONE);
    let m: [i64; 6] = [FX_ONE, 0, 5 * FX_ONE, 0, FX_ONE, 6 * FX_ONE];
    let e = d.transform(m);
    assert_eq!(*e.get_transform(), m);
    assert_eq!(*e.get_view_transform(), identity());
    assert_eq!(*e.get_rectangle(), [0, 0, FX_ONE, FX_ONE]);
}

#[test]
fn view_transform_replaces_only_the_base() {
    let c = Context::new();
    let d = c.rect(0, 0, FX_ONE, FX_ONE);
    let m: [i64; 6] = [2 * FX_ONE, 0, 0, 0, 2 * FX_ONE, 0];
    let e = d.view_transform(m);
    assert_eq!(*e.get_view_transform(), m);
    assert_eq!(*e.get_transform(), identity());
}

#[test]
fn round_keeps_the_rectangle_and_sets_the_radius() {
    let c = Context::new();
    let d = c.rect(0, 0, 10 * FX_ONE, 10 * FX_ONE);
    let e = d.round(2 * FX_ONE);
    assert_eq!(*e.round_radius.get(), 2 * FX_ONE);
    assert_eq!(*e.rect.get(), [0, 0, 10 * FX_ONE, 10 * FX_ONE]);
}

#[test]
fn bevel_sets_the_bevel_radius() {
    let c = Context::new();
    let d = c.rect(0, 0, 10 * FX_ONE, 10 * FX_ONE);
    let e = d.bevel(FX_ONE);
    assert_eq!(*e.get_bevel_radius(), FX_ONE);
}

#[test]
fn field_returns_value_or_borrowed() {
    let owned: Field<i64> = Field::Value(42);
    assert_eq!(*owned.get(), 42);
    let shared: i64 = 7;
    let borrowed: Field<i64> = Field::Borrowed(&shared);
    assert_eq!(*borrowed.get(), 7);
}

#[test]
fn image_is_kept_by_the_image_context() {
    let c = Context::new();
    let d = c.rect(0, 0, FX_ONE, FX_ONE);
    let img = graphics::Image {
        texture_id: 9,
        texture_width: 128,
        texture_height: 256,
        source_rect: [1, 2, 3, 4],
    };
    let e = d.image(img);
    let kept = e.image.get();
    assert_eq!(kept.texture_id, 9);
    assert_eq!(kept.texture_width, 128);
    assert_eq!(kept.texture_height, 256);
    assert_eq!(kept.source_rect, [1, 2, 3, 4]);
}

#[test]
fn round_color_context_accessors_rebuild_fields() {
    let c = Context::new();
    let d = c.rect(0, 0, 8 * FX_ONE, 8 * FX_ONE);
    let e = d.round(FX_ONE);
    let f = e.rgba(0, FX_ONE, 0, FX_ONE);
    assert_eq!(*f.get_color(), [0, FX_ONE, 0, FX_ONE]);
    let g = f.color([FX_ONE, 0, 0, FX_ONE / 2]);
    assert_eq!(*g.get_color(), [FX_ONE, 0, 0, FX_ONE / 2]);
    let h = g.rectangle([FX_ONE, FX_ONE, FX_ONE, FX_ONE]);
    assert_eq!(*h.get_rectangle(), [FX_ONE, FX_ONE, FX_ONE, FX_ONE]);
    assert_eq!(*h.round_radius.get(), FX_ONE);
}

#[test]
fn tween_context_view_and_reset() {
    let base: [i64; 6] = [2 * FX_ONE, 0, FX_ONE, 0, 2 * FX_ONE, 0];
    let t = TweenContext {
        base: Field::Value(base),
        transform: Field::Value(identity()),
        tween_factor: Field::Value(FX_ONE / 2),
    };
    let v = t.view();
    assert_eq!(*v.transform.get(), base);
    let r = t.reset();
    assert_eq!(*r.transform.get(), identity());
    assert_eq!(*r.tween_factor.get(), FX_ONE / 2);
}

#[test]
fn line_context_trans_composes_a_translation() {
    let line: [i64; 4] = [0, 0, FX_ONE, FX_ONE];
    let l = LineContext {
        base: Field::Value(identity()),
        transform: Field::Value(identity()),
        line: Field::Value(line),
    };
    let moved = l.trans(3 * FX_ONE, 4 * FX_ONE);
    assert_eq!(
        *moved.transform.get(),
        [FX_ONE, 0, 3 * FX_ONE, 0, FX_ONE, 4 * FX_ONE]
    );
    assert_eq!(*moved.line.get(), line);
}

#[test]
fn line_context_scale_and_shear_compose() {
    let l = LineContext {
        base: Field::Value(identity()),
        transform: Field::Value(identity()),
        line: Field::Value([0, 0, FX_ONE, 0]),
    };
    let s = l.scale(2 * FX_ONE, 3 * FX_ONE);
    assert_eq!(*s.transform.get(), [2 * FX_ONE, 0, 0, 0, 3 * FX_ONE, 0]);
    let sh = l.shear(FX_ONE, 0);
    assert_eq!(*sh.transform.get(), [FX_ONE, FX_ONE, 0, 0, FX_ONE, 0]);
}

#[test]
fn polygon_context_rgba_keeps_the_polygon() {
    let pts: [i64; 6] = [0, 0, FX_ONE, 0, FX_ONE, FX_ONE];
    let p = PolygonContext {
        base: Field::Value(identity()),
        transform: Field::Value(identity()),
        polygon: Field::Value(&pts),
    };
    let q = p.rgba(FX_ONE, 0, FX_ONE, FX_ONE);
    assert_eq!(*q.get_color(), [FX_ONE, 0, FX_ONE, FX_ONE]);
    assert_eq!(*q.polygon.get(), &pts[..]);
}
