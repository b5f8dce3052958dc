//! Shape tessellators.
//!
//! Each tessellator is a pure function from a transform, shape
//! parameters and a style to flat triangle-list buffers: two position
//! values per vertex, four color values per vertex, and for textured
//! quads two texture coordinate values per vertex. Geometry is generated
//! in local shape space and every vertex is pushed through the supplied
//! transform before emission. Every output holds a whole number of
//! triangles.

use vstd::prelude::*;
use crate::fx::{
    FX_ONE, fx_mul, fx_div, spec_fx_mul, spec_fx_div, lemma_fx_mul_bound, lemma_div_floor_bound,
};
use crate::Image;
use crate::internal::{Color, Matrix2d, Rectangle, ints_of};
use crate::vecmath::{
    POINT_LIMIT, mat_bounded, mat_view, spec_transform_x, spec_transform_y,
    transform_point,
};
use crate::trig::{HALF_PI_FX, TWO_PI_FX, spec_sin, spec_cos, sin_fx, cos_fx};
use vstd::arithmetic::div_mod::{
    lemma_mod_multiples_vanish, lemma_small_mod, lemma_mod_division_less_than_divisor,
    lemma_div_is_ordered, lemma_div_nonincreasing, lemma_div_pos_is_pos,
};

verus! {

/// Largest magnitude accepted for a shape coordinate, radius or
/// polygon point, chosen so that local geometry (a corner plus a
/// radius offset) stays within `POINT_LIMIT`.
pub const SHAPE_LIMIT: i64 = 0x8000_0000;

/// All four entries of a rectangle within `SHAPE_LIMIT`.
pub open spec fn rect_bounded(r: Rectangle) -> bool {
    forall|i: int| 0 <= i < 4 ==> -SHAPE_LIMIT <= #[trigger] r@[i] <= SHAPE_LIMIT
}

/// The corners of a rectangle `[x, y, w, h]`, numbered
/// `0: (x, y)`, `1: (x + w, y)`, `2: (x, y + h)`, `3: (x + w, y + h)`.
pub open spec fn spec_rect_corner(r: Seq<int>, k: int) -> (int, int) {
    if k == 0 {
        (r[0], r[1])
    } else if k == 1 {
        (r[0] + r[2], r[1])
    } else if k == 2 {
        (r[0], r[1] + r[3])
    } else {
        (r[0] + r[2], r[1] + r[3])
    }
}

/// A transformed local point, as the two values it contributes to a
/// position buffer.
pub open spec fn spec_emit(m: Seq<int>, p: (int, int)) -> Seq<int> {
    seq![spec_transform_x(m, p.0, p.1), spec_transform_y(m, p.0, p.1)]
}

/// The positions of a tessellated rectangle: two triangles over the
/// four transformed corners, six vertices in all.
pub open spec fn spec_rect_tri_list_xy(m: Seq<int>, r: Seq<int>) -> Seq<int> {
    spec_emit(m, spec_rect_corner(r, 0)) + spec_emit(m, spec_rect_corner(r, 1)) + spec_emit(
        m,
        spec_rect_corner(r, 2),
    ) + spec_emit(m, spec_rect_corner(r, 1)) + spec_emit(m, spec_rect_corner(r, 3)) + spec_emit(
        m,
        spec_rect_corner(r, 2),
    )
}

/// The color buffer of a triangle list: the one color of the draw,
/// repeated for each vertex.
pub open spec fn spec_tri_list_rgba(color: Seq<int>, vertex_count: int) -> Seq<int> {
    Seq::new((4 * vertex_count) as nat, |i: int| color[i % 4])
}

/// Tessellates a rectangle under a transform: exactly 6 vertices, each
/// the transform of one of the rectangle's corners.
pub fn rect_tri_list_xy(m: &Matrix2d, r: &Rectangle) -> (out: Vec<i64>)
    requires
        mat_bounded(*m),
        rect_bounded(*r),
    ensures
        ints_of(out@) == spec_rect_tri_list_xy(mat_view(*m), ints_of(r@)),
        out@.len() == 12,
{
    let x = r[0];
    let y = r[1];
    let x2 = r[0] + r[2];
    let y2 = r[1] + r[3];
    let p0 = transform_point(m, x, y);
    let p1 = transform_point(m, x2, y);
    let p2 = transform_point(m, x, y2);
    let p3 = transform_point(m, x2, y2);
    let mut out: Vec<i64> = Vec::new();
    out.push(p0.0);
    out.push(p0.1);
    out.push(p1.0);
    out.push(p1.1);
    out.push(p2.0);
    out.push(p2.1);
    out.push(p1.0);
    out.push(p1.1);
    out.push(p3.0);
    out.push(p3.1);
    out.push(p2.0);
    out.push(p2.1);
    proof {
        assert(ints_of(out@) =~= spec_rect_tri_list_xy(mat_view(*m), ints_of(r@)));
    }
    out
}

/// The color buffer for a triangle list of the given vertex count:
/// the draw's color, repeated per vertex.
pub fn tri_list_rgba(vertex_count: usize, color: &Color) -> (out: Vec<i64>)
    requires
        4 * vertex_count <= usize::MAX,
    ensures
        ints_of(out@) == spec_tri_list_rgba(ints_of(color@), vertex_count as int),
        out@.len() == 4 * vertex_count,
{
    let mut out: Vec<i64> = Vec::new();
    let mut i: usize = 0;
    while i < vertex_count
        invariant
            0 <= i <= vertex_count,
            4 * vertex_count <= usize::MAX,
            out@.len() == 4 * i,
            ints_of(out@) == spec_tri_list_rgba(ints_of(color@), vertex_count as int).take(
                4 * i as int,
            ),
        decreases vertex_count - i,
    {
        out.push(color[0]);
        out.push(color[1]);
        out.push(color[2]);
        out.push(color[3]);
        proof {
            let c = ints_of(color@);
            let full = spec_tri_list_rgba(c, vertex_count as int);
            assert forall|k: int| 4 * i <= k < 4 * i + 4 implies full[k] == c[k - 4 * i] by {
                lemma_mod_multiples_vanish(i as int, k - 4 * i, 4);
                lemma_small_mod((k - 4 * i) as nat, 4);
            };
            assert(ints_of(out@) =~= full.take(4 * (i + 1) as int));
        }
        i += 1;
    }
    proof {
        let full = spec_tri_list_rgba(ints_of(color@), vertex_count as int);
        assert(ints_of(out@) =~= full);
    }
    out
}

/// The mathematical value of a point list.
pub open spec fn pts_of(s: Seq<(i64, i64)>) -> Seq<(int, int)> {
    s.map_values(|p: (i64, i64)| (p.0 as int, p.1 as int))
}

/// All points within `POINT_LIMIT`, so they can be pushed through a
/// transform.
pub open spec fn pts_bounded(s: Seq<(int, int)>) -> bool {
    forall|j: int|
        0 <= j < s.len() ==> -POINT_LIMIT <= #[trigger] s[j].0 <= POINT_LIMIT && -POINT_LIMIT
            <= s[j].1 <= POINT_LIMIT
}

/// The first `t` triangles of a closed fan: apex `c`, one triangle per
/// outline point, the outline implicitly closed.
pub open spec fn spec_fan_prefix(m: Seq<int>, c: (int, int), pts: Seq<(int, int)>, t: int)
    -> Seq<int>
    decreases t,
{
    if t <= 0 {
        Seq::empty()
    } else {
        spec_fan_prefix(m, c, pts, t - 1) + spec_emit(m, c) + spec_emit(m, pts[t - 1])
            + spec_emit(m, pts[t % (pts.len() as int)])
    }
}

/// The positions of a closed fan over an outline: one triangle per
/// outline point, all sharing the apex.
pub open spec fn spec_fan_tri_list_xy(m: Seq<int>, c: (int, int), pts: Seq<(int, int)>)
    -> Seq<int> {
    spec_fan_prefix(m, c, pts, pts.len() as int)
}

/// A fan prefix holds six values (three vertices) per triangle.
pub proof fn lemma_fan_prefix_len(m: Seq<int>, c: (int, int), pts: Seq<(int, int)>, t: int)
    requires
        t >= 0,
    ensures
        spec_fan_prefix(m, c, pts, t).len() == 6 * t,
    decreases t,
{
    if t > 0 {
        lemma_fan_prefix_len(m, c, pts, t - 1);
    }
}

/// The first `t` triangles of an open fan from the first polygon
/// point: triangle `i` is `(p0, p[i], p[i + 1])`.
pub open spec fn spec_poly_fan_prefix(m: Seq<int>, pts: Seq<(int, int)>, t: int) -> Seq<int>
    decreases t,
{
    if t <= 0 {
        Seq::empty()
    } else {
        spec_poly_fan_prefix(m, pts, t - 1) + spec_emit(m, pts[0]) + spec_emit(m, pts[t])
            + spec_emit(m, pts[t + 1])
    }
}

/// The positions of a fan-triangulated polygon: empty under three
/// points, otherwise one triangle per point beyond the second.
pub open spec fn spec_polygon_tri_list_xy(m: Seq<int>, pts: Seq<(int, int)>) -> Seq<int> {
    if pts.len() < 3 {
        Seq::empty()
    } else {
        spec_poly_fan_prefix(m, pts, pts.len() - 2)
    }
}

/// The first `t` quads of a closed ring between two outlines of equal
/// length: each step spans two triangles between consecutive outer and
/// inner points.
pub open spec fn spec_ring_prefix(
    m: Seq<int>,
    outer: Seq<(int, int)>,
    inner: Seq<(int, int)>,
    t: int,
) -> Seq<int>
    decreases t,
{
    if t <= 0 {
        Seq::empty()
    } else {
        let i = t - 1;
        let j = t % (outer.len() as int);
        spec_ring_prefix(m, outer, inner, t - 1) + spec_emit(m, outer[i]) + spec_emit(m, inner[i])
            + spec_emit(m, outer[j]) + spec_emit(m, inner[i]) + spec_emit(m, outer[j]) + spec_emit(
            m,
            inner[j],
        )
    }
}

/// The positions of a closed ring between two outlines: the outline
/// band of a bordered shape.
pub open spec fn spec_ring_tri_list_xy(
    m: Seq<int>,
    outer: Seq<(int, int)>,
    inner: Seq<(int, int)>,
) -> Seq<int> {
    spec_ring_prefix(m, outer, inner, outer.len() as int)
}

/// Triangulates a closed fan over an outline.
fn fan_tri_list_xy(m: &Matrix2d, c: (i64, i64), pts: &Vec<(i64, i64)>) -> (out: Vec<i64>)
    requires
        mat_bounded(*m),
        -POINT_LIMIT <= c.0 <= POINT_LIMIT,
        -POINT_LIMIT <= c.1 <= POINT_LIMIT,
        pts_bounded(pts_of(pts@)),
        1 <= pts@.len() <= 0x1000_0000,
    ensures
        ints_of(out@) == spec_fan_tri_list_xy(
            mat_view(*m),
            (c.0 as int, c.1 as int),
            pts_of(pts@),
        ),
        out@.len() == 6 * pts@.len(),
{
    let ghost mv = mat_view(*m);
    let ghost cv = (c.0 as int, c.1 as int);
    let ghost ptsv = pts_of(pts@);
    let tc = transform_point(m, c.0, c.1);
    let len = pts.len();
    let mut out: Vec<i64> = Vec::new();
    let mut t: usize = 0;
    while t < len
        invariant
            mat_bounded(*m),
            mv == mat_view(*m),
            cv == (c.0 as int, c.1 as int),
            ptsv == pts_of(pts@),
            pts_bounded(ptsv),
            1 <= len <= 0x1000_0000,
            len == pts@.len(),
            -POINT_LIMIT <= c.0 <= POINT_LIMIT,
            -POINT_LIMIT <= c.1 <= POINT_LIMIT,
            tc.0 as int == spec_transform_x(mv, cv.0, cv.1),
            tc.1 as int == spec_transform_y(mv, cv.0, cv.1),
            0 <= t <= len,
            out@.len() == 6 * t,
            ints_of(out@) == spec_fan_prefix(mv, cv, ptsv, t as int),
        decreases len - t,
    {
        let next: usize = if t + 1 == len {
            0
        } else {
            t + 1
        };
        proof {
            if t + 1 == len {
                vstd::arithmetic::div_mod::lemma_mod_self_0(len as int);
            } else {
                lemma_small_mod((t + 1) as nat, len as nat);
            }
            assert(next as int == (t + 1) % (len as int));
        }
        let a = pts[t];
        let b = pts[next];
        proof {
            assert(ptsv[t as int] == (a.0 as int, a.1 as int));
            assert(ptsv[next as int] == (b.0 as int, b.1 as int));
            assert(-POINT_LIMIT <= ptsv[t as int].0 <= POINT_LIMIT);
            assert(-POINT_LIMIT <= ptsv[t as int].1 <= POINT_LIMIT);
            assert(-POINT_LIMIT <= ptsv[next as int].0 <= POINT_LIMIT);
            assert(-POINT_LIMIT <= ptsv[next as int].1 <= POINT_LIMIT);
        }
        let ta = transform_point(m, a.0, a.1);
        let tb = transform_point(m, b.0, b.1);
        out.push(tc.0);
        out.push(tc.1);
        out.push(ta.0);
        out.push(ta.1);
        out.push(tb.0);
        out.push(tb.1);
        proof {
            assert(ints_of(out@) =~= spec_fan_prefix(mv, cv, ptsv, t as int) + spec_emit(mv, cv)
                + spec_emit(mv, ptsv[t as int]) + spec_emit(
                mv,
                ptsv[(t + 1) % (ptsv.len() as int)],
            ));
            assert(ints_of(out@) =~= spec_fan_prefix(mv, cv, ptsv, t as int + 1));
        }
        t += 1;
    }
    out
}

/// Triangulates a polygon as an open fan from its first point; under
/// three points the output is empty.
fn poly_fan_tri_list_xy(m: &Matrix2d, pts: &Vec<(i64, i64)>) -> (out: Vec<i64>)
    requires
        mat_bounded(*m),
        pts_bounded(pts_of(pts@)),
        pts@.len() <= 0x1000_0000,
    ensures
        ints_of(out@) == spec_polygon_tri_list_xy(mat_view(*m), pts_of(pts@)),
        out@.len() == if pts@.len() < 3 {
            0int
        } else {
            6 * (pts@.len() - 2)
        },
{
    let ghost mv = mat_view(*m);
    let ghost ptsv = pts_of(pts@);
    let len = pts.len();
    let mut out: Vec<i64> = Vec::new();
    if len < 3 {
        return out;
    }
    let first = pts[0];
    proof {
        assert(ptsv[0] == (first.0 as int, first.1 as int));
        assert(-POINT_LIMIT <= ptsv[0].0 <= POINT_LIMIT);
        assert(-POINT_LIMIT <= ptsv[0].1 <= POINT_LIMIT);
    }
    let t0 = transform_point(m, first.0, first.1);
    let mut t: usize = 0;
    while t < len - 2
        invariant
            mat_bounded(*m),
            mv == mat_view(*m),
            ptsv == pts_of(pts@),
            pts_bounded(ptsv),
            3 <= len <= 0x1000_0000,
            len == pts@.len(),
            t0.0 as int == spec_transform_x(mv, ptsv[0].0, ptsv[0].1),
            t0.1 as int == spec_transform_y(mv, ptsv[0].0, ptsv[0].1),
            0 <= t <= len - 2,
            out@.len() == 6 * t,
            ints_of(out@) == spec_poly_fan_prefix(mv, ptsv, t as int),
        decreases len - t,
    {
        let a = pts[t + 1];
        let b = pts[t + 2];
        proof {
            assert(ptsv[t as int + 1] == (a.0 as int, a.1 as int));
            assert(ptsv[t as int + 2] == (b.0 as int, b.1 as int));
            assert(-POINT_LIMIT <= ptsv[t as int + 1].0 <= POINT_LIMIT);
            assert(-POINT_LIMIT <= ptsv[t as int + 1].1 <= POINT_LIMIT);
            assert(-POINT_LIMIT <= ptsv[t as int + 2].0 <= POINT_LIMIT);
            assert(-POINT_LIMIT <= ptsv[t as int + 2].1 <= POINT_LIMIT);
        }
        let ta = transform_point(m, a.0, a.1);
        let tb = transform_point(m, b.0, b.1);
        out.push(t0.0);
        out.push(t0.1);
        out.push(ta.0);
        out.push(ta.1);
        out.push(tb.0);
        out.push(tb.1);
        proof {
            assert(ints_of(out@) =~= spec_poly_fan_prefix(mv, ptsv, t as int) + spec_emit(
                mv,
                ptsv[0],
            ) + spec_emit(mv, ptsv[t as int + 1]) + spec_emit(mv, ptsv[t as int + 2]));
            assert(ints_of(out@) =~= spec_poly_fan_prefix(mv, ptsv, t as int + 1));
        }
        t += 1;
    }
    out
}

/// Triangulates the closed ring between two outlines of equal length.
fn ring_tri_list_xy(m: &Matrix2d, outer: &Vec<(i64, i64)>, inner: &Vec<(i64, i64)>) -> (out: Vec<
    i64,
>)
    requires
        mat_bounded(*m),
        pts_bounded(pts_of(outer@)),
        pts_bounded(pts_of(inner@)),
        inner@.len() == outer@.len(),
        1 <= outer@.len() <= 0x1000_0000,
    ensures
        ints_of(out@) == spec_ring_tri_list_xy(mat_view(*m), pts_of(outer@), pts_of(inner@)),
        out@.len() == 12 * outer@.len(),
{
    let ghost mv = mat_view(*m);
    let ghost ov = pts_of(outer@);
    let ghost iv = pts_of(inner@);
    let len = outer.len();
    let mut out: Vec<i64> = Vec::new();
    let mut t: usize = 0;
    while t < len
        invariant
            mat_bounded(*m),
            mv == mat_view(*m),
            ov == pts_of(outer@),
            iv == pts_of(inner@),
            pts_bounded(ov),
            pts_bounded(iv),
            1 <= len <= 0x1000_0000,
            len == outer@.len(),
            len == inner@.len(),
            0 <= t <= len,
            out@.len() == 12 * t,
            ints_of(out@) == spec_ring_prefix(mv, ov, iv, t as int),
        decreases len - t,
    {
        let next: usize = if t + 1 == len {
            0
        } else {
            t + 1
        };
        proof {
            if t + 1 == len {
                vstd::arithmetic::div_mod::lemma_mod_self_0(len as int);
            } else {
                lemma_small_mod((t + 1) as nat, len as nat);
            }
            assert(next as int == (t + 1) % (len as int));
        }
        let oa = outer[t];
        let ia = inner[t];
        let ob = outer[next];
        let ib = inner[next];
        proof {
            assert(ov[t as int] == (oa.0 as int, oa.1 as int));
            assert(iv[t as int] == (ia.0 as int, ia.1 as int));
            assert(ov[next as int] == (ob.0 as int, ob.1 as int));
            assert(iv[next as int] == (ib.0 as int, ib.1 as int));
            assert(-POINT_LIMIT <= ov[t as int].0 <= POINT_LIMIT);
            assert(-POINT_LIMIT <= ov[t as int].1 <= POINT_LIMIT);
            assert(-POINT_LIMIT <= iv[t as int].0 <= POINT_LIMIT);
            assert(-POINT_LIMIT <= iv[t as int].1 <= POINT_LIMIT);
            assert(-POINT_LIMIT <= ov[next as int].0 <= POINT_LIMIT);
            assert(-POINT_LIMIT <= ov[next as int].1 <= POINT_LIMIT);
            assert(-POINT_LIMIT <= iv[next as int].0 <= POINT_LIMIT);
            assert(-POINT_LIMIT <= iv[next as int].1 <= POINT_LIMIT);
        }
        let toa = transform_point(m, oa.0, oa.1);
        let tia = transform_point(m, ia.0, ia.1);
        let tob = transform_point(m, ob.0, ob.1);
        let tib = transform_point(m, ib.0, ib.1);
        out.push(toa.0);
        out.push(toa.1);
        out.push(tia.0);
        out.push(tia.1);
        out.push(tob.0);
        out.push(tob.1);
        out.push(tia.0);
        out.push(tia.1);
        out.push(tob.0);
        out.push(tob.1);
        out.push(tib.0);
        out.push(tib.1);
        proof {
            assert(ints_of(out@) =~= spec_ring_prefix(mv, ov, iv, t as int) + spec_emit(
                mv,
                ov[t as int],
            ) + spec_emit(mv, iv[t as int]) + spec_emit(mv, ov[(t + 1) % (ov.len() as int)])
                + spec_emit(mv, iv[t as int]) + spec_emit(mv, ov[(t + 1) % (ov.len() as int)])
                + spec_emit(mv, iv[(t + 1) % (ov.len() as int)]));
            assert(ints_of(out@) =~= spec_ring_prefix(mv, ov, iv, t as int + 1));
        }
        t += 1;
    }
    out
}

/// The texture coordinates of an image's source rectangle, normalized
/// against the texture size: `(p * FX_ONE) / size` for each edge.
pub open spec fn spec_rect_tri_list_uv(img: Image) -> Seq<int> {
    let w = img.texture_width as int;
    let h = img.texture_height as int;
    let sx = img.source_rect@[0] as int;
    let sy = img.source_rect@[1] as int;
    let sw = img.source_rect@[2] as int;
    let sh = img.source_rect@[3] as int;
    let u1 = spec_fx_div(sx, w);
    let v1 = spec_fx_div(sy, h);
    let u2 = spec_fx_div(sx + sw, w);
    let v2 = spec_fx_div(sy + sh, h);
    seq![u1, v1, u2, v1, u1, v2, u2, v1, u2, v2, u1, v2]
}

/// Normalizes one pixel coordinate against a positive texture size.
fn uv_coord(p: i64, size: i64) -> (r: i64)
    requires
        0 < size,
        0 <= p <= 0x2_0000_0000,
    ensures
        r as int == spec_fx_div(p as int, size as int),
{
    proof {
        let num = (p as int) * (FX_ONE as int);
        lemma_div_pos_is_pos(num, size as int);
        lemma_div_nonincreasing(num, size as int);
    }
    fx_div(p, size)
}

/// The texture-coordinate buffer of a textured rectangle: the image's
/// source rectangle normalized to the texture, one pair per vertex, in
/// the same corner order as `rect_tri_list_xy`.
pub fn rect_tri_list_uv(img: &Image) -> (out: Vec<i64>)
    requires
        0 < img.texture_width,
        0 < img.texture_height,
    ensures
        ints_of(out@) == spec_rect_tri_list_uv(*img),
        out@.len() == 12,
{
    let w = img.texture_width as i64;
    let h = img.texture_height as i64;
    let sx = img.source_rect[0] as i64;
    let sy = img.source_rect[1] as i64;
    let sw = img.source_rect[2] as i64;
    let sh = img.source_rect[3] as i64;
    let u1 = uv_coord(sx, w);
    let v1 = uv_coord(sy, h);
    let u2 = uv_coord(sx + sw, w);
    let v2 = uv_coord(sy + sh, h);
    let mut out: Vec<i64> = Vec::new();
    out.push(u1);
    out.push(v1);
    out.push(u2);
    out.push(v1);
    out.push(u1);
    out.push(v2);
    out.push(u2);
    out.push(v1);
    out.push(u2);
    out.push(v2);
    out.push(u1);
    out.push(v2);
    proof {
        assert(ints_of(out@) =~= spec_rect_tri_list_uv(*img));
    }
    out
}

/// The angle of step `i` of corner quadrant `q`, the quarter turn cut
/// into `n` equal segments.
pub open spec fn spec_arc_angle(q: int, i: int, n: int) -> int {
    q * (HALF_PI_FX as int) + (i * (HALF_PI_FX as int)) / n
}

/// The center of the corner arc of quadrant `q`: each corner sits
/// `radius` inside the rectangle's corner.
pub open spec fn spec_corner_center(r: Seq<int>, radius: int, q: int) -> (int, int) {
    if q == 0 {
        (r[0] + r[2] - radius, r[1] + r[3] - radius)
    } else if q == 1 {
        (r[0] + radius, r[1] + r[3] - radius)
    } else if q == 2 {
        (r[0] + radius, r[1] + radius)
    } else {
        (r[0] + r[2] - radius, r[1] + radius)
    }
}

/// Point `j` of a rounded outline: `n + 1` arc points per corner, the
/// arc centers placed by `center_radius` and the arc drawn with
/// `arc_radius` (the two differ for the inner contour of a border).
pub open spec fn spec_round_outline_point(
    r: Seq<int>,
    center_radius: int,
    arc_radius: int,
    n: int,
    j: int,
) -> (int, int) {
    let q = j / (n + 1);
    let i = j % (n + 1);
    let c = spec_corner_center(r, center_radius, q);
    let ang = spec_arc_angle(q, i, n);
    (c.0 + spec_fx_mul(arc_radius, spec_cos(ang)), c.1 + spec_fx_mul(arc_radius, spec_sin(ang)))
}

/// The closed rounded outline: four corner arcs of `n + 1` points each.
pub open spec fn spec_round_outline(r: Seq<int>, center_radius: int, arc_radius: int, n: int)
    -> Seq<(int, int)> {
    Seq::new((4 * (n + 1)) as nat, |j: int| spec_round_outline_point(
        r,
        center_radius,
        arc_radius,
        n,
        j,
    ))
}

/// Builds the rounded outline of a rectangle.
fn round_outline(r: &Rectangle, center_radius: i64, arc_radius: i64, n: usize) -> (out: Vec<
    (i64, i64),
>)
    requires
        rect_bounded(*r),
        -SHAPE_LIMIT <= center_radius <= SHAPE_LIMIT,
        -SHAPE_LIMIT <= arc_radius <= SHAPE_LIMIT,
        1 <= n <= 0xFFFF,
    ensures
        pts_of(out@) == spec_round_outline(
            ints_of(r@),
            center_radius as int,
            arc_radius as int,
            n as int,
        ),
        out@.len() == 4 * (n + 1),
        pts_bounded(pts_of(out@)),
{
    let ghost rv = ints_of(r@);
    let ghost full = spec_round_outline(rv, center_radius as int, arc_radius as int, n as int);
    let count = 4 * (n + 1);
    let mut out: Vec<(i64, i64)> = Vec::new();
    let mut j: usize = 0;
    while j < count
        invariant
            rect_bounded(*r),
            rv == ints_of(r@),
            full == spec_round_outline(rv, center_radius as int, arc_radius as int, n as int),
            -SHAPE_LIMIT <= center_radius <= SHAPE_LIMIT,
            -SHAPE_LIMIT <= arc_radius <= SHAPE_LIMIT,
            1 <= n <= 0xFFFF,
            count == 4 * (n + 1),
            0 <= j <= count,
            out@.len() == j,
            pts_of(out@) == full.take(j as int),
            pts_bounded(pts_of(out@)),
        decreases count - j,
    {
        let q = j / (n + 1);
        let i = j % (n + 1);
        proof {
            vstd::arithmetic::div_mod::lemma_multiply_divide_lt(j as int, (n + 1) as int, 4);
            lemma_mod_division_less_than_divisor(j as int, (n + 1) as int);
            vstd::arithmetic::div_mod::lemma_div_pos_is_pos(j as int, (n + 1) as int);
        }
        let angle = ((q as u64) * (HALF_PI_FX as u64) + ((i as u64) * (HALF_PI_FX as u64)) / (
        n as u64)) as i64;
        proof {
            assert(angle as int == spec_arc_angle(q as int, i as int, n as int)) by {
                lemma_div_is_ordered(
                    (i as int) * (HALF_PI_FX as int),
                    (n as int) * (HALF_PI_FX as int),
                    n as int,
                );
                assert((i as int) * (HALF_PI_FX as int) <= (n as int) * (HALF_PI_FX as int))
                    by (nonlinear_arith)
                    requires
                        0 <= i as int <= n as int,
                ;
                vstd::arithmetic::div_mod::lemma_div_pos_is_pos(
                    (i as int) * (HALF_PI_FX as int),
                    n as int,
                );
                assert((i as int) * (HALF_PI_FX as int) >= 0) by (nonlinear_arith)
                    requires
                        0 <= i as int,
                ;
            };
        }
        let co = cos_fx(angle);
        let si = sin_fx(angle);
        let cx: i64;
        let cy: i64;
        if q == 0 {
            cx = r[0] + r[2] - center_radius;
            cy = r[1] + r[3] - center_radius;
        } else if q == 1 {
            cx = r[0] + center_radius;
            cy = r[1] + r[3] - center_radius;
        } else if q == 2 {
            cx = r[0] + center_radius;
            cy = r[1] + center_radius;
        } else {
            cx = r[0] + r[2] - center_radius;
            cy = r[1] + center_radius;
        }
        proof {
            lemma_fx_mul_bound(arc_radius as int, co as int, SHAPE_LIMIT as int, FX_ONE as int);
            lemma_fx_mul_bound(arc_radius as int, si as int, SHAPE_LIMIT as int, FX_ONE as int);
        }
        let dx = fx_mul(arc_radius, co);
        let dy = fx_mul(arc_radius, si);
        let px = cx + dx;
        let py = cy + dy;
        out.push((px, py));
        proof {
            assert(full[j as int] == (px as int, py as int));
            assert(pts_of(out@) =~= full.take(j as int + 1));
        }
        j += 1;
    }
    proof {
        assert(pts_of(out@) =~= full);
    }
    out
}

/// The center of a rectangle, the fan apex of the filled round and
/// bevel tessellations.
pub open spec fn spec_rect_center(r: Seq<int>) -> (int, int) {
    (r[0] + r[2] / 2, r[1] + r[3] / 2)
}

/// The positions of a tessellated rounded rectangle: at radius zero the
/// corner arcs collapse and the plain rectangle is produced; otherwise
/// a closed fan from the center over the rounded outline.
pub open spec fn spec_round_rectangle_tri_list_xy(
    m: Seq<int>,
    r: Seq<int>,
    radius: int,
    n: int,
) -> Seq<int> {
    if radius == 0 {
        spec_rect_tri_list_xy(m, r)
    } else {
        spec_fan_tri_list_xy(m, spec_rect_center(r), spec_round_outline(r, radius, radius, n))
    }
}

/// The vertex count of a rounded-rectangle tessellation: a function of
/// the subdivision count and of whether the radius is zero alone, and
/// always a whole number of triangles.
pub open spec fn spec_round_rectangle_vertex_count(radius: int, n: int) -> int {
    if radius == 0 {
        6
    } else {
        12 * (n + 1)
    }
}

/// Computes the fan apex of a rectangle.
fn rect_center(r: &Rectangle) -> (c: (i64, i64))
    requires
        rect_bounded(*r),
    ensures
        (c.0 as int, c.1 as int) == spec_rect_center(ints_of(r@)),
        -POINT_LIMIT <= c.0 <= POINT_LIMIT,
        -POINT_LIMIT <= c.1 <= POINT_LIMIT,
{
    proof {
        lemma_div_floor_bound(r@[2] as int, 2, SHAPE_LIMIT as int);
        lemma_div_floor_bound(r@[3] as int, 2, SHAPE_LIMIT as int);
    }
    let hw = crate::fx::half(r[2]);
    let hh = crate::fx::half(r[3]);
    (r[0] + hw, r[1] + hh)
}

/// Tessellates a rounded rectangle: each corner an `n`-segment arc,
/// body and corner fans forming a closed fan from the center. At
/// radius zero the result is the plain rectangle tessellation.
pub fn round_rectangle_tri_list_xy(n: usize, m: &Matrix2d, r: &Rectangle, radius: i64) -> (out:
    Vec<i64>)
    requires
        mat_bounded(*m),
        rect_bounded(*r),
        -SHAPE_LIMIT <= radius <= SHAPE_LIMIT,
        1 <= n <= 0xFFFF,
    ensures
        ints_of(out@) == spec_round_rectangle_tri_list_xy(
            mat_view(*m),
            ints_of(r@),
            radius as int,
            n as int,
        ),
        out@.len() == 2 * spec_round_rectangle_vertex_count(radius as int, n as int),
{
    if radius == 0 {
        return rect_tri_list_xy(m, r);
    }
    let c = rect_center(r);
    let outline = round_outline(r, radius, radius, n);
    fan_tri_list_xy(m, c, &outline)
}

/// The eight points of a bevelled outline: each corner cut by a
/// straight chamfer `radius` along both edges.
pub open spec fn spec_bevel_outline(r: Seq<int>, radius: int) -> Seq<(int, int)> {
    seq![
        (r[0] + radius, r[1]),
        (r[0] + r[2] - radius, r[1]),
        (r[0] + r[2], r[1] + radius),
        (r[0] + r[2], r[1] + r[3] - radius),
        (r[0] + r[2] - radius, r[1] + r[3]),
        (r[0] + radius, r[1] + r[3]),
        (r[0], r[1] + r[3] - radius),
        (r[0], r[1] + radius),
    ]
}

/// The positions of a tessellated bevel rectangle: a closed fan from
/// the center over the eight chamfered outline points.
pub open spec fn spec_bevel_rectangle_tri_list_xy(m: Seq<int>, r: Seq<int>, radius: int)
    -> Seq<int> {
    spec_fan_tri_list_xy(m, spec_rect_center(r), spec_bevel_outline(r, radius))
}

/// Builds the bevelled outline of a rectangle.
fn bevel_outline(r: &Rectangle, radius: i64) -> (out: Vec<(i64, i64)>)
    requires
        rect_bounded(*r),
        -SHAPE_LIMIT <= radius <= SHAPE_LIMIT,
    ensures
        pts_of(out@) == spec_bevel_outline(ints_of(r@), radius as int),
        out@.len() == 8,
        pts_bounded(pts_of(out@)),
{
    let mut out: Vec<(i64, i64)> = Vec::new();
    out.push((r[0] + radius, r[1]));
    out.push((r[0] + r[2] - radius, r[1]));
    out.push((r[0] + r[2], r[1] + radius));
    out.push((r[0] + r[2], r[1] + r[3] - radius));
    out.push((r[0] + r[2] - radius, r[1] + r[3]));
    out.push((r[0] + radius, r[1] + r[3]));
    out.push((r[0], r[1] + r[3] - radius));
    out.push((r[0], r[1] + radius));
    proof {
        assert(pts_of(out@) =~= spec_bevel_outline(ints_of(r@), radius as int));
    }
    out
}

/// Tessellates a bevel rectangle: corners cut by a straight chamfer,
/// an eight-triangle fan from the center.
pub fn bevel_rectangle_tri_list_xy(m: &Matrix2d, r: &Rectangle, radius: i64) -> (out: Vec<i64>)
    requires
        mat_bounded(*m),
        rect_bounded(*r),
        -SHAPE_LIMIT <= radius <= SHAPE_LIMIT,
    ensures
        ints_of(out@) == spec_bevel_rectangle_tri_list_xy(
            mat_view(*m),
            ints_of(r@),
            radius as int,
        ),
        out@.len() == 48,
{
    let c = rect_center(r);
    let outline = bevel_outline(r, radius);
    fan_tri_list_xy(m, c, &outline)
}

/// Point `j` of an ellipse outline: the `n`-gon point at angle
/// `j / n` of a full turn, on the axis-aligned ellipse inscribed in
/// the rectangle.
pub open spec fn spec_ellipse_point(r: Seq<int>, n: int, j: int) -> (int, int) {
    let c = spec_rect_center(r);
    let ang = (j * (TWO_PI_FX as int)) / n;
    (
        c.0 + spec_fx_mul(r[2] / 2, spec_cos(ang)),
        c.1 + spec_fx_mul(r[3] / 2, spec_sin(ang)),
    )
}

/// The `n` outline points of the ellipse inscribed in a rectangle.
pub open spec fn spec_ellipse_outline(r: Seq<int>, n: int) -> Seq<(int, int)> {
    Seq::new(n as nat, |j: int| spec_ellipse_point(r, n, j))
}

/// The positions of a tessellated ellipse: empty under a resolution of
/// three, otherwise a closed fan from the center over the `n`-gon.
pub open spec fn spec_ellipse_tri_list_xy(m: Seq<int>, r: Seq<int>, n: int) -> Seq<int> {
    if n < 3 {
        Seq::empty()
    } else {
        spec_fan_tri_list_xy(m, spec_rect_center(r), spec_ellipse_outline(r, n))
    }
}

/// Builds the `n`-gon outline of the ellipse inscribed in a rectangle.
fn ellipse_outline(r: &Rectangle, n: usize) -> (out: Vec<(i64, i64)>)
    requires
        rect_bounded(*r),
        1 <= n <= 0xFFFF,
    ensures
        pts_of(out@) == spec_ellipse_outline(ints_of(r@), n as int),
        out@.len() == n,
        pts_bounded(pts_of(out@)),
{
    let ghost rv = ints_of(r@);
    let ghost full = spec_ellipse_outline(rv, n as int);
    let c = rect_center(r);
    proof {
        lemma_div_floor_bound(r@[2] as int, 2, SHAPE_LIMIT as int);
        lemma_div_floor_bound(r@[3] as int, 2, SHAPE_LIMIT as int);
    }
    let rx = crate::fx::half(r[2]);
    let ry = crate::fx::half(r[3]);
    let mut out: Vec<(i64, i64)> = Vec::new();
    let mut j: usize = 0;
    while j < n
        invariant
            rect_bounded(*r),
            rv == ints_of(r@),
            full == spec_ellipse_outline(rv, n as int),
            1 <= n <= 0xFFFF,
            (c.0 as int, c.1 as int) == spec_rect_center(rv),
            -POINT_LIMIT <= c.0 <= POINT_LIMIT,
            -POINT_LIMIT <= c.1 <= POINT_LIMIT,
            rx as int == rv[2] / 2,
            ry as int == rv[3] / 2,
            -SHAPE_LIMIT - 1 <= rx <= SHAPE_LIMIT,
            -SHAPE_LIMIT - 1 <= ry <= SHAPE_LIMIT,
            0 <= j <= n,
            out@.len() == j,
            pts_of(out@) == full.take(j as int),
            pts_bounded(pts_of(out@)),
        decreases n - j,
    {
        let angle = (((j as u64) * (TWO_PI_FX as u64)) / (n as u64)) as i64;
        proof {
            assert(angle as int == (j as int) * (TWO_PI_FX as int) / (n as int)) by {
                lemma_div_is_ordered(
                    (j as int) * (TWO_PI_FX as int),
                    (n as int) * (TWO_PI_FX as int),
                    n as int,
                );
                assert((j as int) * (TWO_PI_FX as int) <= (n as int) * (TWO_PI_FX as int))
                    by (nonlinear_arith)
                    requires
                        0 <= j as int <= n as int,
                ;
                vstd::arithmetic::div_mod::lemma_div_pos_is_pos(
                    (j as int) * (TWO_PI_FX as int),
                    n as int,
                );
                assert((j as int) * (TWO_PI_FX as int) >= 0) by (nonlinear_arith)
                    requires
                        0 <= j as int,
                ;
            };
        }
        let co = cos_fx(angle);
        let si = sin_fx(angle);
        proof {
            lemma_fx_mul_bound(rx as int, co as int, SHAPE_LIMIT as int + 1, FX_ONE as int);
            lemma_fx_mul_bound(ry as int, si as int, SHAPE_LIMIT as int + 1, FX_ONE as int);
        }
        let dx = fx_mul(rx, co);
        let dy = fx_mul(ry, si);
        let px = c.0 + dx;
        let py = c.1 + dy;
        out.push((px, py));
        proof {
            assert(full[j as int] == (px as int, py as int));
            assert(pts_of(out@) =~= full.take(j as int + 1));
        }
        j += 1;
    }
    proof {
        assert(pts_of(out@) =~= full);
    }
    out
}

/// Tessellates an ellipse as an `n`-gon fan around its center. A
/// resolution under three is degenerate and yields an empty buffer.
pub fn ellipse_tri_list_xy(n: usize, m: &Matrix2d, r: &Rectangle) -> (out: Vec<i64>)
    requires
        mat_bounded(*m),
        rect_bounded(*r),
        n <= 0xFFFF,
    ensures
        ints_of(out@) == spec_ellipse_tri_list_xy(mat_view(*m), ints_of(r@), n as int),
        out@.len() == if n < 3 {
            0int
        } else {
            6 * n as int
        },
{
    if n < 3 {
        let out: Vec<i64> = Vec::new();
        proof {
            assert(ints_of(out@) =~= spec_ellipse_tri_list_xy(mat_view(*m), ints_of(r@), n as int));
        }
        return out;
    }
    let c = rect_center(r);
    let outline = ellipse_outline(r, n);
    fan_tri_list_xy(m, c, &outline)
}

/// The points of a flattened polygon: consecutive coordinate pairs.
pub open spec fn spec_poly_points(s: Seq<int>) -> Seq<(int, int)> {
    Seq::new(s.len() / 2, |i: int| (s[2 * i], s[2 * i + 1]))
}

/// All values of a flattened polygon within `SHAPE_LIMIT`.
pub open spec fn polygon_bounded(s: Seq<i64>) -> bool {
    forall|i: int| 0 <= i < s.len() ==> -SHAPE_LIMIT <= #[trigger] s[i] <= SHAPE_LIMIT
}

/// Gathers a flattened coordinate slice into a point list.
fn gather_points(polygon: &[i64]) -> (out: Vec<(i64, i64)>)
    requires
        polygon@.len() % 2 == 0,
        polygon@.len() <= 0x100_0000,
        polygon_bounded(polygon@),
    ensures
        pts_of(out@) == spec_poly_points(ints_of(polygon@)),
        out@.len() == polygon@.len() / 2,
        pts_bounded(pts_of(out@)),
{
    let ghost full = spec_poly_points(ints_of(polygon@));
    let count = polygon.len() / 2;
    let mut out: Vec<(i64, i64)> = Vec::new();
    let mut i: usize = 0;
    while i < count
        invariant
            polygon@.len() % 2 == 0,
            polygon@.len() <= 0x100_0000,
            polygon_bounded(polygon@),
            full == spec_poly_points(ints_of(polygon@)),
            count == polygon@.len() / 2,
            0 <= i <= count,
            out@.len() == i,
            pts_of(out@) == full.take(i as int),
            pts_bounded(pts_of(out@)),
        decreases count - i,
    {
        let px = polygon[2 * i];
        let py = polygon[2 * i + 1];
        out.push((px, py));
        proof {
            assert(full[i as int] == (px as int, py as int));
            assert(pts_of(out@) =~= full.take(i as int + 1));
        }
        i += 1;
    }
    proof {
        assert(pts_of(out@) =~= full);
    }
    out
}

/// Tessellates a polygon by fan triangulation from its first point.
/// Fewer than three points yield an empty buffer; non-convex input is
/// fanned geometrically without a convexity check.
pub fn polygon_tri_list_xy(m: &Matrix2d, polygon: &[i64]) -> (out: Vec<i64>)
    requires
        mat_bounded(*m),
        polygon@.len() % 2 == 0,
        polygon@.len() <= 0x100_0000,
        polygon_bounded(polygon@),
    ensures
        ints_of(out@) == spec_polygon_tri_list_xy(
            mat_view(*m),
            spec_poly_points(ints_of(polygon@)),
        ),
        out@.len() == if polygon@.len() < 6 {
            0int
        } else {
            6 * (polygon@.len() / 2 - 2)
        },
{
    let pts = gather_points(polygon);
    poly_fan_tri_list_xy(m, &pts)
}

/// The pointwise linear interpolation of two equally long coordinate
/// sequences by the factor `t`.
pub open spec fn spec_lerp(a: Seq<int>, b: Seq<int>, t: int) -> Seq<int> {
    Seq::new(a.len(), |i: int| a[i] + spec_fx_mul(t, b[i] - a[i]))
}

/// Tessellates the morph of one polygon into another: each point is
/// interpolated between its two corresponding source points by `t`,
/// and the interpolated polygon is fanned as usual. Point sequences of
/// unequal length are rejected before any geometry is produced.
pub fn tween_polygons_tri_list_xy(m: &Matrix2d, a: &[i64], b: &[i64], t: i64) -> (out: Result<
    Vec<i64>,
    crate::dispatch::GraphicsError,
>)
    requires
        mat_bounded(*m),
        a@.len() % 2 == 0,
        b@.len() % 2 == 0,
        a@.len() <= 0x100_0000,
        polygon_bounded(a@),
        polygon_bounded(b@),
        0 <= t <= FX_ONE,
    ensures
        out is Ok <==> a@.len() == b@.len(),
        a@.len() != b@.len() ==> out == Err::<Vec<i64>, crate::dispatch::GraphicsError>(
            crate::dispatch::GraphicsError::TweenLengthMismatch,
        ),
        out matches Ok(v) ==> ints_of(v@) == spec_polygon_tri_list_xy(
            mat_view(*m),
            spec_poly_points(spec_lerp(ints_of(a@), ints_of(b@), t as int)),
        ),
{
    if a.len() != b.len() {
        return Err(crate::dispatch::GraphicsError::TweenLengthMismatch);
    }
    let ghost lerped = spec_lerp(ints_of(a@), ints_of(b@), t as int);
    let ghost full = spec_poly_points(lerped);
    let count = a.len() / 2;
    let mut pts: Vec<(i64, i64)> = Vec::new();
    let mut i: usize = 0;
    while i < count
        invariant
            a@.len() % 2 == 0,
            a@.len() == b@.len(),
            a@.len() <= 0x100_0000,
            polygon_bounded(a@),
            polygon_bounded(b@),
            0 <= t <= FX_ONE,
            lerped == spec_lerp(ints_of(a@), ints_of(b@), t as int),
            full == spec_poly_points(lerped),
            count == a@.len() / 2,
            0 <= i <= count,
            pts@.len() == i,
            pts_of(pts@) == full.take(i as int),
            pts_bounded(pts_of(pts@)),
        decreases count - i,
    {
        let ax = a[2 * i];
        let ay = a[2 * i + 1];
        let bx = b[2 * i];
        let by = b[2 * i + 1];
        proof {
            lemma_fx_mul_bound(
                t as int,
                bx as int - ax as int,
                FX_ONE as int,
                2 * SHAPE_LIMIT as int,
            );
            lemma_fx_mul_bound(
                t as int,
                by as int - ay as int,
                FX_ONE as int,
                2 * SHAPE_LIMIT as int,
            );
        }
        let px = ax + fx_mul(t, bx - ax);
        let py = ay + fx_mul(t, by - ay);
        pts.push((px, py));
        proof {
            assert(full[i as int] == (px as int, py as int));
            assert(pts_of(pts@) =~= full.take(i as int + 1));
        }
        i += 1;
    }
    proof {
        assert(pts_of(pts@) =~= full);
        assert(full.len() == lerped.len() / 2);
    }
    Ok(poly_fan_tri_list_xy(m, &pts))
}

/// Largest magnitude accepted for the shape parameters of a bordered
/// tessellation: the inset rectangle combines a coordinate with twice
/// the border width, so the headroom is kept fourfold.
pub const BORDER_LIMIT: i64 = 0x2000_0000;

/// All four entries of a rectangle within `BORDER_LIMIT`.
pub open spec fn border_rect_bounded(r: Rectangle) -> bool {
    forall|i: int| 0 <= i < 4 ==> -BORDER_LIMIT <= #[trigger] r@[i] <= BORDER_LIMIT
}

/// The rectangle inset by a border width on every side.
pub open spec fn spec_inset_rect(r: Seq<int>, w: int) -> Seq<int> {
    seq![r[0] + w, r[1] + w, r[2] - 2 * w, r[3] - 2 * w]
}

/// The four corners of a rectangle as a closed outline.
pub open spec fn spec_rect_outline(r: Seq<int>) -> Seq<(int, int)> {
    seq![
        (r[0], r[1]),
        (r[0] + r[2], r[1]),
        (r[0] + r[2], r[1] + r[3]),
        (r[0], r[1] + r[3]),
    ]
}

/// The positions of a square border: the ring between the rectangle
/// and the rectangle inset by the border width. A zero-width border
/// yields an empty buffer.
pub open spec fn spec_square_border_tri_list_xy(m: Seq<int>, r: Seq<int>, w: int) -> Seq<int> {
    if w == 0 {
        Seq::empty()
    } else {
        spec_ring_tri_list_xy(m, spec_rect_outline(r), spec_rect_outline(spec_inset_rect(r, w)))
    }
}

/// Tessellates the outline band of a plain rectangle border.
pub fn square_border_tri_list_xy(m: &Matrix2d, r: &Rectangle, border_width: i64) -> (out: Vec<
    i64,
>)
    requires
        mat_bounded(*m),
        border_rect_bounded(*r),
        0 <= border_width <= BORDER_LIMIT,
    ensures
        ints_of(out@) == spec_square_border_tri_list_xy(
            mat_view(*m),
            ints_of(r@),
            border_width as int,
        ),
        out@.len() == if border_width == 0 {
            0int
        } else {
            48int
        },
{
    if border_width == 0 {
        let out: Vec<i64> = Vec::new();
        proof {
            assert(ints_of(out@) =~= spec_square_border_tri_list_xy(
                mat_view(*m),
                ints_of(r@),
                border_width as int,
            ));
        }
        return out;
    }
    let mut outer: Vec<(i64, i64)> = Vec::new();
    outer.push((r[0], r[1]));
    outer.push((r[0] + r[2], r[1]));
    outer.push((r[0] + r[2], r[1] + r[3]));
    outer.push((r[0], r[1] + r[3]));
    let mut inner: Vec<(i64, i64)> = Vec::new();
    inner.push((r[0] + border_width, r[1] + border_width));
    inner.push((r[0] + r[2] - border_width, r[1] + border_width));
    inner.push((r[0] + r[2] - border_width, r[1] + r[3] - border_width));
    inner.push((r[0] + border_width, r[1] + r[3] - border_width));
    proof {
        assert(pts_of(outer@) =~= spec_rect_outline(ints_of(r@)));
        assert(pts_of(inner@) =~= spec_rect_outline(
            spec_inset_rect(ints_of(r@), border_width as int),
        ));
    }
    ring_tri_list_xy(m, &outer, &inner)
}

/// The positions of a rounded border: the ring between the rounded
/// outline and the contour the border width inside it, the arcs drawn
/// around the same corner centers. A zero-width border yields an
/// empty buffer.
pub open spec fn spec_round_border_tri_list_xy(
    m: Seq<int>,
    r: Seq<int>,
    radius: int,
    w: int,
    n: int,
) -> Seq<int> {
    if w == 0 {
        Seq::empty()
    } else {
        spec_ring_tri_list_xy(
            m,
            spec_round_outline(r, radius, radius, n),
            spec_round_outline(r, radius, radius - w, n),
        )
    }
}

/// Tessellates the outline band of a round-cornered rectangle border,
/// reusing the corner-arc logic of the filled case but emitting a ring
/// instead of a filled area.
pub fn round_border_tri_list_xy(
    n: usize,
    m: &Matrix2d,
    r: &Rectangle,
    radius: i64,
    border_width: i64,
) -> (out: Vec<i64>)
    requires
        mat_bounded(*m),
        border_rect_bounded(*r),
        -BORDER_LIMIT <= radius <= BORDER_LIMIT,
        0 <= border_width <= BORDER_LIMIT,
        1 <= n <= 0xFFFF,
    ensures
        ints_of(out@) == spec_round_border_tri_list_xy(
            mat_view(*m),
            ints_of(r@),
            radius as int,
            border_width as int,
            n as int,
        ),
        out@.len() == if border_width == 0 {
            0int
        } else {
            48 * (n as int + 1)
        },
{
    if border_width == 0 {
        let out: Vec<i64> = Vec::new();
        proof {
            assert(ints_of(out@) =~= spec_round_border_tri_list_xy(
                mat_view(*m),
                ints_of(r@),
                radius as int,
                border_width as int,
                n as int,
            ));
        }
        return out;
    }
    let outer = round_outline(r, radius, radius, n);
    let inner = round_outline(r, radius, radius - border_width, n);
    ring_tri_list_xy(m, &outer, &inner)
}

/// The positions of a bevelled border: the ring between the chamfered
/// outline and the chamfered outline of the inset rectangle. A
/// zero-width border yields an empty buffer.
pub open spec fn spec_bevel_border_tri_list_xy(
    m: Seq<int>,
    r: Seq<int>,
    radius: int,
    w: int,
) -> Seq<int> {
    if w == 0 {
        Seq::empty()
    } else {
        spec_ring_tri_list_xy(
            m,
            spec_bevel_outline(r, radius),
            spec_bevel_outline(spec_inset_rect(r, w), radius - w),
        )
    }
}

/// Tessellates the outline band of a bevelled rectangle border.
pub fn bevel_border_tri_list_xy(m: &Matrix2d, r: &Rectangle, radius: i64, border_width: i64)
    -> (out: Vec<i64>)
    requires
        mat_bounded(*m),
        border_rect_bounded(*r),
        -BORDER_LIMIT <= radius <= BORDER_LIMIT,
        0 <= border_width <= BORDER_LIMIT,
    ensures
        ints_of(out@) == spec_bevel_border_tri_list_xy(
            mat_view(*m),
            ints_of(r@),
            radius as int,
            border_width as int,
        ),
        out@.len() == if border_width == 0 {
            0int
        } else {
            96int
        },
{
    if border_width == 0 {
        let out: Vec<i64> = Vec::new();
        proof {
            assert(ints_of(out@) =~= spec_bevel_border_tri_list_xy(
                mat_view(*m),
                ints_of(r@),
                radius as int,
                border_width as int,
            ));
        }
        return out;
    }
    let outer = bevel_outline(r, radius);
    let inset: Rectangle = [
        r[0] + border_width,
        r[1] + border_width,
        r[2] - 2 * border_width,
        r[3] - 2 * border_width,
    ];
    proof {
        assert(ints_of(inset@) =~= spec_inset_rect(ints_of(r@), border_width as int));
    }
    let inner = bevel_outline(&inset, radius - border_width);
    ring_tri_list_xy(m, &outer, &inner)
}

/// Whether position `v` of a buffer is the transform of corner `k` of
/// a rectangle.
pub open spec fn spec_vertex_is_corner(m: Seq<int>, r: Seq<int>, s: Seq<int>, v: int, k: int)
    -> bool {
    s[2 * v] == spec_transform_x(m, spec_rect_corner(r, k).0, spec_rect_corner(r, k).1) && s[2 * v
        + 1] == spec_transform_y(m, spec_rect_corner(r, k).0, spec_rect_corner(r, k).1)
}

/// Whether position `v` of a buffer is the transform of one of the
/// rectangle's four corners.
pub open spec fn spec_vertex_from_some_corner(m: Seq<int>, r: Seq<int>, s: Seq<int>, v: int)
    -> bool {
    exists|k: int| 0 <= k < 4 && #[trigger] spec_vertex_is_corner(m, r, s, v, k)
}

/// A tessellated rectangle has exactly six vertices, and each is the
/// transform of one of the rectangle's four corners.
pub proof fn lemma_rect_tri_list_vertices(m: Seq<int>, r: Seq<int>)
    ensures
        spec_rect_tri_list_xy(m, r).len() == 12,
        forall|v: int|
            0 <= v < 6 ==> #[trigger] spec_vertex_from_some_corner(
                m,
                r,
                spec_rect_tri_list_xy(m, r),
                v,
            ),
{
    let s = spec_rect_tri_list_xy(m, r);
    assert(spec_vertex_is_corner(m, r, s, 0, 0));
    assert(spec_vertex_is_corner(m, r, s, 1, 1));
    assert(spec_vertex_is_corner(m, r, s, 2, 2));
    assert(spec_vertex_is_corner(m, r, s, 3, 1));
    assert(spec_vertex_is_corner(m, r, s, 4, 3));
    assert(spec_vertex_is_corner(m, r, s, 5, 2));
}

/// The vertex count of a rounded-rectangle tessellation depends only
/// on the subdivision count and on whether the radius is zero, and it
/// is always a whole number of triangles.
pub proof fn lemma_round_rectangle_count(m: Seq<int>, r: Seq<int>, radius: int, n: int)
    requires
        n >= 1,
    ensures
        spec_round_rectangle_tri_list_xy(m, r, radius, n).len() == 2
            * spec_round_rectangle_vertex_count(radius, n),
        spec_round_rectangle_vertex_count(radius, n) % 3 == 0,
{
    if radius != 0 {
        lemma_fan_prefix_len(
            m,
            spec_rect_center(r),
            spec_round_outline(r, radius, radius, n),
            4 * (n + 1),
        );
        vstd::arithmetic::div_mod::lemma_mod_multiples_basic(4 * (n + 1), 3);
        assert(12 * (n + 1) == (4 * (n + 1)) * 3);
    } else {
        vstd::arithmetic::div_mod::lemma_mod_multiples_basic(2, 3);
        assert(6int == 2int * 3);
    }
}

/// At radius zero the rounded-rectangle tessellation is exactly the
/// plain-rectangle tessellation: the corner arcs have collapsed to
/// points.
pub proof fn lemma_round_rectangle_degenerates(m: Seq<int>, r: Seq<int>, n: int)
    ensures
        spec_round_rectangle_tri_list_xy(m, r, 0, n) == spec_rect_tri_list_xy(m, r),
{
}

} // verus!



