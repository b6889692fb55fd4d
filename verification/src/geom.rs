//! Geometry engine: pure functions on points, sizes and exact fractions.
//!
//! Three coordinate spaces are in play: viewport (display) space, overlay-box
//! space, and the background source's native pixel space.  All arithmetic is
//! exact — positions and sizes are integers, and values that a division can
//! make fractional (the letterbox scale, mapped points, zoom crops) are kept
//! as integer fractions rather than rounded.

use crate::frac::{
    lemma_affine_round_trip, lemma_eqv_clamp, lemma_floor_bounds, lemma_min_le_int, rat_add,
    rat_clamp_int, rat_div, rat_eqv, rat_floor, rat_gt_int, rat_lt_int, rat_min, rat_mul,
    rat_of_int, rat_sub, rat_wf, Frac, Rat,
};
use vstd::prelude::*;

verus! {

/// Magnitude bound on coordinates and dimensions handed to the geometry
/// functions; keeps every intermediate product comfortably inside `i64`.
pub const MAX_COORD: i64 = 1048576;

/// A point, in whichever space the caller is working.
#[derive(Clone, Copy, PartialEq, Eq, Structural, Debug)]
pub struct Pt {
    pub x: i64,
    pub y: i64,
}

/// A width/height pair.
#[derive(Clone, Copy, PartialEq, Eq, Structural, Debug)]
pub struct Dims {
    pub w: i64,
    pub h: i64,
}

/// An axis-aligned rectangle with integer coordinates.
#[derive(Clone, Copy, PartialEq, Eq, Structural, Debug)]
pub struct IRect {
    pub x: i64,
    pub y: i64,
    pub w: i64,
    pub h: i64,
}

impl Dims {
    /// Both dimensions strictly positive and within the magnitude bound.
    pub open spec fn positive(self) -> bool {
        1 <= self.w <= MAX_COORD && 1 <= self.h <= MAX_COORD
    }

    /// Both dimensions nonnegative and within the magnitude bound.
    pub open spec fn bounded(self) -> bool {
        0 <= self.w <= MAX_COORD && 0 <= self.h <= MAX_COORD
    }
}

impl Pt {
    /// Both coordinates within the magnitude bound.
    pub open spec fn bounded(self) -> bool {
        -MAX_COORD <= self.x <= MAX_COORD && -MAX_COORD <= self.y <= MAX_COORD
    }
}

/// Mathematical clamp of `v` into `[lo, hi]`, applying the lower bound first;
/// when `hi < lo` the upper bound wins, as chained `max`/`min` would give.
pub open spec fn clamp_spec(v: int, lo: int, hi: int) -> int {
    let raised = if v < lo { lo } else { v };
    if raised > hi { hi } else { raised }
}

/// Clamp `v` into `[lo, hi]`: lower bound first, then upper bound.
pub fn clamp_i64(v: i64, lo: i64, hi: i64) -> (r: i64)
    ensures
        r == clamp_spec(v as int, lo as int, hi as int),
{
    let raised = if v < lo { lo } else { v };
    if raised > hi { hi } else { raised }
}

/// Keep a box of size `size` placed at `pos` fully inside a viewport of size
/// `viewport`: each coordinate is clamped into `[0, viewport - size]`.
pub fn clamp_to_viewport(pos: Pt, size: Dims, viewport: Dims) -> (r: Pt)
    requires
        size.bounded(),
        viewport.bounded(),
    ensures
        r.x == clamp_spec(pos.x as int, 0, viewport.w - size.w),
        r.y == clamp_spec(pos.y as int, 0, viewport.h - size.h),
{
    Pt {
        x: clamp_i64(pos.x, 0, viewport.w - size.w),
        y: clamp_i64(pos.y, 0, viewport.h - size.h),
    }
}

/// A point with exact fractional coordinates.
#[derive(Clone, Copy, PartialEq, Eq, Structural, Debug)]
pub struct FracPt {
    pub x: Frac,
    pub y: Frac,
}

/// A rectangle with exact fractional coordinates and extent.
#[derive(Clone, Copy, PartialEq, Eq, Structural, Debug)]
pub struct FracRect {
    pub x: Frac,
    pub y: Frac,
    pub w: Frac,
    pub h: Frac,
}

/// A box no larger than the viewport stays inside it: the clamped position is
/// within `[0, viewport - size]` on each axis, and clamping is idempotent.
pub proof fn lemma_clamp_to_viewport(pos: Pt, size: Dims, viewport: Dims)
    requires
        size.w <= viewport.w,
        size.h <= viewport.h,
    ensures
        0 <= clamp_spec(pos.x as int, 0, viewport.w - size.w) <= viewport.w - size.w,
        0 <= clamp_spec(pos.y as int, 0, viewport.h - size.h) <= viewport.h - size.h,
        clamp_spec(
            clamp_spec(pos.x as int, 0, viewport.w - size.w),
            0,
            viewport.w - size.w,
        ) == clamp_spec(pos.x as int, 0, viewport.w - size.w),
        clamp_spec(
            clamp_spec(pos.y as int, 0, viewport.h - size.h),
            0,
            viewport.h - size.h,
        ) == clamp_spec(pos.y as int, 0, viewport.h - size.h),
{
}

/// New size while dragging the bottom-right resize corner: each dimension is
/// the mouse's offset from the anchor, clamped into `[min, max]`; with
/// `lock_aspect` the height is instead recomputed from the already-clamped
/// width, so a diagonal resize is width-driven.
pub fn resize_corner(
    mouse: Pt,
    anchor: Pt,
    min_size: Dims,
    max_size: Dims,
    lock_aspect: Option<Dims>,
) -> (r: Dims)
    requires
        mouse.bounded(),
        anchor.bounded(),
        min_size.positive(),
        max_size.positive(),
        min_size.w <= max_size.w,
        min_size.h <= max_size.h,
        lock_aspect matches Some(a) ==> a.positive(),
    ensures
        r.w == clamp_spec(mouse.x - anchor.x, min_size.w as int, max_size.w as int),
        lock_aspect is None ==> r.h == clamp_spec(
            mouse.y - anchor.y,
            min_size.h as int,
            max_size.h as int,
        ),
        lock_aspect matches Some(a) ==> r.h == (r.w * a.h) as int / (a.w as int),
{
    let w = clamp_i64(mouse.x - anchor.x, min_size.w, max_size.w);
    let h = match lock_aspect {
        None => clamp_i64(mouse.y - anchor.y, min_size.h, max_size.h),
        Some(a) => {
            proof {
                assert(0 <= w * a.h <= 1048576 * 1048576) by (nonlinear_arith)
                    requires
                        1 <= w <= 1048576,
                        1 <= a.h <= 1048576,
                ;
            }
            (w * a.h) / a.w
        },
    };
    Dims { w, h }
}

// ---------------------------------------------------------------------------
// Letterboxing: scaling a source to fit the viewport while preserving its
// aspect ratio, centring it on both axes.  The same scale and offset serve
// the background draw and the inverse mapping of a crop selection.
// ---------------------------------------------------------------------------

/// The width axis binds the letterbox fit: `viewport.w / source.w` is the
/// smaller of the two candidate scales.
pub open spec fn fits_width(viewport: Dims, source: Dims) -> bool {
    viewport.w * source.h <= viewport.h * source.w
}

/// The letterbox scale `min(viewport.w / source.w, viewport.h / source.h)`.
pub open spec fn lb_scale(viewport: Dims, source: Dims) -> Rat {
    if fits_width(viewport, source) {
        Rat { n: viewport.w as int, d: source.w as int }
    } else {
        Rat { n: viewport.h as int, d: source.h as int }
    }
}

/// The centring offset on one axis: `(v - c * s) / 2`, where `v` is the
/// viewport extent, `c` the source extent and `s = sn / sd` the scale.
pub open spec fn axis_offset(v: int, c: int, sn: int, sd: int) -> Rat {
    Rat { n: v * sd - c * sn, d: 2 * sd }
}

/// Map a viewport-space coordinate to source space on one axis:
/// `(p - offset) / scale`, unclamped.
pub open spec fn to_source_axis(p: Rat, s: Rat, o: Rat) -> Rat {
    rat_div(rat_sub(p, o), s)
}

/// Map a source-space coordinate to viewport space on one axis:
/// `q * scale + offset`.
pub open spec fn to_viewport_axis(q: Rat, s: Rat, o: Rat) -> Rat {
    rat_add(rat_mul(q, s), o)
}

/// The value `to_source_axis` takes on an integer point `p`, written with the
/// common factor `sd` cancelled; this is the form the executable code
/// computes.
pub open spec fn src_from_view_axis(p: int, v: int, c: int, sn: int, sd: int) -> Rat {
    Rat { n: sd * (2 * p - v) + c * sn, d: 2 * sn }
}

/// The value `to_viewport_axis` takes on an integer point `q`, with the
/// common factor `sd` cancelled.
pub open spec fn view_from_src_axis(q: int, v: int, c: int, sn: int, sd: int) -> Rat {
    Rat { n: 2 * q * sn + (v * sd - c * sn), d: 2 * sd }
}

/// The cancelled form equals the composed fraction pipeline.
pub proof fn lemma_src_from_view_abstract(p: int, v: int, c: int, sn: int, sd: int)
    requires
        sn > 0,
        sd > 0,
    ensures
        rat_wf(src_from_view_axis(p, v, c, sn, sd)),
        rat_eqv(
            src_from_view_axis(p, v, c, sn, sd),
            to_source_axis(rat_of_int(p), Rat { n: sn, d: sd }, axis_offset(v, c, sn, sd)),
        ),
{
    let a = src_from_view_axis(p, v, c, sn, sd);
    let b = to_source_axis(rat_of_int(p), Rat { n: sn, d: sd }, axis_offset(v, c, sn, sd));
    assert(b.n == (p * (2 * sd) - (v * sd - c * sn) * 1) * sd);
    assert(b.d == (1 * (2 * sd)) * sn);
    assert(a.n * b.d == b.n * a.d) by (nonlinear_arith)
        requires
            a.n == sd * (2 * p - v) + c * sn,
            a.d == 2 * sn,
            b.n == (p * (2 * sd) - (v * sd - c * sn) * 1) * sd,
            b.d == (1 * (2 * sd)) * sn,
    ;
}

/// The cancelled form equals the composed fraction pipeline.
pub proof fn lemma_view_from_src_abstract(q: int, v: int, c: int, sn: int, sd: int)
    requires
        sn > 0,
        sd > 0,
    ensures
        rat_wf(view_from_src_axis(q, v, c, sn, sd)),
        rat_eqv(
            view_from_src_axis(q, v, c, sn, sd),
            to_viewport_axis(rat_of_int(q), Rat { n: sn, d: sd }, axis_offset(v, c, sn, sd)),
        ),
{
    let a = view_from_src_axis(q, v, c, sn, sd);
    let b = to_viewport_axis(rat_of_int(q), Rat { n: sn, d: sd }, axis_offset(v, c, sn, sd));
    assert(b.n == (q * sn) * (2 * sd) + (v * sd - c * sn) * (1 * sd));
    assert(b.d == (1 * sd) * (2 * sd));
    assert(a.n * b.d == b.n * a.d) by (nonlinear_arith)
        requires
            a.n == 2 * q * sn + (v * sd - c * sn),
            a.d == 2 * sd,
            b.n == (q * sn) * (2 * sd) + (v * sd - c * sn) * (1 * sd),
            b.d == (1 * sd) * (2 * sd),
    ;
}

/// Compute the letterbox scale of `source` inside `viewport`.
pub fn letterbox_scale(viewport: Dims, source: Dims) -> (r: Frac)
    requires
        viewport.positive(),
        source.positive(),
    ensures
        r@ == lb_scale(viewport, source),
        1 <= r.num <= MAX_COORD,
        1 <= r.den <= MAX_COORD,
{
    proof {
        assert(0 <= viewport.w * source.h <= 1048576 * 1048576 && 0 <= viewport.h * source.w
            <= 1048576 * 1048576) by (nonlinear_arith)
            requires
                1 <= viewport.w <= 1048576,
                1 <= viewport.h <= 1048576,
                1 <= source.w <= 1048576,
                1 <= source.h <= 1048576,
        ;
    }
    if viewport.w * source.h <= viewport.h * source.w {
        Frac { num: viewport.w, den: source.w }
    } else {
        Frac { num: viewport.h, den: source.h }
    }
}

/// One axis of `viewport_to_source`: the mapped coordinate, clamped into
/// `[0, c]`.
fn src_axis(p: i64, v: i64, c: i64, sn: i64, sd: i64) -> (r: Frac)
    requires
        -MAX_COORD <= p <= MAX_COORD,
        1 <= v <= MAX_COORD,
        1 <= c <= MAX_COORD,
        1 <= sn <= MAX_COORD,
        1 <= sd <= MAX_COORD,
    ensures
        r@ == rat_clamp_int(src_from_view_axis(p as int, v as int, c as int, sn as int, sd as int), 0, c as int),
        r.wf(),
        0 <= r.num <= c * r.den,
        r.den <= 2 * MAX_COORD,
{
    let t = 2 * p - v;
    proof {
        assert(-(3 * 1048576 * 1048576) <= sd * t <= 3 * 1048576 * 1048576) by (nonlinear_arith)
            requires
                1 <= sd <= 1048576,
                -(3 * 1048576) <= t <= 3 * 1048576,
        ;
        assert(0 <= c * sn <= 1048576 * 1048576) by (nonlinear_arith)
            requires
                1 <= c <= 1048576,
                1 <= sn <= 1048576,
        ;
        assert(0 <= c * (2 * sn) <= 2 * 1048576 * 1048576) by (nonlinear_arith)
            requires
                1 <= c <= 1048576,
                1 <= sn <= 1048576,
        ;
    }
    let num = sd * t + c * sn;
    let den = 2 * sn;
    if num < 0 {
        Frac { num: 0, den: 1 }
    } else if num > c * den {
        Frac { num: c, den: 1 }
    } else {
        Frac { num, den }
    }
}

/// One axis of `source_to_viewport`, unclamped.
fn view_axis(q: i64, v: i64, c: i64, sn: i64, sd: i64) -> (r: Frac)
    requires
        -MAX_COORD <= q <= MAX_COORD,
        1 <= v <= MAX_COORD,
        1 <= c <= MAX_COORD,
        1 <= sn <= MAX_COORD,
        1 <= sd <= MAX_COORD,
    ensures
        r@ == view_from_src_axis(q as int, v as int, c as int, sn as int, sd as int),
        r.wf(),
{
    proof {
        assert(-(2 * 1048576 * 1048576) <= (2 * q) * sn <= 2 * 1048576 * 1048576) by (nonlinear_arith)
            requires
                1 <= sn <= 1048576,
                -(2 * 1048576) <= 2 * q <= 2 * 1048576,
        ;
        assert(0 <= v * sd <= 1048576 * 1048576) by (nonlinear_arith)
            requires
                1 <= v <= 1048576,
                1 <= sd <= 1048576,
        ;
        assert(0 <= c * sn <= 1048576 * 1048576) by (nonlinear_arith)
            requires
                1 <= c <= 1048576,
                1 <= sn <= 1048576,
        ;
    }
    Frac { num: 2 * q * sn + (v * sd - c * sn), den: 2 * sd }
}

/// Map a viewport-space point into the source's pixel space, inverting the
/// letterbox projection; each axis is clamped into `[0, source extent]`.
pub fn viewport_to_source(point: Pt, viewport: Dims, source: Dims) -> (r: FracPt)
    requires
        point.bounded(),
        viewport.positive(),
        source.positive(),
    ensures
        r.x@ == rat_clamp_int(
            src_from_view_axis(
                point.x as int,
                viewport.w as int,
                source.w as int,
                lb_scale(viewport, source).n,
                lb_scale(viewport, source).d,
            ),
            0,
            source.w as int,
        ),
        r.y@ == rat_clamp_int(
            src_from_view_axis(
                point.y as int,
                viewport.h as int,
                source.h as int,
                lb_scale(viewport, source).n,
                lb_scale(viewport, source).d,
            ),
            0,
            source.h as int,
        ),
        r.x.wf() && r.y.wf(),
        0 <= r.x.num <= source.w * r.x.den,
        0 <= r.y.num <= source.h * r.y.den,
{
    let s = letterbox_scale(viewport, source);
    FracPt {
        x: src_axis(point.x, viewport.w, source.w, s.num, s.den),
        y: src_axis(point.y, viewport.h, source.h, s.num, s.den),
    }
}

/// Project a source-space point onto the viewport through the letterbox
/// scale and centring offset.
pub fn source_to_viewport(point: Pt, viewport: Dims, source: Dims) -> (r: FracPt)
    requires
        point.bounded(),
        viewport.positive(),
        source.positive(),
    ensures
        r.x@ == view_from_src_axis(
            point.x as int,
            viewport.w as int,
            source.w as int,
            lb_scale(viewport, source).n,
            lb_scale(viewport, source).d,
        ),
        r.y@ == view_from_src_axis(
            point.y as int,
            viewport.h as int,
            source.h as int,
            lb_scale(viewport, source).n,
            lb_scale(viewport, source).d,
        ),
        r.x.wf() && r.y.wf(),
{
    let s = letterbox_scale(viewport, source);
    FracPt {
        x: view_axis(point.x, viewport.w, source.w, s.num, s.den),
        y: view_axis(point.y, viewport.h, source.h, s.num, s.den),
    }
}

/// The rectangle, in viewport space, that a letterboxed draw of `source`
/// fills: the source scaled by the letterbox scale and centred on both axes.
pub fn letterbox_dest(viewport: Dims, source: Dims) -> (r: FracRect)
    requires
        viewport.positive(),
        source.positive(),
    ensures
        ({
            let s = lb_scale(viewport, source);
            r.x@ == axis_offset(viewport.w as int, source.w as int, s.n, s.d)
                && r.y@ == axis_offset(viewport.h as int, source.h as int, s.n, s.d)
                && r.w@ == rat_mul(rat_of_int(source.w as int), s)
                && r.h@ == rat_mul(rat_of_int(source.h as int), s)
        }),
        r.x.wf() && r.y.wf() && r.w.wf() && r.h.wf(),
{
    let s = letterbox_scale(viewport, source);
    proof {
        assert(0 <= viewport.w * s.den <= 1048576 * 1048576 && 0 <= viewport.h * s.den <= 1048576
            * 1048576 && 0 <= source.w * s.num <= 1048576 * 1048576 && 0 <= source.h * s.num
            <= 1048576 * 1048576) by (nonlinear_arith)
            requires
                1 <= viewport.w <= 1048576,
                1 <= viewport.h <= 1048576,
                1 <= source.w <= 1048576,
                1 <= source.h <= 1048576,
                1 <= s.num <= 1048576,
                1 <= s.den <= 1048576,
        ;
    }
    FracRect {
        x: Frac { num: viewport.w * s.den - source.w * s.num, den: 2 * s.den },
        y: Frac { num: viewport.h * s.den - source.h * s.num, den: 2 * s.den },
        w: Frac { num: source.w * s.num, den: s.den },
        h: Frac { num: source.h * s.num, den: s.den },
    }
}

// ---------------------------------------------------------------------------
// Crop selection: a drag in viewport space, converted through the inverse
// letterbox mapping into a rectangle of the background source's pixel space.
// ---------------------------------------------------------------------------

/// Minimum width and height, in source pixels, a crop selection must exceed
/// to be committed.
pub const MIN_CROP_EXTENT: i64 = 10;

/// The smaller of two selection endpoints on one axis.
pub open spec fn lo_of(a: int, b: int) -> int {
    if a <= b {
        a
    } else {
        b
    }
}

/// The distance between two selection endpoints on one axis.
pub open spec fn ext_of(a: int, b: int) -> int {
    if a <= b {
        b - a
    } else {
        a - b
    }
}

/// Left edge of the selection in source space: the smaller endpoint mapped
/// through the inverse letterbox projection, clamped into the source.
pub open spec fn crop_sel_x(a: Pt, b: Pt, viewport: Dims, source: Dims) -> Rat {
    let s = lb_scale(viewport, source);
    rat_clamp_int(
        src_from_view_axis(
            lo_of(a.x as int, b.x as int),
            viewport.w as int,
            source.w as int,
            s.n,
            s.d,
        ),
        0,
        source.w as int,
    )
}

/// Top edge of the selection in source space.
pub open spec fn crop_sel_y(a: Pt, b: Pt, viewport: Dims, source: Dims) -> Rat {
    let s = lb_scale(viewport, source);
    rat_clamp_int(
        src_from_view_axis(
            lo_of(a.y as int, b.y as int),
            viewport.h as int,
            source.h as int,
            s.n,
            s.d,
        ),
        0,
        source.h as int,
    )
}

/// Width of the selection in source space: the dragged extent divided by the
/// letterbox scale, limited by the source's right edge.
pub open spec fn crop_sel_w(a: Pt, b: Pt, viewport: Dims, source: Dims) -> Rat {
    let s = lb_scale(viewport, source);
    rat_min(
        Rat { n: ext_of(a.x as int, b.x as int) * s.d, d: s.n },
        rat_sub(rat_of_int(source.w as int), crop_sel_x(a, b, viewport, source)),
    )
}

/// Height of the selection in source space.
pub open spec fn crop_sel_h(a: Pt, b: Pt, viewport: Dims, source: Dims) -> Rat {
    let s = lb_scale(viewport, source);
    rat_min(
        Rat { n: ext_of(a.y as int, b.y as int) * s.d, d: s.n },
        rat_sub(rat_of_int(source.h as int), crop_sel_y(a, b, viewport, source)),
    )
}

/// A selection is committed only when both source-space extents exceed the
/// minimum crop size.
pub open spec fn crop_sel_accepted(a: Pt, b: Pt, viewport: Dims, source: Dims) -> bool {
    rat_gt_int(crop_sel_w(a, b, viewport, source), MIN_CROP_EXTENT as int) && rat_gt_int(
        crop_sel_h(a, b, viewport, source),
        MIN_CROP_EXTENT as int,
    )
}

/// A committed crop rectangle lies inside its source and meets the minimum
/// crop size; these are the bounds the renderer needs to use it as a draw
/// source.
pub open spec fn crop_usable(c: IRect) -> bool {
    0 <= c.x <= MAX_COORD && 0 <= c.y <= MAX_COORD && 1 <= c.w <= MAX_COORD && 1 <= c.h
        <= MAX_COORD
}

/// Convert a finished crop drag from viewport space into a source-pixel
/// rectangle.  Returns the rectangle (edges and extents rounded down to whole
/// source pixels) exactly when both converted extents exceed the minimum
/// crop size; a smaller selection is discarded.  A committed rectangle lies
/// inside the source and each extent is at least the minimum.
pub fn crop_from_selection(sel_a: Pt, sel_b: Pt, viewport: Dims, source: Dims) -> (r: Option<
    IRect,
>)
    requires
        sel_a.bounded(),
        sel_b.bounded(),
        viewport.positive(),
        source.positive(),
    ensures
        r is Some <==> crop_sel_accepted(sel_a, sel_b, viewport, source),
        r matches Some(rect) ==> rect.x == rat_floor(crop_sel_x(sel_a, sel_b, viewport, source))
            && rect.y == rat_floor(crop_sel_y(sel_a, sel_b, viewport, source)) && rect.w
            == rat_floor(crop_sel_w(sel_a, sel_b, viewport, source)) && rect.h == rat_floor(
            crop_sel_h(sel_a, sel_b, viewport, source),
        ),
        r matches Some(rect) ==> 0 <= rect.x <= source.w && 0 <= rect.y <= source.h
            && MIN_CROP_EXTENT <= rect.w <= source.w && MIN_CROP_EXTENT <= rect.h <= source.h
            && crop_usable(rect),
{
    let lox = if sel_a.x <= sel_b.x {
        sel_a.x
    } else {
        sel_b.x
    };
    let extx = if sel_a.x <= sel_b.x {
        sel_b.x - sel_a.x
    } else {
        sel_a.x - sel_b.x
    };
    let loy = if sel_a.y <= sel_b.y {
        sel_a.y
    } else {
        sel_b.y
    };
    let exty = if sel_a.y <= sel_b.y {
        sel_b.y - sel_a.y
    } else {
        sel_a.y - sel_b.y
    };
    let s = letterbox_scale(viewport, source);
    let c = viewport_to_source(Pt { x: lox, y: loy }, viewport, source);
    proof {
        assert(0 <= extx * s.den <= 2 * 1048576 * 1048576 && 0 <= exty * s.den <= 2 * 1048576
            * 1048576) by (nonlinear_arith)
            requires
                0 <= extx <= 2 * 1048576,
                0 <= exty <= 2 * 1048576,
                1 <= s.den <= 1048576,
        ;
        assert(0 <= source.w * c.x.den <= 1048576 * (2 * 1048576) && 0 <= source.h * c.y.den
            <= 1048576 * (2 * 1048576)) by (nonlinear_arith)
            requires
                1 <= source.w <= 1048576,
                1 <= source.h <= 1048576,
                1 <= c.x.den <= 2 * 1048576,
                1 <= c.y.den <= 2 * 1048576,
        ;
    }
    proof {
        assert((extx * s.den) * c.x.den <= 4611686018427387904 && 0 <= (source.w * c.x.den
            - c.x.num) * s.num <= 4611686018427387904) by (nonlinear_arith)
            requires
                0 <= extx * s.den <= 2 * 1048576 * 1048576,
                1 <= c.x.den <= 2 * 1048576,
                0 <= c.x.num <= source.w * c.x.den,
                0 <= source.w * c.x.den <= 1048576 * (2 * 1048576),
                1 <= s.num <= 1048576,
        ;
        assert((exty * s.den) * c.y.den <= 4611686018427387904 && 0 <= (source.h * c.y.den
            - c.y.num) * s.num <= 4611686018427387904) by (nonlinear_arith)
            requires
                0 <= exty * s.den <= 2 * 1048576 * 1048576,
                1 <= c.y.den <= 2 * 1048576,
                0 <= c.y.num <= source.h * c.y.den,
                0 <= source.h * c.y.den <= 1048576 * (2 * 1048576),
                1 <= s.num <= 1048576,
        ;
    }
    let wa = Frac { num: extx * s.den, den: s.num };
    let wb = Frac { num: source.w * c.x.den - c.x.num, den: c.x.den };
    let cw = frac_min(wa, wb);
    let ha = Frac { num: exty * s.den, den: s.num };
    let hb = Frac { num: source.h * c.y.den - c.y.num, den: c.y.den };
    let ch = frac_min(ha, hb);
    proof {
        assert(0 <= 10 * cw.den && 0 <= 10 * ch.den) by (nonlinear_arith)
            requires
                1 <= cw.den,
                1 <= ch.den,
        ;
        assert(c.x@ == crop_sel_x(sel_a, sel_b, viewport, source));
        assert(c.y@ == crop_sel_y(sel_a, sel_b, viewport, source));
        assert(cw@ == crop_sel_w(sel_a, sel_b, viewport, source));
        assert(ch@ == crop_sel_h(sel_a, sel_b, viewport, source));
    }
    if cw.num > MIN_CROP_EXTENT * cw.den && ch.num > MIN_CROP_EXTENT * ch.den {
        proof {
            lemma_floor_bounds(c.x@, 0, source.w as int);
            lemma_floor_bounds(c.y@, 0, source.h as int);
            lemma_min_le_int(wa@, wb@, source.w as int);
            lemma_min_le_int(ha@, hb@, source.h as int);
            lemma_floor_bounds(cw@, MIN_CROP_EXTENT as int, source.w as int);
            lemma_floor_bounds(ch@, MIN_CROP_EXTENT as int, source.h as int);
        }
        Some(
            IRect {
                x: c.x.num / c.x.den,
                y: c.y.num / c.y.den,
                w: cw.num / cw.den,
                h: ch.num / ch.den,
            },
        )
    } else {
        None
    }
}

/// The smaller of two well-formed fractions, compared exactly by cross
/// multiplication; the first on a tie.
fn frac_min(a: Frac, b: Frac) -> (r: Frac)
    requires
        a.wf(),
        b.wf(),
        -(4611686018427387904 as int) <= a.num * b.den <= 4611686018427387904,
        -(4611686018427387904 as int) <= b.num * a.den <= 4611686018427387904,
    ensures
        r@ == rat_min(a@, b@),
        r.wf(),
{
    if a.num * b.den <= b.num * a.den {
        a
    } else {
        b
    }
}

/// Projecting a source-space point onto the viewport and mapping it back
/// (clamped, as `viewport_to_source` clamps) recovers the point exactly, on
/// both axes, for every viewport/source pair — the two directions share one
/// scale and offset, so they are mutually inverse.
pub proof fn lemma_letterbox_round_trip(qx: int, qy: int, viewport: Dims, source: Dims)
    requires
        viewport.positive(),
        source.positive(),
        0 <= qx <= source.w,
        0 <= qy <= source.h,
    ensures
        ({
            let s = lb_scale(viewport, source);
            let ox = axis_offset(viewport.w as int, source.w as int, s.n, s.d);
            let oy = axis_offset(viewport.h as int, source.h as int, s.n, s.d);
            rat_eqv(
                rat_clamp_int(
                    to_source_axis(to_viewport_axis(rat_of_int(qx), s, ox), s, ox),
                    0,
                    source.w as int,
                ),
                rat_of_int(qx),
            ) && rat_eqv(
                rat_clamp_int(
                    to_source_axis(to_viewport_axis(rat_of_int(qy), s, oy), s, oy),
                    0,
                    source.h as int,
                ),
                rat_of_int(qy),
            )
        }),
{
    let s = lb_scale(viewport, source);
    let ox = axis_offset(viewport.w as int, source.w as int, s.n, s.d);
    let oy = axis_offset(viewport.h as int, source.h as int, s.n, s.d);
    lemma_letterbox_round_trip_axis(qx, source.w as int, s, ox);
    lemma_letterbox_round_trip_axis(qy, source.h as int, s, oy);
}

// ---------------------------------------------------------------------------
// Zoom crop: the sub-rectangle of the camera source that a zoomed overlay
// shows.  The source is shrunk by `1 / zoom` around its centre, then trimmed
// on the larger axis to the overlay box's aspect ratio, so that the result
// fills the box exactly without distortion.
// ---------------------------------------------------------------------------

/// Magnitude bound on a zoom factor's numerator and denominator.
pub const MAX_ZOOM_SCALE: i64 = 10000;

/// A zoom factor `num / den >= 1`.
#[derive(Clone, Copy, PartialEq, Eq, Structural, Debug)]
pub struct Zoom {
    pub num: i64,
    pub den: i64,
}

impl Zoom {
    /// At least one, with both parts within the magnitude bound.
    pub open spec fn wf(self) -> bool {
        1 <= self.den <= self.num <= MAX_ZOOM_SCALE
    }

    /// No zoom.
    pub fn unit() -> (r: Zoom)
        ensures
            r.wf(),
            r.num == r.den,
    {
        Zoom { num: 1, den: 1 }
    }
}

/// The zoomed source is wider (in aspect) than the target box, so the trim
/// falls on the horizontal axis.  Zooming is uniform, so this compares the
/// raw source aspect against the target's.
pub open spec fn crop_wider(source: Dims, target: Dims) -> bool {
    source.w * target.h > target.w * source.h
}

/// Width of the zoom crop.
pub open spec fn zoom_crop_w(source: Dims, zoom: Zoom, target: Dims) -> Rat {
    if crop_wider(source, target) {
        Rat { n: source.h * zoom.den * target.w, d: zoom.num * target.h }
    } else {
        Rat { n: source.w * zoom.den, d: zoom.num as int }
    }
}

/// Height of the zoom crop.
pub open spec fn zoom_crop_h(source: Dims, zoom: Zoom, target: Dims) -> Rat {
    if crop_wider(source, target) {
        Rat { n: source.h * zoom.den, d: zoom.num as int }
    } else {
        Rat { n: source.w * zoom.den * target.h, d: zoom.num * target.w }
    }
}

/// Left edge of the zoom crop: centred, `(source.w - w) / 2`.
pub open spec fn zoom_crop_x(source: Dims, zoom: Zoom, target: Dims) -> Rat {
    let w = zoom_crop_w(source, zoom, target);
    Rat { n: source.w * w.d - w.n, d: 2 * w.d }
}

/// Top edge of the zoom crop: centred, `(source.h - h) / 2`.
pub open spec fn zoom_crop_y(source: Dims, zoom: Zoom, target: Dims) -> Rat {
    let h = zoom_crop_h(source, zoom, target);
    Rat { n: source.h * h.d - h.n, d: 2 * h.d }
}

/// The sub-rectangle of `source` that fills a `target`-shaped box at the
/// given zoom: shrink by `1 / zoom` around the centre, then trim the larger
/// axis to the target's aspect ratio.
pub fn zoom_crop_rect(source: Dims, zoom: Zoom, target: Dims) -> (r: FracRect)
    requires
        source.positive(),
        target.positive(),
        zoom.wf(),
    ensures
        r.x@ == zoom_crop_x(source, zoom, target),
        r.y@ == zoom_crop_y(source, zoom, target),
        r.w@ == zoom_crop_w(source, zoom, target),
        r.h@ == zoom_crop_h(source, zoom, target),
        r.x.wf() && r.y.wf() && r.w.wf() && r.h.wf(),
{
    proof {
        assert(0 <= source.w * target.h <= 1048576 * 1048576 && 0 <= target.w * source.h
            <= 1048576 * 1048576) by (nonlinear_arith)
            requires
                1 <= source.w <= 1048576,
                1 <= source.h <= 1048576,
                1 <= target.w <= 1048576,
                1 <= target.h <= 1048576,
        ;
    }
    let (w, h) = if source.w * target.h > target.w * source.h {
        proof {
            assert(1 <= source.h * zoom.den <= 1048576 * 10000 && 1 <= source.h * zoom.den
                * target.w <= 1048576 * 10000 * 1048576 && 1 <= zoom.num * target.h <= 10000
                * 1048576) by (nonlinear_arith)
                requires
                    1 <= source.h <= 1048576,
                    1 <= target.w <= 1048576,
                    1 <= target.h <= 1048576,
                    1 <= zoom.den <= 10000,
                    1 <= zoom.num <= 10000,
            ;
        }
        (
            Frac { num: source.h * zoom.den * target.w, den: zoom.num * target.h },
            Frac { num: source.h * zoom.den, den: zoom.num },
        )
    } else {
        proof {
            assert(1 <= source.w * zoom.den <= 1048576 * 10000 && 1 <= source.w * zoom.den
                * target.h <= 1048576 * 10000 * 1048576 && 1 <= zoom.num * target.w <= 10000
                * 1048576) by (nonlinear_arith)
                requires
                    1 <= source.w <= 1048576,
                    1 <= target.w <= 1048576,
                    1 <= target.h <= 1048576,
                    1 <= zoom.den <= 10000,
                    1 <= zoom.num <= 10000,
            ;
        }
        (
            Frac { num: source.w * zoom.den, den: zoom.num },
            Frac { num: source.w * zoom.den * target.h, den: zoom.num * target.w },
        )
    };
    proof {
        assert(0 <= source.w * w.den <= 1048576 * (10000 * 1048576) && 0 <= source.h * h.den
            <= 1048576 * (10000 * 1048576)) by (nonlinear_arith)
            requires
                1 <= source.w <= 1048576,
                1 <= source.h <= 1048576,
                1 <= w.den <= 10000 * 1048576,
                1 <= h.den <= 10000 * 1048576,
        ;
    }
    FracRect {
        x: Frac { num: source.w * w.den - w.num, den: 2 * w.den },
        y: Frac { num: source.h * h.den - h.num, den: 2 * h.den },
        w,
        h,
    }
}

/// The zoom crop is centred in the source: on each axis, twice the crop's
/// near edge plus its extent equals the source extent.
pub proof fn lemma_zoom_crop_centered(source: Dims, zoom: Zoom, target: Dims)
    requires
        source.positive(),
        target.positive(),
        zoom.wf(),
    ensures
        rat_eqv(
            rat_add(
                rat_mul(rat_of_int(2), zoom_crop_x(source, zoom, target)),
                zoom_crop_w(source, zoom, target),
            ),
            rat_of_int(source.w as int),
        ),
        rat_eqv(
            rat_add(
                rat_mul(rat_of_int(2), zoom_crop_y(source, zoom, target)),
                zoom_crop_h(source, zoom, target),
            ),
            rat_of_int(source.h as int),
        ),
{
    let w = zoom_crop_w(source, zoom, target);
    let x = zoom_crop_x(source, zoom, target);
    let lhs = rat_add(rat_mul(rat_of_int(2), x), w);
    assert(lhs.n * 1 == source.w * lhs.d) by (nonlinear_arith)
        requires
            lhs.n == (2 * x.n) * w.d + w.n * (1 * x.d),
            lhs.d == (1 * x.d) * w.d,
            x.n == source.w * w.d - w.n,
            x.d == 2 * w.d,
    ;
    let h = zoom_crop_h(source, zoom, target);
    let y = zoom_crop_y(source, zoom, target);
    let lhs2 = rat_add(rat_mul(rat_of_int(2), y), h);
    assert(lhs2.n * 1 == source.h * lhs2.d) by (nonlinear_arith)
        requires
            lhs2.n == (2 * y.n) * h.d + h.n * (1 * y.d),
            lhs2.d == (1 * y.d) * h.d,
            y.n == source.h * h.d - h.n,
            y.d == 2 * h.d,
    ;
}

/// The zoom crop has exactly the target box's aspect ratio:
/// `w * target.h == h * target.w`.
pub proof fn lemma_zoom_crop_aspect(source: Dims, zoom: Zoom, target: Dims)
    requires
        source.positive(),
        target.positive(),
        zoom.wf(),
    ensures
        rat_eqv(
            rat_mul(zoom_crop_w(source, zoom, target), rat_of_int(target.h as int)),
            rat_mul(zoom_crop_h(source, zoom, target), rat_of_int(target.w as int)),
        ),
{
    let w = zoom_crop_w(source, zoom, target);
    let h = zoom_crop_h(source, zoom, target);
    let lt = rat_mul(w, rat_of_int(target.h as int));
    let rt = rat_mul(h, rat_of_int(target.w as int));
    if crop_wider(source, target) {
        assert(lt.n * rt.d == rt.n * lt.d) by (nonlinear_arith)
            requires
                lt.n == (source.h * zoom.den * target.w) * target.h,
                lt.d == (zoom.num * target.h) * 1,
                rt.n == (source.h * zoom.den) * target.w,
                rt.d == zoom.num * 1,
        ;
    } else {
        assert(lt.n * rt.d == rt.n * lt.d) by (nonlinear_arith)
            requires
                lt.n == (source.w * zoom.den) * target.h,
                lt.d == zoom.num * 1,
                rt.n == (source.w * zoom.den * target.h) * target.w,
                rt.d == (zoom.num * target.w) * 1,
        ;
    }
}

/// The zoom crop stays inside the source rectangle on both axes.
pub proof fn lemma_zoom_crop_within(source: Dims, zoom: Zoom, target: Dims)
    requires
        source.positive(),
        target.positive(),
        zoom.wf(),
    ensures
        !rat_lt_int(zoom_crop_x(source, zoom, target), 0),
        !rat_gt_int(
            rat_add(zoom_crop_x(source, zoom, target), zoom_crop_w(source, zoom, target)),
            source.w as int,
        ),
        !rat_lt_int(zoom_crop_y(source, zoom, target), 0),
        !rat_gt_int(
            rat_add(zoom_crop_y(source, zoom, target), zoom_crop_h(source, zoom, target)),
            source.h as int,
        ),
{
    let w = zoom_crop_w(source, zoom, target);
    let h = zoom_crop_h(source, zoom, target);
    if crop_wider(source, target) {
        assert(0 < w.d && 0 <= w.n <= source.w * w.d) by (nonlinear_arith)
            requires
                w.n == source.h * zoom.den * target.w,
                w.d == zoom.num * target.h,
                source.w * target.h > target.w * source.h,
                1 <= source.h,
                1 <= source.w,
                1 <= target.w,
                1 <= target.h,
                1 <= zoom.den <= zoom.num,
        ;
        assert(0 < h.d && 0 <= h.n <= source.h * h.d) by (nonlinear_arith)
            requires
                h.n == source.h * zoom.den,
                h.d == zoom.num as int,
                1 <= source.h,
                1 <= zoom.den <= zoom.num,
        ;
    } else {
        assert(0 < w.d && 0 <= w.n <= source.w * w.d) by (nonlinear_arith)
            requires
                w.n == source.w * zoom.den,
                w.d == zoom.num as int,
                1 <= source.w,
                1 <= zoom.den <= zoom.num,
        ;
        assert(0 < h.d && 0 <= h.n <= source.h * h.d) by (nonlinear_arith)
            requires
                h.n == source.w * zoom.den * target.h,
                h.d == zoom.num * target.w,
                source.w * target.h <= target.w * source.h,
                1 <= source.h,
                1 <= source.w,
                1 <= target.w,
                1 <= target.h,
                1 <= zoom.den <= zoom.num,
        ;
    }
    lemma_centered_within_axis(source.w as int, w.n, w.d);
    lemma_centered_within_axis(source.h as int, h.n, h.d);
}

/// A crop of extent `n / d` centred in `[0, extent]` keeps both edges inside
/// the interval.
proof fn lemma_centered_within_axis(extent: int, n: int, d: int)
    requires
        d > 0,
        0 <= n <= extent * d,
    ensures
        !rat_lt_int(Rat { n: extent * d - n, d: 2 * d }, 0),
        !rat_gt_int(
            rat_add(Rat { n: extent * d - n, d: 2 * d }, Rat { n: n, d: d }),
            extent,
        ),
{
    let x = Rat { n: extent * d - n, d: 2 * d };
    let sum = rat_add(x, Rat { n: n, d: d });
    assert(!(x.n < 0 * x.d)) by (nonlinear_arith)
        requires
            x.n == extent * d - n,
            x.d == 2 * d,
            n <= extent * d,
    ;
    assert(!(sum.n > extent * sum.d)) by (nonlinear_arith)
        requires
            sum.n == (extent * d - n) * d + n * (2 * d),
            sum.d == (2 * d) * d,
            d > 0,
            n <= extent * d,
    ;
}

/// One axis of the round trip: mapping out and back then clamping into
/// `[0, c]` is the identity on integer points of `[0, c]`.
proof fn lemma_letterbox_round_trip_axis(q: int, c: int, s: Rat, o: Rat)
    requires
        rat_wf(s),
        rat_wf(o),
        s.n > 0,
        0 <= q <= c,
    ensures
        rat_eqv(
            rat_clamp_int(to_source_axis(to_viewport_axis(rat_of_int(q), s, o), s, o), 0, c),
            rat_of_int(q),
        ),
{
    let back = to_source_axis(to_viewport_axis(rat_of_int(q), s, o), s, o);
    lemma_affine_round_trip(rat_of_int(q), s, o);
    assert(back.d > 0) by (nonlinear_arith)
        requires
            back.d == ((1 * s.d) * o.d * o.d) * s.n,
            s.d > 0,
            o.d > 0,
            s.n > 0,
    ;
    lemma_eqv_clamp(back, rat_of_int(q), 0, c);
}

} // verus!
