use overlay_studio::geom::{
    clamp_to_viewport, crop_from_selection, letterbox_dest, resize_corner, source_to_viewport,
    viewport_to_source, zoom_crop_rect, Dims, IRect, Pt, Zoom,
};

fn pt(x: i64, y: i64) -> Pt {
    Pt { x, y }
}

fn dims(w: i64, h: i64) -> Dims {
    Dims { w, h }
}

#[test]
fn clamp_keeps_box_inside_viewport() {
    let vp = dims(1280, 720);
    let size = dims(160, 120);
    let r = clamp_to_viewport(pt(1500, -20), size, vp);
    assert_eq!(r, pt(1120, 0));
    // An interior position is untouched.
    let inside = clamp_to_viewport(pt(100, 100), size, vp);
    assert_eq!(inside, pt(100, 100));
}

#[test]
fn clamp_is_idempotent() {
    let vp = dims(1280, 720);
    let size = dims(600, 400);
    let once = clamp_to_viewport(pt(-999, 99999), size, vp);
    let twice = clamp_to_viewport(once, size, vp);
    assert_eq!(once, twice);
    assert!(0 <= once.x && once.x <= vp.w - size.w);
    assert!(0 <= once.y && once.y <= vp.h - size.h);
}

#[test]
fn diagonal_resize_with_aspect_lock() {
    // Width clamps to 200; with a 4:3 lock the height is exactly 150.
    let r = resize_corner(
        pt(200, 999),
        pt(0, 0),
        dims(100, 100),
        dims(600, 400),
        Some(dims(4, 3)),
    );
    assert_eq!(r.w, 200);
    assert_eq!(r.h, 150);
}

#[test]
fn free_resize_clamps_each_axis() {
    let r = resize_corner(pt(9999, 30), pt(0, 0), dims(100, 100), dims(600, 400), None);
    assert_eq!(r, dims(600, 100));
}

#[test]
fn letterbox_exact_fit_has_no_bars() {
    // 1280x720 viewport over a 1920x1080 source: same aspect, scale 2/3,
    // the drawn rectangle is exactly the viewport.
    let d = letterbox_dest(dims(1280, 720), dims(1920, 1080));
    assert_eq!(d.x.num, 0);
    assert_eq!(d.y.num, 0);
    assert_eq!(d.w.num, 1280 * d.w.den);
    assert_eq!(d.h.num, 720 * d.h.den);
}

#[test]
fn letterbox_centers_narrow_source() {
    // 640x480 in 1280x720: scale 1.5, bars of 160 on each side.
    let d = letterbox_dest(dims(1280, 720), dims(640, 480));
    assert_eq!(d.x.num, 160 * d.x.den);
    assert_eq!(d.y.num, 0);
    assert_eq!(d.w.num, 960 * d.w.den);
    assert_eq!(d.h.num, 720 * d.h.den);
}

#[test]
fn viewport_source_round_trip_is_exact() {
    // Project a source point to the viewport and map it back.
    let vp = dims(1280, 720);
    let src = dims(1920, 1080);
    let fwd = source_to_viewport(pt(300, 600), vp, src);
    // Scale 2/3 with no offset: lands on integers 200 and 400.
    assert_eq!(fwd.x.num, 200 * fwd.x.den);
    assert_eq!(fwd.y.num, 400 * fwd.y.den);
    let back = viewport_to_source(pt(200, 400), vp, src);
    assert_eq!(back.x.num, 300 * back.x.den);
    assert_eq!(back.y.num, 600 * back.y.den);
}

#[test]
fn viewport_source_round_trip_with_offset() {
    // 640x480 in 1280x720 letterboxes with a 160 px bar on the left.
    let vp = dims(1280, 720);
    let src = dims(640, 480);
    let fwd = source_to_viewport(pt(100, 100), vp, src);
    assert_eq!(fwd.x.num, 310 * fwd.x.den);
    assert_eq!(fwd.y.num, 150 * fwd.y.den);
    let back = viewport_to_source(pt(310, 150), vp, src);
    assert_eq!(back.x.num, 100 * back.x.den);
    assert_eq!(back.y.num, 100 * back.y.den);
}

#[test]
fn viewport_to_source_clamps_outside_points() {
    let vp = dims(1280, 720);
    let src = dims(1920, 1080);
    let below = viewport_to_source(pt(-50, -50), vp, src);
    assert_eq!(below.x.num, 0);
    assert_eq!(below.y.num, 0);
    let above = viewport_to_source(pt(5000, 5000), vp, src);
    assert_eq!(above.x.num, 1920 * above.x.den);
    assert_eq!(above.y.num, 1080 * above.y.den);
}

#[test]
fn small_crop_selection_is_discarded() {
    // A 6 px viewport drag is 9 source px at scale 2/3: under the 10 px
    // minimum, so no crop is produced.
    let r = crop_from_selection(pt(100, 100), pt(106, 106), dims(1280, 720), dims(1920, 1080));
    assert!(r.is_none());
}

#[test]
fn crop_selection_exactly_at_threshold_is_discarded() {
    // 10 source px is not strictly greater than the minimum.
    // A 20/3 px viewport drag is impossible; use a 1:1 scale instead.
    let r = crop_from_selection(pt(0, 0), pt(10, 10), dims(1920, 1080), dims(1920, 1080));
    assert!(r.is_none());
}

#[test]
fn crop_selection_commits_in_source_pixels() {
    let r = crop_from_selection(pt(100, 100), pt(200, 200), dims(1280, 720), dims(1920, 1080));
    assert_eq!(r, Some(IRect { x: 150, y: 150, w: 150, h: 150 }));
}

#[test]
fn crop_selection_accepts_reversed_drag() {
    // Dragging up-left gives the same rectangle as down-right.
    let r = crop_from_selection(pt(200, 200), pt(100, 100), dims(1280, 720), dims(1920, 1080));
    assert_eq!(r, Some(IRect { x: 150, y: 150, w: 150, h: 150 }));
}

#[test]
fn crop_selection_is_limited_by_source_edge() {
    // A drag reaching past the right edge is truncated to the source.
    let r = crop_from_selection(pt(1200, 300), pt(1280, 400), dims(1280, 720), dims(1920, 1080));
    let rect = r.expect("large selection commits");
    assert_eq!(rect.x, 1800);
    assert_eq!(rect.w, 120);
}

#[test]
fn zoom_crop_matches_zoomed_scenario() {
    // Overlay box 160x120, zoom 2, source 640x480: shrink to 320x240
    // centred; the aspect already matches 4:3, so the final crop runs from
    // (160, 120) to (480, 360).
    let r = zoom_crop_rect(dims(640, 480), Zoom { num: 2, den: 1 }, dims(160, 120));
    assert_eq!(r.w.num, 320 * r.w.den);
    assert_eq!(r.h.num, 240 * r.h.den);
    assert_eq!(r.x.num, 160 * r.x.den);
    assert_eq!(r.y.num, 120 * r.y.den);
}

#[test]
fn zoom_crop_at_unit_zoom_trims_wide_source() {
    // A 1280x480 source in a 160x120 box: wider than 4:3, so the width is
    // trimmed to 640 and centred at x = 320.
    let r = zoom_crop_rect(dims(1280, 480), Zoom { num: 1, den: 1 }, dims(160, 120));
    assert_eq!(r.w.num, 640 * r.w.den);
    assert_eq!(r.h.num, 480 * r.h.den);
    assert_eq!(r.x.num, 320 * r.x.den);
    assert_eq!(r.y.num, 0);
}

#[test]
fn zoom_crop_trims_tall_source() {
    // A 480x1280 source in a 160x120 box: taller than 4:3, so the height is
    // trimmed to 360 and centred at y = 460.
    let r = zoom_crop_rect(dims(480, 1280), Zoom { num: 1, den: 1 }, dims(160, 120));
    assert_eq!(r.w.num, 480 * r.w.den);
    assert_eq!(r.h.num, 360 * r.h.den);
    assert_eq!(r.x.num, 0);
    assert_eq!(r.y.num, 460 * r.y.den);
}

#[test]
fn fractional_zoom_keeps_exact_ratios() {
    // Zoom 1.5 stored as 3/2: 640/1.5 is not an integer, and the fraction
    // keeps it exact: w = 1280/3.
    let r = zoom_crop_rect(dims(640, 480), Zoom { num: 3, den: 2 }, dims(160, 120));
    assert_eq!(r.w.num * 3, 1280 * r.w.den);
    assert_eq!(r.h.num * 1, 320 * r.h.den);
}
