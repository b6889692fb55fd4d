//! Render planner.
//!
//! Each timer tick is a complete, idempotent redraw: from the current
//! viewport, interaction state, source frames and recording state, the
//! planner computes every layer of the frame.  The layer order is fixed,
//! back to front: screen background, camera overlay, crop-selection mask,
//! pointer marker, countdown digit — later layers intentionally occlude
//! earlier ones.  Drawing the planned layers is the caller's; the planner
//! only reads state and never mutates it.

use crate::frac::{rat_mul, rat_of_int};
use crate::geom::{
    axis_offset, crop_usable, ext_of, lb_scale, letterbox_dest, lo_of, zoom_crop_h,
    zoom_crop_rect, zoom_crop_w, zoom_crop_x, zoom_crop_y, Dims, FracRect, IRect, Pt,
    MAX_COORD,
};
use crate::interact::{InteractionState, Mode};
use crate::record::RecState;
use vstd::prelude::*;

verus! {

/// Corner radius, in viewport pixels, of the rounded clip around the camera
/// overlay.
pub const OVERLAY_CORNER_RADIUS: i64 = 12;

/// The screen-share background: the sub-rectangle `src` of the source (the
/// committed crop, or the full frame), letterboxed into `dest` on the
/// viewport.
#[derive(Clone, Copy, PartialEq, Eq, Structural, Debug)]
pub struct BackgroundLayer {
    pub src: IRect,
    pub dest: FracRect,
}

/// The camera overlay: the zoom/aspect crop `src` of the camera frame, drawn
/// into the overlay box, mirrored about its vertical centre and clipped to a
/// rounded rectangle.
#[derive(Clone, Copy, PartialEq, Eq, Structural, Debug)]
pub struct CameraLayer {
    pub src: FracRect,
    pub dest_pos: Pt,
    pub dest_size: Dims,
    pub mirrored: bool,
    pub corner_radius: i64,
}

/// A live crop selection: its outline, and the four dimming rectangles that
/// cover the viewport outside it.
#[derive(Clone, Copy, PartialEq, Eq, Structural, Debug)]
pub struct CropSelectionLayer {
    pub outline: IRect,
    pub mask_top: IRect,
    pub mask_bottom: IRect,
    pub mask_left: IRect,
    pub mask_right: IRect,
}

/// Everything one tick draws.  Field order is the draw order, back to front;
/// an absent layer is skipped.
#[derive(Clone, Copy, PartialEq, Eq, Structural, Debug)]
pub struct RenderPlan {
    pub viewport: Dims,
    pub background: Option<BackgroundLayer>,
    pub camera: Option<CameraLayer>,
    pub crop_selection: Option<CropSelectionLayer>,
    pub marker: Option<Pt>,
    pub countdown: Option<u8>,
}

/// The background's source rectangle: the committed crop when it is usable,
/// the whole frame otherwise.
pub open spec fn bg_src_rect(crop: Option<IRect>, frame: Dims) -> IRect {
    match crop {
        Some(c) => if crop_usable(c) {
            c
        } else {
            IRect { x: 0, y: 0, w: frame.w, h: frame.h }
        },
        None => IRect { x: 0, y: 0, w: frame.w, h: frame.h },
    }
}

/// Compute the layers of one frame.  Source frames are given as their native
/// pixel dimensions when decodable (`None` otherwise, and the layer is
/// skipped); the screen background is drawn only when both the viewport and
/// the frame have usable dimensions.
pub fn plan_frame(
    viewport: Dims,
    ui: &InteractionState,
    screen_frame: Option<Dims>,
    camera_frame: Option<Dims>,
    rec_state: RecState,
) -> (r: RenderPlan)
    requires
        ui.wf(),
        viewport.bounded(),
    ensures
        r.viewport == viewport,
        r.background is Some <==> viewport.positive() && (screen_frame matches Some(d)
            && d.positive()),
        r.background matches Some(b) ==> ({
            let srect = bg_src_rect(ui.crop_bounds, screen_frame->Some_0);
            let sdims = Dims { w: srect.w, h: srect.h };
            let s = lb_scale(viewport, sdims);
            &&& b.src == srect
            &&& b.dest.x@ == axis_offset(viewport.w as int, srect.w as int, s.n, s.d)
            &&& b.dest.y@ == axis_offset(viewport.h as int, srect.h as int, s.n, s.d)
            &&& b.dest.w@ == rat_mul(rat_of_int(srect.w as int), s)
            &&& b.dest.h@ == rat_mul(rat_of_int(srect.h as int), s)
        }),
        r.camera is Some <==> (camera_frame matches Some(d) && d.positive()),
        r.camera matches Some(c) ==> ({
            let d = camera_frame->Some_0;
            &&& c.src.x@ == zoom_crop_x(d, ui.zoom, ui.box_size)
            &&& c.src.y@ == zoom_crop_y(d, ui.zoom, ui.box_size)
            &&& c.src.w@ == zoom_crop_w(d, ui.zoom, ui.box_size)
            &&& c.src.h@ == zoom_crop_h(d, ui.zoom, ui.box_size)
            &&& c.dest_pos == ui.box_pos
            &&& c.dest_size == ui.box_size
            &&& c.mirrored
            &&& c.corner_radius == OVERLAY_CORNER_RADIUS
        }),
        r.crop_selection is Some <==> ui.mode is CropSelecting,
        r.crop_selection matches Some(l) ==> (ui.mode matches Mode::CropSelecting {
            start,
            current,
        } && ({
            let sx = lo_of(start.x as int, current.x as int) as i64;
            let sy = lo_of(start.y as int, current.y as int) as i64;
            let sw = ext_of(start.x as int, current.x as int) as i64;
            let sh = ext_of(start.y as int, current.y as int) as i64;
            &&& l.outline == (IRect { x: sx, y: sy, w: sw, h: sh })
            &&& l.mask_top == (IRect { x: 0, y: 0, w: viewport.w, h: sy })
            &&& l.mask_bottom == (IRect {
                x: 0,
                y: (sy + sh) as i64,
                w: viewport.w,
                h: (viewport.h - (sy + sh)) as i64,
            })
            &&& l.mask_left == (IRect { x: 0, y: sy, w: sx, h: sh })
            &&& l.mask_right == (IRect {
                x: (sx + sw) as i64,
                y: sy,
                w: (viewport.w - (sx + sw)) as i64,
                h: sh,
            })
        })),
        r.marker == (match ui.mode {
            Mode::PointerAnnotating { pos } => Some(pos),
            _ => None,
        }),
        r.countdown == (match rec_state {
            RecState::CountingDown { n } => if n >= 1 {
                Some(n)
            } else {
                None
            },
            _ => None,
        }),
{
    let background = match screen_frame {
        Some(d) => {
            if viewport.w >= 1 && viewport.h >= 1 && d.w >= 1 && d.w <= MAX_COORD && d.h >= 1
                && d.h <= MAX_COORD {
                let srect = match ui.crop_bounds {
                    Some(c) => {
                        if c.x >= 0 && c.x <= MAX_COORD && c.y >= 0 && c.y <= MAX_COORD && c.w
                            >= 1 && c.w <= MAX_COORD && c.h >= 1 && c.h <= MAX_COORD {
                            c
                        } else {
                            IRect { x: 0, y: 0, w: d.w, h: d.h }
                        }
                    },
                    None => IRect { x: 0, y: 0, w: d.w, h: d.h },
                };
                let dest = letterbox_dest(viewport, Dims { w: srect.w, h: srect.h });
                Some(BackgroundLayer { src: srect, dest })
            } else {
                None
            }
        },
        None => None,
    };
    let camera = match camera_frame {
        Some(d) => {
            if d.w >= 1 && d.w <= MAX_COORD && d.h >= 1 && d.h <= MAX_COORD {
                let src = zoom_crop_rect(d, ui.zoom, ui.box_size);
                Some(
                    CameraLayer {
                        src,
                        dest_pos: ui.box_pos,
                        dest_size: ui.box_size,
                        mirrored: true,
                        corner_radius: OVERLAY_CORNER_RADIUS,
                    },
                )
            } else {
                None
            }
        },
        None => None,
    };
    let crop_selection = match ui.mode {
        Mode::CropSelecting { start, current } => {
            let sx = if start.x <= current.x {
                start.x
            } else {
                current.x
            };
            let sy = if start.y <= current.y {
                start.y
            } else {
                current.y
            };
            let sw = if start.x <= current.x {
                current.x - start.x
            } else {
                start.x - current.x
            };
            let sh = if start.y <= current.y {
                current.y - start.y
            } else {
                start.y - current.y
            };
            Some(
                CropSelectionLayer {
                    outline: IRect { x: sx, y: sy, w: sw, h: sh },
                    mask_top: IRect { x: 0, y: 0, w: viewport.w, h: sy },
                    mask_bottom: IRect {
                        x: 0,
                        y: sy + sh,
                        w: viewport.w,
                        h: viewport.h - (sy + sh),
                    },
                    mask_left: IRect { x: 0, y: sy, w: sx, h: sh },
                    mask_right: IRect {
                        x: sx + sw,
                        y: sy,
                        w: viewport.w - (sx + sw),
                        h: sh,
                    },
                },
            )
        },
        _ => None,
    };
    let marker = match ui.mode {
        Mode::PointerAnnotating { pos } => Some(pos),
        _ => None,
    };
    let countdown = match rec_state {
        RecState::CountingDown { n } => if n >= 1 {
            Some(n)
        } else {
            None
        },
        _ => None,
    };
    RenderPlan { viewport, background, camera, crop_selection, marker, countdown }
}

} // verus!
