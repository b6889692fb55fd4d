//! Interaction state machine.
//!
//! Owns the camera overlay box, the crop bounds, the zoom factor and the
//! current interaction mode, and interprets the pointer-event stream against
//! them.  Exactly one mode is active at a time — the mode is a single enum —
//! and entering any mode cancels whichever gesture was in progress.
//!
//! Every mutation is specified by a transition function (`down_next`,
//! `move_next`, ...) giving the whole successor state, and the executable
//! event handlers establish exactly that state.

use crate::frac::rat_floor;
use crate::geom::{
    clamp_spec, clamp_to_viewport, crop_from_selection, crop_sel_accepted, crop_sel_h,
    crop_sel_w, crop_sel_x, crop_sel_y, crop_usable, Dims, IRect, Pt, Zoom,
};
use vstd::prelude::*;

verus! {

/// Smallest allowed overlay-box width.
pub const MIN_BOX_W: i64 = 100;

/// Largest allowed overlay-box width.
pub const MAX_BOX_W: i64 = 600;

/// Smallest allowed overlay-box height.
pub const MIN_BOX_H: i64 = 100;

/// Largest allowed overlay-box height.
pub const MAX_BOX_H: i64 = 400;

/// Width of the resize-corner zone, measured from the box's bottom-right
/// corner.
pub const CORNER_ZONE: i64 = 20;

/// The mutually exclusive interaction modes.
#[derive(Clone, Copy, PartialEq, Eq, Structural, Debug)]
pub enum Mode {
    /// No gesture in progress.
    Idle,
    /// The overlay box follows the pointer; `grab` is the pointer's offset
    /// from the box origin at the moment it was grabbed.
    Dragging { grab: Pt },
    /// The bottom-right corner follows the pointer; the box origin anchors.
    Resizing,
    /// A crop rectangle is being dragged out in viewport space.
    CropSelecting { start: Pt, current: Pt },
    /// The annotation marker follows the raw pointer.
    PointerAnnotating { pos: Pt },
}

/// The cursor hint recomputed on hover; it never mutates interaction state.
#[derive(Clone, Copy, PartialEq, Eq, Structural, Debug)]
pub enum CursorHint {
    Default,
    Grab,
    Grabbing,
    Resize,
    Crosshair,
    Hidden,
}

/// State owned by the interaction machine: the overlay box, the committed
/// crop, the camera zoom, the armed crop tool and the active mode.
#[derive(Clone, Copy, PartialEq, Eq, Structural, Debug)]
pub struct InteractionState {
    pub box_pos: Pt,
    pub box_size: Dims,
    pub mode: Mode,
    pub crop_armed: bool,
    pub crop_bounds: Option<IRect>,
    pub zoom: Zoom,
}

/// The pointer lies inside the overlay box (edges included).
pub open spec fn inside_box(p: Pt, pos: Pt, size: Dims) -> bool {
    pos.x <= p.x <= pos.x + size.w && pos.y <= p.y <= pos.y + size.h
}

/// The pointer lies in the resize zone: inside the box and strictly within
/// `CORNER_ZONE` of both the right and the bottom edge.
pub open spec fn in_resize_corner(p: Pt, pos: Pt, size: Dims) -> bool {
    inside_box(p, pos, size) && p.x - pos.x > size.w - CORNER_ZONE && p.y - pos.y > size.h
        - CORNER_ZONE
}

/// A crop selection can be converted only when the viewport and the screen
/// source both have usable dimensions.
pub open spec fn can_convert(viewport: Dims, screen: Option<Dims>) -> bool {
    viewport.positive() && (screen matches Some(d) && d.positive())
}

impl InteractionState {
    /// Well-formedness: the box has a legal size and a bounded position, and
    /// every mode payload is bounded.
    pub open spec fn wf(self) -> bool {
        &&& self.box_pos.bounded()
        &&& MIN_BOX_W <= self.box_size.w <= MAX_BOX_W
        &&& MIN_BOX_H <= self.box_size.h <= MAX_BOX_H
        &&& self.zoom.wf()
        &&& (self.crop_bounds matches Some(c) ==> crop_usable(c))
        &&& match self.mode {
            Mode::Idle => true,
            Mode::Dragging { grab } => 0 <= grab.x <= self.box_size.w && 0 <= grab.y
                <= self.box_size.h,
            Mode::Resizing => true,
            Mode::CropSelecting { start, current } => start.bounded() && current.bounded(),
            Mode::PointerAnnotating { pos } => pos.bounded(),
        }
    }

    /// Successor state on pointer-down.  Precedence: an armed annotation tool
    /// keeps tracking; an armed crop tool starts a selection; then the resize
    /// corner, then the box interior (camera visible in both cases); anywhere
    /// else the state is untouched.
    pub open spec fn down_next(self, p: Pt, camera_on: bool) -> InteractionState {
        match self.mode {
            Mode::PointerAnnotating { .. } => InteractionState {
                mode: Mode::PointerAnnotating { pos: p },
                ..self
            },
            _ => if self.crop_armed {
                InteractionState { mode: Mode::CropSelecting { start: p, current: p }, ..self }
            } else if camera_on && in_resize_corner(p, self.box_pos, self.box_size) {
                InteractionState { mode: Mode::Resizing, ..self }
            } else if camera_on && inside_box(p, self.box_pos, self.box_size) {
                InteractionState {
                    mode: Mode::Dragging {
                        grab: Pt { x: (p.x - self.box_pos.x) as i64, y: (p.y - self.box_pos.y) as i64 },
                    },
                    ..self
                }
            } else {
                self
            },
        }
    }

    /// Successor state on pointer-move: dispatch to the active mode alone.
    /// A drag clamps the box into the viewport; a resize clamps the size into
    /// its bounds; a crop selection tracks its end point; the annotation
    /// marker tracks the raw pointer; idle moves change nothing.
    pub open spec fn move_next(self, p: Pt, viewport: Dims) -> InteractionState {
        match self.mode {
            Mode::Idle => self,
            Mode::Dragging { grab } => InteractionState {
                box_pos: Pt {
                    x: clamp_spec(p.x - grab.x, 0, viewport.w - self.box_size.w) as i64,
                    y: clamp_spec(p.y - grab.y, 0, viewport.h - self.box_size.h) as i64,
                },
                ..self
            },
            Mode::Resizing => InteractionState {
                box_size: Dims {
                    w: clamp_spec(p.x - self.box_pos.x, MIN_BOX_W as int, MAX_BOX_W as int) as i64,
                    h: clamp_spec(p.y - self.box_pos.y, MIN_BOX_H as int, MAX_BOX_H as int) as i64,
                },
                ..self
            },
            Mode::CropSelecting { start, .. } => InteractionState {
                mode: Mode::CropSelecting { start, current: p },
                ..self
            },
            Mode::PointerAnnotating { .. } => InteractionState {
                mode: Mode::PointerAnnotating { pos: p },
                ..self
            },
        }
    }

    /// Successor state on pointer-up.  A drag or a resize ends; the
    /// annotation tool disarms (single-shot per gesture); a crop selection is
    /// converted to source space and committed — disarming the tool — only
    /// when both converted extents exceed the minimum, and is discarded with
    /// the tool left armed otherwise.
    pub open spec fn up_next(self, viewport: Dims, screen: Option<Dims>) -> InteractionState {
        match self.mode {
            Mode::Idle => self,
            Mode::Dragging { .. } => InteractionState { mode: Mode::Idle, ..self },
            Mode::Resizing => InteractionState { mode: Mode::Idle, ..self },
            Mode::PointerAnnotating { .. } => InteractionState { mode: Mode::Idle, ..self },
            Mode::CropSelecting { start, current } => if can_convert(viewport, screen)
                && crop_sel_accepted(start, current, viewport, screen->Some_0) {
                InteractionState {
                    mode: Mode::Idle,
                    crop_armed: false,
                    crop_bounds: Some(
                        IRect {
                            x: rat_floor(crop_sel_x(start, current, viewport, screen->Some_0)) as i64,
                            y: rat_floor(crop_sel_y(start, current, viewport, screen->Some_0)) as i64,
                            w: rat_floor(crop_sel_w(start, current, viewport, screen->Some_0)) as i64,
                            h: rat_floor(crop_sel_h(start, current, viewport, screen->Some_0)) as i64,
                        },
                    ),
                    ..self
                }
            } else {
                InteractionState { mode: Mode::Idle, ..self }
            },
        }
    }

    /// Successor state when the pointer leaves the surface: a drag or resize
    /// is abandoned; other modes are unaffected.
    pub open spec fn leave_next(self) -> InteractionState {
        match self.mode {
            Mode::Dragging { .. } => InteractionState { mode: Mode::Idle, ..self },
            Mode::Resizing => InteractionState { mode: Mode::Idle, ..self },
            _ => self,
        }
    }

    /// Successor state on toggling the crop tool.  Arming cancels whatever
    /// gesture is in progress; disarming abandons a live selection.
    pub open spec fn toggle_crop_next(self) -> InteractionState {
        if !self.crop_armed {
            InteractionState { crop_armed: true, mode: Mode::Idle, ..self }
        } else {
            InteractionState {
                crop_armed: false,
                mode: match self.mode {
                    Mode::CropSelecting { .. } => Mode::Idle,
                    m => m,
                },
                ..self
            }
        }
    }

    /// Successor state on arming the annotation tool: it starts tracking at
    /// `p` immediately, and the crop tool is disarmed with any live selection
    /// abandoned.
    pub open spec fn arm_pointer_next(self, p: Pt) -> InteractionState {
        InteractionState { mode: Mode::PointerAnnotating { pos: p }, crop_armed: false, ..self }
    }

    /// The cursor hint for pointer position `p`: a pure function of the
    /// current state.
    pub open spec fn hint_spec(self, p: Pt, camera_on: bool) -> CursorHint {
        match self.mode {
            Mode::PointerAnnotating { .. } => CursorHint::Hidden,
            Mode::CropSelecting { .. } => CursorHint::Crosshair,
            Mode::Dragging { .. } => CursorHint::Grabbing,
            Mode::Resizing => CursorHint::Resize,
            Mode::Idle => if self.crop_armed {
                CursorHint::Crosshair
            } else if camera_on && in_resize_corner(p, self.box_pos, self.box_size) {
                CursorHint::Resize
            } else if camera_on && inside_box(p, self.box_pos, self.box_size) {
                CursorHint::Grab
            } else {
                CursorHint::Default
            },
        }
    }

    /// The initial state: box at (100, 100) sized 160 by 120, idle, no tool
    /// armed, no crop, no zoom.
    pub fn new() -> (r: InteractionState)
        ensures
            r.wf(),
            r.box_pos == (Pt { x: 100, y: 100 }),
            r.box_size == (Dims { w: 160, h: 120 }),
            r.mode == Mode::Idle,
            !r.crop_armed,
            r.crop_bounds is None,
            r.zoom.num == r.zoom.den,
    {
        InteractionState {
            box_pos: Pt { x: 100, y: 100 },
            box_size: Dims { w: 160, h: 120 },
            mode: Mode::Idle,
            crop_armed: false,
            crop_bounds: None,
            zoom: Zoom::unit(),
        }
    }

    /// Handle pointer-down.
    pub fn pointer_down(&mut self, p: Pt, camera_on: bool)
        requires
            old(self).wf(),
            p.bounded(),
        ensures
            *final(self) == old(self).down_next(p, camera_on),
            final(self).wf(),
    {
        match self.mode {
            Mode::PointerAnnotating { .. } => {
                self.mode = Mode::PointerAnnotating { pos: p };
            },
            _ => {
                if self.crop_armed {
                    self.mode = Mode::CropSelecting { start: p, current: p };
                } else if camera_on && p.x >= self.box_pos.x && p.x <= self.box_pos.x
                    + self.box_size.w && p.y >= self.box_pos.y && p.y <= self.box_pos.y
                    + self.box_size.h {
                    let rel_x = p.x - self.box_pos.x;
                    let rel_y = p.y - self.box_pos.y;
                    if rel_x > self.box_size.w - CORNER_ZONE && rel_y > self.box_size.h
                        - CORNER_ZONE {
                        self.mode = Mode::Resizing;
                    } else {
                        self.mode = Mode::Dragging { grab: Pt { x: rel_x, y: rel_y } };
                    }
                }
            },
        }
    }

    /// Handle pointer-move.
    pub fn pointer_move(&mut self, p: Pt, viewport: Dims)
        requires
            old(self).wf(),
            p.bounded(),
            viewport.bounded(),
        ensures
            *final(self) == old(self).move_next(p, viewport),
            final(self).wf(),
    {
        match self.mode {
            Mode::Idle => {},
            Mode::Dragging { grab } => {
                let target = Pt { x: p.x - grab.x, y: p.y - grab.y };
                self.box_pos = clamp_to_viewport(target, self.box_size, viewport);
            },
            Mode::Resizing => {
                let w = crate::geom::clamp_i64(p.x - self.box_pos.x, MIN_BOX_W, MAX_BOX_W);
                let h = crate::geom::clamp_i64(p.y - self.box_pos.y, MIN_BOX_H, MAX_BOX_H);
                self.box_size = Dims { w, h };
            },
            Mode::CropSelecting { start, .. } => {
                self.mode = Mode::CropSelecting { start, current: p };
            },
            Mode::PointerAnnotating { .. } => {
                self.mode = Mode::PointerAnnotating { pos: p };
            },
        }
    }

    /// Handle pointer-up.  `screen` carries the background source's pixel
    /// dimensions when a screen capture is decodable, for converting a crop
    /// selection.
    pub fn pointer_up(&mut self, viewport: Dims, screen: Option<Dims>)
        requires
            old(self).wf(),
            viewport.bounded(),
            screen matches Some(d) ==> d.bounded(),
        ensures
            *final(self) == old(self).up_next(viewport, screen),
            final(self).wf(),
    {
        match self.mode {
            Mode::Idle => {},
            Mode::Dragging { .. } => {
                self.mode = Mode::Idle;
            },
            Mode::Resizing => {
                self.mode = Mode::Idle;
            },
            Mode::PointerAnnotating { .. } => {
                self.mode = Mode::Idle;
            },
            Mode::CropSelecting { start, current } => {
                self.mode = Mode::Idle;
                let usable_viewport = viewport.w >= 1 && viewport.h >= 1;
                match screen {
                    Some(d) => {
                        if usable_viewport && d.w >= 1 && d.h >= 1 {
                            match crop_from_selection(start, current, viewport, d) {
                                Some(rect) => {
                                    self.crop_bounds = Some(rect);
                                    self.crop_armed = false;
                                },
                                None => {},
                            }
                        }
                    },
                    None => {},
                }
            },
        }
    }

    /// Handle the pointer leaving the surface.
    pub fn pointer_leave(&mut self)
        requires
            old(self).wf(),
        ensures
            *final(self) == old(self).leave_next(),
            final(self).wf(),
    {
        match self.mode {
            Mode::Dragging { .. } => {
                self.mode = Mode::Idle;
            },
            Mode::Resizing => {
                self.mode = Mode::Idle;
            },
            _ => {},
        }
    }

    /// Toggle the crop tool.
    pub fn toggle_crop_tool(&mut self)
        requires
            old(self).wf(),
        ensures
            *final(self) == old(self).toggle_crop_next(),
            final(self).wf(),
    {
        if !self.crop_armed {
            self.crop_armed = true;
            self.mode = Mode::Idle;
        } else {
            self.crop_armed = false;
            match self.mode {
                Mode::CropSelecting { .. } => {
                    self.mode = Mode::Idle;
                },
                _ => {},
            }
        }
    }

    /// Arm the annotation tool, tracking from `p`.
    pub fn arm_pointer_tool(&mut self, p: Pt)
        requires
            old(self).wf(),
            p.bounded(),
        ensures
            *final(self) == old(self).arm_pointer_next(p),
            final(self).wf(),
    {
        self.mode = Mode::PointerAnnotating { pos: p };
        self.crop_armed = false;
    }

    /// Clear the committed crop and disarm the crop tool.
    pub fn reset_crop(&mut self)
        requires
            old(self).wf(),
        ensures
            *final(self) == (InteractionState {
                crop_bounds: None,
                crop_armed: false,
                ..*old(self)
            }),
            final(self).wf(),
    {
        self.crop_bounds = None;
        self.crop_armed = false;
    }

    /// Set the camera zoom factor.
    pub fn set_zoom(&mut self, z: Zoom)
        requires
            old(self).wf(),
            z.wf(),
        ensures
            *final(self) == (InteractionState { zoom: z, ..*old(self) }),
            final(self).wf(),
    {
        self.zoom = z;
    }

    /// Recompute the cursor hint for the hovered position; reads, never
    /// writes.
    pub fn cursor_hint(&self, p: Pt, camera_on: bool) -> (r: CursorHint)
        requires
            self.wf(),
            p.bounded(),
        ensures
            r == self.hint_spec(p, camera_on),
    {
        match self.mode {
            Mode::PointerAnnotating { .. } => CursorHint::Hidden,
            Mode::CropSelecting { .. } => CursorHint::Crosshair,
            Mode::Dragging { .. } => CursorHint::Grabbing,
            Mode::Resizing => CursorHint::Resize,
            Mode::Idle => {
                if self.crop_armed {
                    CursorHint::Crosshair
                } else if camera_on && p.x >= self.box_pos.x && p.x <= self.box_pos.x
                    + self.box_size.w && p.y >= self.box_pos.y && p.y <= self.box_pos.y
                    + self.box_size.h {
                    if p.x - self.box_pos.x > self.box_size.w - CORNER_ZONE && p.y
                        - self.box_pos.y > self.box_size.h - CORNER_ZONE {
                        CursorHint::Resize
                    } else {
                        CursorHint::Grab
                    }
                } else {
                    CursorHint::Default
                }
            },
        }
    }
}

/// Mode exclusivity: arming the crop tool while a drag is in progress clears
/// the drag at once — the box keeps the position and size it had — and the
/// pointer events that follow touch only the crop selection: after the next
/// pointer-down and any pointer-move, the box and the committed crop are
/// exactly as they were when the drag was abandoned.
pub proof fn lemma_crop_arm_cancels_drag(
    s: InteractionState,
    p: Pt,
    q: Pt,
    camera_on: bool,
    viewport: Dims,
)
    requires
        s.wf(),
        s.mode is Dragging,
        !s.crop_armed,
    ensures
        ({
            let armed = s.toggle_crop_next();
            let selecting = armed.down_next(p, camera_on);
            let moved = selecting.move_next(q, viewport);
            &&& armed.mode == Mode::Idle
            &&& armed.box_pos == s.box_pos && armed.box_size == s.box_size
            &&& selecting.mode == (Mode::CropSelecting { start: p, current: p })
            &&& moved.mode == (Mode::CropSelecting { start: p, current: q })
            &&& moved.box_pos == s.box_pos && moved.box_size == s.box_size
            &&& moved.crop_bounds == s.crop_bounds
        }),
{
}

} // verus!
