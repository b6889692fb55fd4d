//! Core logic of an interactive screen-demo compositing widget: the geometry
//! engine that maps between viewport, overlay-box and source-pixel spaces,
//! the pointer-interaction state machine that owns the camera overlay box and
//! the crop/zoom settings, the capture-slot bookkeeping, the recording-session
//! state machine, and the per-tick render planner that lays the output
//! surface out layer by layer.

pub mod capture;
pub mod compose;
pub mod frac;
pub mod geom;
pub mod interact;
pub mod record;
