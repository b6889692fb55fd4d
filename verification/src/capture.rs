//! Capture session bookkeeping.
//!
//! One slot per media source (camera, screen).  Enabling a slot issues an
//! asynchronous acquisition request to the external capture provider; the
//! slot hands out an epoch token and applies the result only if the token is
//! still current, so a result that arrives after the slot has since been
//! disabled (or re-enabled) is discarded rather than applied.  A slot is
//! `ready` only once the attached stream has produced a decodable frame;
//! reading frames from a disabled or unready slot yields nothing, never
//! stale data.

use crate::geom::Dims;
use vstd::prelude::*;

verus! {

/// What the external capture provider answered.
#[derive(Clone, Copy, PartialEq, Eq, Structural, Debug)]
pub enum AcquireOutcome {
    /// A stream was granted and attached by the caller.
    Granted,
    /// The user declined access.
    PermissionDenied,
    /// The host lacks the capability.
    Unsupported,
}

/// Bookkeeping for one media source slot.
#[derive(Clone, Copy, PartialEq, Eq, Structural, Debug)]
pub struct CaptureSlot {
    /// The user wants this source on: a request is in flight or a stream is
    /// attached.
    pub enabled: bool,
    /// A stream is attached.
    pub attached: bool,
    /// The attached stream has produced a decodable frame.
    pub ready: bool,
    /// The current frame's native pixel dimensions, re-read as frames
    /// arrive.
    pub frame_dims: Option<Dims>,
    /// Bumped on every request and every disable; a token from an earlier
    /// epoch is stale.
    pub epoch: u64,
}

impl CaptureSlot {
    /// Readiness implies an attached stream, which implies an enabled slot;
    /// dimensions are known only once ready.
    pub open spec fn wf(self) -> bool {
        &&& self.ready ==> self.attached
        &&& self.attached ==> self.enabled
        &&& self.frame_dims is Some ==> self.ready
    }

    /// Successor state on a new enable request: everything from the previous
    /// stream is dropped — streams are never cached across an enable/disable
    /// cycle — and the epoch advances.
    pub open spec fn enable_next(self) -> CaptureSlot {
        CaptureSlot {
            enabled: true,
            attached: false,
            ready: false,
            frame_dims: None,
            epoch: (self.epoch + 1) as u64,
        }
    }

    /// Successor state when an acquisition result arrives.  A stale token
    /// (any epoch but the current one), or a result for a slot no longer
    /// waiting for a stream, changes nothing.  Otherwise a granted stream
    /// attaches, not yet ready; a refusal leaves the slot disabled.
    pub open spec fn resolve_next(self, token: u64, outcome: AcquireOutcome) -> CaptureSlot {
        if token != self.epoch || !self.enabled || self.attached {
            self
        } else if outcome == AcquireOutcome::Granted {
            CaptureSlot { attached: true, ready: false, frame_dims: None, ..self }
        } else {
            CaptureSlot { enabled: false, attached: false, ready: false, frame_dims: None, ..self }
        }
    }

    /// Successor state when the attached stream reports a decodable frame of
    /// the given dimensions; ignored while no stream is attached.
    pub open spec fn frame_next(self, dims: Dims) -> CaptureSlot {
        if self.attached {
            CaptureSlot { ready: true, frame_dims: Some(dims), ..self }
        } else {
            self
        }
    }

    /// Successor state on disable: the slot is cleared and the epoch
    /// advances, so any in-flight acquisition result becomes stale.
    pub open spec fn disable_next(self) -> CaptureSlot {
        CaptureSlot {
            enabled: false,
            attached: false,
            ready: false,
            frame_dims: None,
            epoch: (self.epoch + 1) as u64,
        }
    }

    /// A fresh slot: disabled, nothing attached.
    pub fn new() -> (r: CaptureSlot)
        ensures
            r == (CaptureSlot {
                enabled: false,
                attached: false,
                ready: false,
                frame_dims: None,
                epoch: 0u64,
            }),
            r.wf(),
    {
        CaptureSlot { enabled: false, attached: false, ready: false, frame_dims: None, epoch: 0 }
    }

    /// Request a fresh stream for this slot.  Returns the token the caller
    /// must hand back with the provider's answer.
    pub fn request_enable(&mut self) -> (token: u64)
        requires
            old(self).wf(),
            old(self).epoch < u64::MAX,
        ensures
            *final(self) == old(self).enable_next(),
            token == final(self).epoch,
            final(self).wf(),
    {
        self.enabled = true;
        self.attached = false;
        self.ready = false;
        self.frame_dims = None;
        self.epoch = self.epoch + 1;
        self.epoch
    }

    /// Apply the provider's answer for the request identified by `token`.
    pub fn resolve_acquire(&mut self, token: u64, outcome: AcquireOutcome)
        requires
            old(self).wf(),
        ensures
            *final(self) == old(self).resolve_next(token, outcome),
            final(self).wf(),
    {
        if token == self.epoch && self.enabled && !self.attached {
            match outcome {
                AcquireOutcome::Granted => {
                    self.attached = true;
                    self.ready = false;
                    self.frame_dims = None;
                },
                _ => {
                    self.enabled = false;
                    self.attached = false;
                    self.ready = false;
                    self.frame_dims = None;
                },
            }
        }
    }

    /// The attached stream produced a decodable frame of the given native
    /// dimensions.
    pub fn mark_frame(&mut self, dims: Dims)
        requires
            old(self).wf(),
        ensures
            *final(self) == old(self).frame_next(dims),
            final(self).wf(),
    {
        if self.attached {
            self.ready = true;
            self.frame_dims = Some(dims);
        }
    }

    /// Stop and clear this slot.  The caller stops the underlying tracks;
    /// the epoch advance makes any still-pending acquisition stale.
    pub fn disable(&mut self)
        requires
            old(self).wf(),
            old(self).epoch < u64::MAX,
        ensures
            *final(self) == old(self).disable_next(),
            final(self).wf(),
    {
        self.enabled = false;
        self.attached = false;
        self.ready = false;
        self.frame_dims = None;
        self.epoch = self.epoch + 1;
    }

    /// The current frame's dimensions, or nothing while the slot is not
    /// enabled, attached and ready — a disabled slot never shows stale data.
    pub fn frame(&self) -> (r: Option<Dims>)
        requires
            self.wf(),
        ensures
            r == (if self.enabled && self.ready {
                self.frame_dims
            } else {
                None
            }),
    {
        if self.enabled && self.ready {
            self.frame_dims
        } else {
            None
        }
    }
}

/// A superseded acquisition result is discarded: once a slot is disabled,
/// resolving any token issued before (or at) that disable leaves the slot
/// exactly as the disable left it, whatever the provider answered.
pub proof fn lemma_stale_acquire_discarded(s: CaptureSlot, token: u64, outcome: AcquireOutcome)
    requires
        s.wf(),
        s.epoch < u64::MAX,
        token <= s.epoch,
    ensures
        s.disable_next().resolve_next(token, outcome) == s.disable_next(),
{
}

/// Bookkeeping for the picture-in-picture mirror: a secondary sink attached
/// to the composite stream.  The host raises a single "closed" event; while
/// a recording is active the caller must treat it as an implicit stop
/// request.
#[derive(Clone, Copy, PartialEq, Eq, Structural, Debug)]
pub struct PipSession {
    pub active: bool,
}

impl PipSession {
    pub fn new() -> (r: PipSession)
        ensures
            !r.active,
    {
        PipSession { active: false }
    }

    /// The mirror window opened.
    pub fn on_entered(&mut self)
        ensures
            final(self).active,
    {
        self.active = true;
    }

    /// The mirror window closed (by the user or by an explicit exit).
    pub fn on_closed(&mut self)
        ensures
            !final(self).active,
    {
        self.active = false;
    }
}

} // verus!
