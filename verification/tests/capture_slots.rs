use overlay_studio::capture::{AcquireOutcome, CaptureSlot, PipSession};
use overlay_studio::geom::Dims;

fn dims(w: i64, h: i64) -> Dims {
    Dims { w, h }
}

#[test]
fn enable_attach_ready_cycle() {
    let mut slot = CaptureSlot::new();
    assert_eq!(slot.frame(), None);
    let token = slot.request_enable();
    assert!(slot.enabled);
    assert_eq!(slot.frame(), None);
    slot.resolve_acquire(token, AcquireOutcome::Granted);
    assert!(slot.attached);
    // Attached but not yet decodable: still unavailable.
    assert_eq!(slot.frame(), None);
    slot.mark_frame(dims(1920, 1080));
    assert_eq!(slot.frame(), Some(dims(1920, 1080)));
    // Dimensions are re-read as frames arrive and may change.
    slot.mark_frame(dims(1280, 720));
    assert_eq!(slot.frame(), Some(dims(1280, 720)));
}

#[test]
fn disabled_slot_never_shows_stale_frames() {
    let mut slot = CaptureSlot::new();
    let token = slot.request_enable();
    slot.resolve_acquire(token, AcquireOutcome::Granted);
    slot.mark_frame(dims(1920, 1080));
    slot.disable();
    assert_eq!(slot.frame(), None);
    assert!(!slot.enabled);
    assert!(!slot.attached);
}

#[test]
fn stale_acquire_after_disable_is_discarded() {
    let mut slot = CaptureSlot::new();
    let token = slot.request_enable();
    slot.disable();
    let cleared = slot;
    // The grant arrives only now, after the disable superseded it.
    slot.resolve_acquire(token, AcquireOutcome::Granted);
    assert_eq!(slot, cleared);
    assert_eq!(slot.frame(), None);
}

#[test]
fn stale_acquire_after_reenable_is_discarded() {
    let mut slot = CaptureSlot::new();
    let first = slot.request_enable();
    let second = slot.request_enable();
    assert_ne!(first, second);
    // The first request's answer must not attach to the second request.
    slot.resolve_acquire(first, AcquireOutcome::Granted);
    assert!(!slot.attached);
    slot.resolve_acquire(second, AcquireOutcome::Granted);
    assert!(slot.attached);
}

#[test]
fn permission_denied_leaves_slot_disabled() {
    let mut slot = CaptureSlot::new();
    let token = slot.request_enable();
    slot.resolve_acquire(token, AcquireOutcome::PermissionDenied);
    assert!(!slot.enabled);
    assert_eq!(slot.frame(), None);
}

#[test]
fn unsupported_leaves_slot_disabled() {
    let mut slot = CaptureSlot::new();
    let token = slot.request_enable();
    slot.resolve_acquire(token, AcquireOutcome::Unsupported);
    assert!(!slot.enabled);
    assert_eq!(slot.frame(), None);
}

#[test]
fn reenabling_requests_a_fresh_stream() {
    let mut slot = CaptureSlot::new();
    let token = slot.request_enable();
    slot.resolve_acquire(token, AcquireOutcome::Granted);
    slot.mark_frame(dims(1920, 1080));
    slot.disable();
    // A new enable starts from scratch: nothing attached, nothing ready.
    let _again = slot.request_enable();
    assert!(slot.enabled);
    assert!(!slot.attached);
    assert_eq!(slot.frame(), None);
}

#[test]
fn pip_session_tracks_window() {
    let mut pip = PipSession::new();
    assert!(!pip.active);
    pip.on_entered();
    assert!(pip.active);
    pip.on_closed();
    assert!(!pip.active);
}
