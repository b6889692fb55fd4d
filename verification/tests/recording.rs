use overlay_studio::record::{concat_chunks, RecState, RecordingSession};

#[test]
fn full_session_concatenates_chunks_in_order() {
    let mut s = RecordingSession::new();
    assert!(s.request_start());
    assert_eq!(s.state, RecState::CountingDown { n: 3 });
    assert!(!s.tick_second());
    assert_eq!(s.state, RecState::CountingDown { n: 2 });
    assert!(!s.tick_second());
    assert_eq!(s.state, RecState::CountingDown { n: 1 });
    assert!(s.tick_second());
    assert_eq!(s.state, RecState::CountingDown { n: 0 });
    s.finish_setup(true);
    assert_eq!(s.state, RecState::Recording);
    s.push_chunk(vec![1, 2, 3]);
    s.push_chunk(vec![4, 5]);
    s.push_chunk(vec![6]);
    assert!(s.request_stop());
    assert_eq!(s.state, RecState::Finalizing);
    let artifact = s.finish_stop();
    assert_eq!(artifact, Some(vec![1, 2, 3, 4, 5, 6]));
    assert_eq!(s.state, RecState::Idle);
    assert_eq!(s.chunks.len(), 0);
}

#[test]
fn start_is_rejected_while_active() {
    let mut s = RecordingSession::new();
    assert!(s.request_start());
    // During the countdown.
    assert!(!s.request_start());
    s.tick_second();
    s.tick_second();
    s.tick_second();
    s.finish_setup(true);
    // While recording.
    assert!(!s.request_start());
    s.request_stop();
    // While finalizing.
    assert!(!s.request_start());
    s.finish_stop();
    // Idle again: accepted.
    assert!(s.request_start());
}

#[test]
fn stop_is_rejected_unless_recording() {
    let mut s = RecordingSession::new();
    assert!(!s.request_stop());
    s.request_start();
    assert!(!s.request_stop());
    assert_eq!(s.state, RecState::CountingDown { n: 3 });
}

#[test]
fn setup_failure_aborts_to_idle() {
    let mut s = RecordingSession::new();
    s.request_start();
    s.tick_second();
    s.tick_second();
    s.tick_second();
    s.finish_setup(false);
    assert_eq!(s.state, RecState::Idle);
    // And a new recording can start afterwards.
    assert!(s.request_start());
}

#[test]
fn chunks_outside_recording_are_dropped() {
    let mut s = RecordingSession::new();
    s.push_chunk(vec![9, 9]);
    assert_eq!(s.chunks.len(), 0);
    s.request_start();
    s.push_chunk(vec![9, 9]);
    assert_eq!(s.chunks.len(), 0);
}

#[test]
fn late_chunk_during_finalize_is_kept() {
    let mut s = RecordingSession::new();
    s.request_start();
    s.tick_second();
    s.tick_second();
    s.tick_second();
    s.finish_setup(true);
    s.push_chunk(vec![1]);
    s.request_stop();
    // The sink flushes one more chunk before its stop notification.
    s.push_chunk(vec![2]);
    assert_eq!(s.finish_stop(), Some(vec![1, 2]));
}

#[test]
fn empty_buffer_yields_no_artifact() {
    let mut s = RecordingSession::new();
    s.request_start();
    s.tick_second();
    s.tick_second();
    s.tick_second();
    s.finish_setup(true);
    s.request_stop();
    assert_eq!(s.finish_stop(), None);
    assert_eq!(s.state, RecState::Idle);
}

#[test]
fn stale_setup_result_is_discarded() {
    let mut s = RecordingSession::new();
    // No countdown has elapsed: a setup result has nothing to apply to.
    s.finish_setup(true);
    assert_eq!(s.state, RecState::Idle);
    s.request_start();
    s.finish_setup(true);
    assert_eq!(s.state, RecState::CountingDown { n: 3 });
}

#[test]
fn ticks_outside_countdown_are_ignored() {
    let mut s = RecordingSession::new();
    assert!(!s.tick_second());
    assert_eq!(s.state, RecState::Idle);
}

#[test]
fn concat_of_plain_chunks() {
    let chunks = vec![vec![10u8, 20], vec![], vec![30]];
    assert_eq!(concat_chunks(&chunks), vec![10, 20, 30]);
    let none: Vec<Vec<u8>> = Vec::new();
    assert_eq!(concat_chunks(&none), Vec::<u8>::new());
}

#[test]
fn suggested_filename_is_timestamped() {
    let name = overlay_studio::record::suggest_filename(2024, 3, 7, 9, 5);
    assert_eq!(name, b"demo 2024-03-07 09:05.webm".to_vec());
}

#[test]
fn suggested_filename_pads_nothing_needlessly() {
    let name = overlay_studio::record::suggest_filename(999, 12, 31, 23, 59);
    assert_eq!(name, b"demo 0999-12-31 23:59.webm".to_vec());
}
