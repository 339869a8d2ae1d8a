use smp_core::handshake::Handshake;

/// A run in which window construction succeeds: the initiating thread's
/// polling terminates with `true`, exactly once.
#[test]
fn successful_run_terminates_with_true() {
    let mut h = Handshake::new();
    h.request_window();
    assert_eq!(h.poll_initialized(), None);
    h.window_side_begin();
    assert_eq!(h.poll_initialized(), None);
    h.window_side_finish(true);
    assert_eq!(h.poll_initialized(), Some(true));
    assert_eq!(h.poll_initialized(), None);
}

/// A run in which window construction fails: the window thread still
/// reports, and the initiating thread terminates with `false` instead of
/// waiting forever.
#[test]
fn failed_run_terminates_with_false() {
    let mut h = Handshake::new();
    h.request_window();
    h.window_side_begin();
    h.window_side_finish(false);
    assert_eq!(h.poll_initialized(), Some(false));
}

/// The latches open and close in protocol order: the request raises
/// `awaiting_init`, the window thread's first tick hands it over to
/// `initializing`, and the report hands over to `initialized`.
#[test]
fn latches_follow_protocol_order() {
    let mut h = Handshake::new();
    assert!(!h.awaiting_init.signaled);
    assert!(!h.initializing.signaled);
    assert!(!h.initialized.signaled);

    h.request_window();
    assert!(h.awaiting_init.signaled);
    assert!(!h.initializing.signaled);
    assert!(!h.initialized.signaled);

    h.window_side_begin();
    assert!(!h.awaiting_init.signaled);
    assert!(h.initializing.signaled);
    assert!(!h.initialized.signaled);

    h.window_side_finish(true);
    assert!(!h.awaiting_init.signaled);
    assert!(!h.initializing.signaled);
    assert!(h.initialized.signaled);
    assert!(h.initialized.payload);
}

/// A fresh handshake polls to nothing: no stale result can be observed
/// before a run reports.
#[test]
fn fresh_handshake_has_no_result() {
    let mut h = Handshake::new();
    assert_eq!(h.poll_initialized(), None);
}

/// Re-invoking the whole protocol after a failure (the caller's retry
/// policy) yields a fresh, correct result.
#[test]
fn protocol_can_be_rerun_after_failure() {
    let mut h = Handshake::new();
    h.request_window();
    h.window_side_begin();
    h.window_side_finish(false);
    assert_eq!(h.poll_initialized(), Some(false));

    h.request_window();
    h.window_side_begin();
    h.window_side_finish(true);
    assert_eq!(h.poll_initialized(), Some(true));
}
