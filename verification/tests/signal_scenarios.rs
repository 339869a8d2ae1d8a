use smp_core::signal::Signal;

/// One send of an auto-reset signal is consumed by exactly one waiter: the
/// first consuming poll returns the payload, every later one finds the latch
/// closed.
#[test]
fn auto_reset_is_consumed_exactly_once() {
    let mut s: Signal<i32> = Signal::new(0, false, false);
    s.send(7);
    assert_eq!(s.try_acknowledge(), Some(7));
    assert_eq!(s.try_acknowledge(), None);
    assert_eq!(s.try_acknowledge(), None);
}

/// A manual-reset signal broadcasts: after one send, any number of
/// consuming polls return the payload and the latch stays open until an
/// explicit clear.
#[test]
fn manual_reset_broadcasts_until_cleared() {
    let mut s: Signal<i32> = Signal::new(0, false, true);
    s.send(9);
    for _ in 0..5 {
        assert_eq!(s.try_acknowledge(), Some(9));
        assert!(s.signaled());
    }
    s.send_cleared(9);
    assert_eq!(s.try_acknowledge(), None);
    assert!(!s.signaled());
}

/// A waiter woken by a send of 42 on an auto-reset signal acknowledges 42,
/// and any later consuming poll from any other party finds nothing.
#[test]
fn acknowledge_returns_sent_payload_and_consumes() {
    let mut s: Signal<i32> = Signal::new(0, false, false);
    s.send(42);
    assert_eq!(s.acknowledge(), 42);
    assert_eq!(s.try_acknowledge(), None);
}

/// `send_cleared` updates the payload while leaving the latch closed; a
/// timed-out bounded wait still reports that last-known payload.
#[test]
fn send_cleared_updates_payload_without_opening_the_latch() {
    let mut s: Signal<i32> = Signal::new(1, false, false);
    s.send_cleared(5);
    assert!(!s.signaled());
    assert_eq!(s.acknowledge_timeout(0), 5);
    assert!(!s.signaled());
}

/// A bounded wait that finds the latch open consumes an auto-reset signal in
/// the same step that returns the payload.
#[test]
fn acknowledge_timeout_consumes_auto_reset_when_fired() {
    let mut s: Signal<u8> = Signal::new(0, false, false);
    s.send(3);
    assert_eq!(s.acknowledge_timeout(10), 3);
    assert!(!s.signaled());

    let mut m: Signal<u8> = Signal::new(0, false, true);
    m.send(4);
    assert_eq!(m.acknowledge_timeout(10), 4);
    assert!(m.signaled());
}

/// `signaled` observes without consuming, in either reset mode.
#[test]
fn signaled_observation_does_not_consume() {
    let mut s: Signal<i32> = Signal::new(0, true, false);
    assert!(s.signaled());
    assert!(s.signaled());
    assert_eq!(s.try_acknowledge(), Some(0));

    let initially_clear: Signal<i32> = Signal::new(0, false, true);
    assert!(!initially_clear.signaled());
}
