use smp_core::clock::{milliseconds, Clock};
use smp_core::event_queue::{enqueue_event, Event, EventQueue, EventType};

fn key_event(time: isize, code: u32) -> Event {
    Event::new(Some(time), EventType::Key(code, true), None)
}

/// FIFO: three enqueues drain as exactly those three occurrences in
/// insertion order, and a second immediate drain yields nothing.
#[test]
fn drain_preserves_insertion_order() {
    let mut q = EventQueue::new();
    let mut clock = Clock::new();
    let a = key_event(1, 10);
    let b = key_event(2, 20);
    let c = key_event(3, 30);
    enqueue_event(&mut q, &mut clock, 5_000, a.clone());
    enqueue_event(&mut q, &mut clock, 5_001, b.clone());
    enqueue_event(&mut q, &mut clock, 5_002, c.clone());

    let drained = q.drain_all();
    assert_eq!(drained, vec![a, b, c]);
    assert_eq!(q.drain_all(), Vec::<Event>::new());
}

/// Timestamps are metadata, not a sort key: occurrences stay in insertion
/// order even when their timestamps decrease.
#[test]
fn timestamps_do_not_reorder_the_queue() {
    let mut q = EventQueue::new();
    let mut clock = Clock::new();
    let late = key_event(900, 1);
    let early = key_event(100, 2);
    enqueue_event(&mut q, &mut clock, 1_000, late.clone());
    enqueue_event(&mut q, &mut clock, 1_001, early.clone());
    assert_eq!(q.drain_all(), vec![late, early]);
}

/// An unset (zero) timestamp is stamped with the clock reading at enqueue
/// time, which lies between the readings taken just before and just after.
#[test]
fn unset_timestamp_is_stamped_between_neighbouring_readings() {
    let mut q = EventQueue::new();
    let mut clock = Clock::new();
    // Latch the process epoch at raw reading 1_000.
    assert_eq!(milliseconds(&mut clock, 1_000), 0);

    let before = milliseconds(&mut clock, 1_400);
    enqueue_event(
        &mut q,
        &mut clock,
        1_500,
        Event::new(None, EventType::Console, None),
    );
    let after = milliseconds(&mut clock, 1_600);

    let drained = q.drain_all();
    assert_eq!(drained.len(), 1);
    assert_eq!(drained[0].time, 500);
    assert!(before <= drained[0].time);
    assert!(drained[0].time <= after);
}

/// A timestamp the producer already set is kept unchanged.
#[test]
fn set_timestamps_are_kept() {
    let mut q = EventQueue::new();
    let mut clock = Clock::new();
    enqueue_event(&mut q, &mut clock, 77_000, key_event(7, 3));
    let drained = q.drain_all();
    assert_eq!(drained[0].time, 7);
}

#[test]
fn event_new_defaults_missing_fields() {
    let e = Event::new(None, EventType::Blank, None);
    assert_eq!(e.time, 0);
    assert_eq!(e.event_type, EventType::Blank);
    assert!(e.data.is_empty());

    let f = Event::new(Some(12), EventType::Mouse(4, false), Some(vec![1, 2, 3]));
    assert_eq!(f.time, 12);
    assert_eq!(f.event_type, EventType::Mouse(4, false));
    assert_eq!(f.data, vec![1, 2, 3]);
}

#[test]
fn draining_an_empty_queue_is_safe() {
    let mut q = EventQueue::new();
    assert_eq!(q.len(), 0);
    assert!(q.drain_all().is_empty());
    assert!(q.drain_all().is_empty());
}
