//! The timestamped FIFO queue of discrete input occurrences.

use vstd::prelude::*;

use crate::clock::{milliseconds, spec_elapsed, Clock};

verus! {

/// The kind of a queued occurrence.  Key and pointer occurrences carry the
/// device scancode as a plain integer together with the press/release (or
/// repeat) flag; console occurrences request the console window.
#[derive(Clone, Copy, Debug, PartialEq, Eq)]
pub enum EventType {
    /// A placeholder occurrence carrying no input.
    Blank,
    /// A keyboard occurrence: scancode and whether the key went down.
    Key(u32, bool),
    /// A pointer occurrence: scancode and whether the button went down.
    Mouse(u32, bool),
    /// A request to bring up the console.
    Console,
}

/// One discrete, timestamped occurrence handed from the window thread's
/// event loop to the main loop.  The timestamp counts milliseconds since the
/// process epoch and is metadata only — it never reorders the queue.  A
/// timestamp of zero means "unset": the queue stamps such an occurrence with
/// the current clock reading when it is enqueued.
#[derive(Clone, Debug, PartialEq, Eq)]
pub struct Event {
    /// Milliseconds since the process epoch; zero when not yet stamped.
    pub time: isize,
    /// What happened.
    pub event_type: EventType,
    /// Auxiliary bytes; empty for most kinds.
    pub data: Vec<u8>,
}

impl Event {
    /// Builds an occurrence; a missing time is the "unset" sentinel zero and
    /// missing auxiliary data is empty.
    pub fn new(time: Option<isize>, event_type: EventType, data: Option<Vec<u8>>) -> (e: Event)
        ensures
            e.time == time.unwrap_or(0isize),
            e.event_type == event_type,
            e.data@ == (match data {
                Some(d) => d@,
                None => Seq::<u8>::empty(),
            }),
    {
        let d = match data {
            Some(d) => d,
            None => Vec::new(),
        };
        Event { time: time.unwrap_or(0), event_type, data: d }
    }
}

/// `e` as it enters the queue when the clock reads `t`: an occurrence with
/// an unset timestamp is stamped with `t`, one already stamped is kept
/// unchanged.
pub open spec fn spec_stamp(e: Event, t: isize) -> Event {
    if e.time == 0 {
        Event { time: t, event_type: e.event_type, data: e.data }
    } else {
        e
    }
}

/// The buffer between the producing window thread and the consuming main
/// loop.  Occurrences are appended at the tail and drained from the head in
/// strict insertion order; the view is the sequence of queued occurrences,
/// oldest first.  The shell shares one queue across threads behind its own
/// lock, so each operation here is one critical section.
pub struct EventQueue {
    items: Vec<Event>,
}

impl View for EventQueue {
    type V = Seq<Event>;

    closed spec fn view(&self) -> Seq<Event> {
        self.items@
    }
}

impl EventQueue {
    /// An empty queue.
    pub fn new() -> (q: EventQueue)
        ensures
            q@ == Seq::<Event>::empty(),
    {
        EventQueue { items: Vec::new() }
    }

    /// How many occurrences are pending.
    pub fn len(&self) -> (n: usize)
        ensures
            n == self@.len(),
    {
        self.items.len()
    }

    /// Atomically removes and returns every queued occurrence, preserving
    /// insertion order; draining an empty queue returns an empty sequence.
    pub fn drain_all(&mut self) -> (drained: Vec<Event>)
        ensures
            drained@ == old(self)@,
            final(self)@ == Seq::<Event>::empty(),
    {
        let mut drained: Vec<Event> = Vec::new();
        core::mem::swap(&mut drained, &mut self.items);
        drained
    }
}

/// Appends `event` at the tail of `queue`, stamping an unset timestamp with
/// the current clock reading.  `now_unix_ms` is the raw wall-clock reading
/// taken by the caller immediately before the call; handing it in keeps the
/// stamping decision verified for every possible reading.
pub fn enqueue_event(queue: &mut EventQueue, clock: &mut Clock, now_unix_ms: u64, event: Event)
    ensures
        final(queue)@ == old(queue)@.push(
            spec_stamp(event, spec_elapsed(final(clock).base_unix_ms, now_unix_ms)),
        ),
        event.time == 0 ==> final(clock).base_acquired && final(clock).base_unix_ms == (
        if old(clock).base_acquired {
            old(clock).base_unix_ms
        } else {
            now_unix_ms
        }),
        event.time != 0 ==> *final(clock) == *old(clock),
{
    let mut event = event;
    if event.time == 0 {
        event.time = milliseconds(clock, now_unix_ms);
    }
    queue.items.push(event);
}

/// Queue FIFO law: enqueuing `a`, `b`, `c` in that order (with timestamps
/// already set, so stamping keeps them unchanged) extends the queue by
/// exactly `[a, b, c]` in that order, a drain hands the whole extended
/// sequence back, and a second immediate drain hands back the empty
/// sequence.  The stamp arguments are arbitrary: a set timestamp ignores
/// them.
pub proof fn lemma_queue_fifo(q0: Seq<Event>, a: Event, b: Event, c: Event, t1: isize, t2: isize, t3: isize)
    requires
        a.time != 0,
        b.time != 0,
        c.time != 0,
    ensures
        q0.push(spec_stamp(a, t1)).push(spec_stamp(b, t2)).push(spec_stamp(c, t3)) == q0 + seq![a, b, c],
{
    assert(q0.push(a).push(b).push(c) =~= q0 + seq![a, b, c]);
}

/// Timestamp defaulting law: an occurrence enqueued with an unset timestamp
/// is stamped with the elapsed-time report of the reading taken at enqueue
/// time, which lies between the reports of any raw reading taken before the
/// call and any taken after it.
pub proof fn lemma_timestamp_defaulting(
    base: u64,
    read_before: u64,
    read_at: u64,
    read_after: u64,
    e: Event,
)
    requires
        e.time == 0,
        read_before <= read_at,
        read_at <= read_after,
    ensures
        spec_stamp(e, spec_elapsed(base, read_at)).time == spec_elapsed(base, read_at),
        spec_elapsed(base, read_before) <= spec_stamp(e, spec_elapsed(base, read_at)).time,
        spec_stamp(e, spec_elapsed(base, read_at)).time <= spec_elapsed(base, read_after),
{
    crate::clock::lemma_elapsed_monotone(base, read_before, read_at);
    crate::clock::lemma_elapsed_monotone(base, read_at, read_after);
}

} // verus!
