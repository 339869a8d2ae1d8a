//! The millisecond time base that stamps queued occurrences.

use vstd::prelude::*;

verus! {

/// The process time base: the first reading of the wall clock is latched and
/// every later reading is reported relative to it, so timestamps count
/// milliseconds since the process epoch.
///
/// The clock itself is an external collaborator: the shell reads the OS
/// clock and hands the raw reading (milliseconds since the Unix epoch) to
/// [`milliseconds`] as a plain integer, which keeps the whole time-base
/// computation verified for every possible reading.
pub struct Clock {
    /// The latched raw reading that serves as the process epoch.
    pub base_unix_ms: u64,
    /// Whether a first reading has been latched yet.
    pub base_acquired: bool,
}

/// Milliseconds elapsed from `base` to `now`, clamped into `isize`: a
/// reading older than the base (the wall clock stepped backwards) reports
/// zero rather than a negative age, and a span too wide for `isize` reports
/// the largest representable span.
pub open spec fn spec_elapsed(base: u64, now: u64) -> isize {
    if now < base {
        0isize
    } else if now - base > isize::MAX {
        isize::MAX
    } else {
        (now - base) as isize
    }
}

impl Clock {
    /// A fresh time base; the first reading handed to [`milliseconds`]
    /// becomes the process epoch.
    pub fn new() -> (c: Clock)
        ensures
            c == (Clock { base_unix_ms: 0u64, base_acquired: false }),
    {
        Clock { base_unix_ms: 0, base_acquired: false }
    }
}

/// Reports `now_unix_ms` relative to the process epoch, latching the epoch
/// on the first call.  `now_unix_ms` is the current raw wall-clock reading
/// in milliseconds since the Unix epoch, taken by the caller immediately
/// before the call.
pub fn milliseconds(clock: &mut Clock, now_unix_ms: u64) -> (t: isize)
    ensures
        final(clock).base_acquired,
        final(clock).base_unix_ms == if old(clock).base_acquired {
            old(clock).base_unix_ms
        } else {
            now_unix_ms
        },
        t == spec_elapsed(final(clock).base_unix_ms, now_unix_ms),
        t >= 0,
{
    if !clock.base_acquired {
        clock.base_unix_ms = now_unix_ms;
        clock.base_acquired = true;
    }
    let base = clock.base_unix_ms;
    if now_unix_ms < base {
        0
    } else {
        let diff = now_unix_ms - base;
        if diff > isize::MAX as u64 {
            isize::MAX
        } else {
            diff as isize
        }
    }
}

/// For a fixed epoch, the elapsed-time report never decreases as the raw
/// reading advances; together with the clamping bounds this pins a stamped
/// timestamp between the reports of any reading taken before and any taken
/// after.
pub proof fn lemma_elapsed_monotone(base: u64, earlier: u64, later: u64)
    requires
        earlier <= later,
    ensures
        spec_elapsed(base, earlier) <= spec_elapsed(base, later),
{
}

} // verus!
