//! The generic rendezvous cell: a boolean latch paired with a payload slot.

use vstd::prelude::*;

verus! {

/// A synchronizable rendezvous cell combining a boolean "signaled" latch with
/// a payload slot.
///
/// A signal is created with an explicit initial state and reset mode and is
/// mutated by [`Signal::send`], [`Signal::send_cleared`] and the acknowledge
/// family of operations.  Two reset modes exist:
///
/// * **auto-reset** (`manual_reset == false`): a successful consuming wait
///   clears the latch in the same transition that returns the payload, so no
///   second waiter can observe the latch open after one waiter has consumed
///   it;
/// * **manual-reset** (`manual_reset == true`): the latch stays open after a
///   consuming wait until it is explicitly cleared, so any number of waiters
///   observe the same signaled state.
///
/// Every method below is one atomic state transition.  Cross-thread sharing
/// and blocking (a mutex and a condition variable, with waits and wakeups)
/// belong to the unverified shell around the library: the shell holds the
/// lock for exactly one transition at a time, which is what makes the
/// auto-reset "observe and clear" pair a single critical section.
///
/// Payloads are plain copyable values: a consuming wait hands out a copy
/// and the slot keeps the last value, so a timed-out wait can still report
/// it.
pub struct Signal<T> {
    /// Whether the latch is currently open.
    pub signaled: bool,
    /// The reset mode: `true` keeps the latch open across consuming waits,
    /// `false` closes it as part of the first consuming wait.
    pub manual_reset: bool,
    /// The value handed to waiters; it persists until overwritten, so a
    /// timed-out wait can still report the last-known payload.
    pub payload: T,
}

impl<T> Signal<T> {
    /// The state after `send(value)`: the payload is replaced and the latch
    /// opens.
    pub open spec fn spec_send(self, value: T) -> Signal<T> {
        Signal { signaled: true, manual_reset: self.manual_reset, payload: value }
    }

    /// The state after `send_cleared(value)`: the payload is replaced and
    /// the latch is (left or made) closed.
    pub open spec fn spec_send_cleared(self, value: T) -> Signal<T> {
        Signal { signaled: false, manual_reset: self.manual_reset, payload: value }
    }

    /// The state and result of one consuming poll: if the latch is open the
    /// payload is returned and an auto-reset latch closes; otherwise nothing
    /// changes and nothing is returned.
    pub open spec fn spec_try_acknowledge(self) -> (Signal<T>, Option<T>) {
        if self.signaled {
            (
                Signal {
                    signaled: self.manual_reset,
                    manual_reset: self.manual_reset,
                    payload: self.payload,
                },
                Some(self.payload),
            )
        } else {
            (self, None)
        }
    }
}

impl<T: Copy> Signal<T> {
    /// Creates a signal with the given payload, initial latch state and reset
    /// mode.
    pub fn new(initial_payload: T, initial_signaled: bool, manual_reset: bool) -> (s: Signal<T>)
        ensures
            s == (Signal { signaled: initial_signaled, manual_reset, payload: initial_payload }),
    {
        Signal { signaled: initial_signaled, manual_reset, payload: initial_payload }
    }

    /// Sets the payload and opens the latch.  Never fails; the signal
    /// persists until consumed or overwritten, so a send with no waiter is
    /// not lost.
    pub fn send(&mut self, value: T)
        ensures
            *final(self) == old(self).spec_send(value),
    {
        self.payload = value;
        self.signaled = true;
    }

    /// Sets the payload while leaving the latch closed — used to update the
    /// payload, or to defensively reset the latch, without waking waiters.
    pub fn send_cleared(&mut self, value: T)
        ensures
            *final(self) == old(self).spec_send_cleared(value),
    {
        self.payload = value;
        self.signaled = false;
    }

    /// Non-blocking consuming poll: returns `Some(payload)` only if the
    /// latch is currently open, closing it in the same transition when the
    /// signal is auto-reset; returns `None` and changes nothing otherwise.
    pub fn try_acknowledge(&mut self) -> (r: Option<T>)
        ensures
            (*final(self), r) == old(self).spec_try_acknowledge(),
    {
        if self.signaled {
            if !self.manual_reset {
                self.signaled = false;
            }
            Some(self.payload)
        } else {
            None
        }
    }

    /// The completing step of a blocking wait: consumes an open latch and
    /// returns the payload.  A blocking `acknowledge` suspends the calling
    /// thread until the latch opens and then performs exactly this
    /// transition; the wait itself lives in the unverified shell, so this
    /// step requires the latch to be open already.
    pub fn acknowledge(&mut self) -> (r: T)
        requires
            old(self).signaled,
        ensures
            (*final(self), Some(r)) == old(self).spec_try_acknowledge(),
            r == old(self).payload,
    {
        if !self.manual_reset {
            self.signaled = false;
        }
        self.payload
    }

    /// The completing step of a bounded wait: returns the payload whether
    /// or not the latch is open, consuming the latch (if auto-reset) exactly
    /// when it was open.  A duration of zero is a valid non-blocking poll;
    /// for a positive bound the suspension up to `timeout_ms` milliseconds
    /// happens in the unverified shell before this transition runs, so the
    /// bound does not influence the transition itself.
    #[allow(unused_variables)]
    pub fn acknowledge_timeout(&mut self, timeout_ms: usize) -> (r: T)
        ensures
            *final(self) == old(self).spec_try_acknowledge().0,
            r == old(self).payload,
    {
        if self.signaled && !self.manual_reset {
            self.signaled = false;
        }
        self.payload
    }

    /// Non-blocking, non-consuming observation of the latch.
    pub fn signaled(&self) -> (r: bool)
        ensures
            r == self.signaled,
    {
        self.signaled
    }
}

/// Auto-reset exclusivity: after exactly one `send` of an auto-reset signal,
/// the first consuming wait returns the payload and closes the latch, so
/// every further consuming wait finds the latch closed and returns nothing.
/// Two concurrent waiters perform these two transitions in some order under
/// the shell's lock, hence exactly one of them consumes the event.
pub proof fn lemma_auto_reset_exclusive<T>(s: Signal<T>, v: T)
    requires
        !s.manual_reset,
    ensures
        s.spec_send(v).spec_try_acknowledge().1 == Some(v),
        !s.spec_send(v).spec_try_acknowledge().0.signaled,
        s.spec_send(v).spec_try_acknowledge().0.spec_try_acknowledge().1 is None,
        s.spec_send(v).spec_try_acknowledge().0.spec_try_acknowledge().0
            == s.spec_send(v).spec_try_acknowledge().0,
{
}

/// The number of consuming waits performed in sequence from `s`, tracking
/// only the state; used to state broadcast behaviour for every number of
/// waiters.
pub open spec fn after_acknowledges<T>(s: Signal<T>, n: nat) -> Signal<T>
    decreases n,
{
    if n == 0 {
        s
    } else {
        after_acknowledges(s, (n - 1) as nat).spec_try_acknowledge().0
    }
}

/// Manual-reset broadcast: after one `send` of a manual-reset signal, any
/// number of consuming waits leave the state unchanged, and each of them
/// returns the sent payload immediately — until an explicit clear
/// (`send_cleared`) closes the latch.
pub proof fn lemma_manual_reset_broadcast<T>(s: Signal<T>, v: T, n: nat)
    requires
        s.manual_reset,
    ensures
        after_acknowledges(s.spec_send(v), n) == s.spec_send(v),
        n > 0 ==> after_acknowledges(s.spec_send(v), (n - 1) as nat).spec_try_acknowledge().1
            == Some(v),
    decreases n,
{
    if n > 0 {
        lemma_manual_reset_broadcast(s, v, (n - 1) as nat);
    }
}

} // verus!
