//! The three-signal protocol that sequences window creation across two
//! threads.

use vstd::prelude::*;

use crate::signal::Signal;

verus! {

/// The window-bootstrap handshake: three auto-reset signals that sequence
/// window (and device) creation between the initiating thread and the
/// thread that owns the OS event loop.
///
/// The protocol, with initiating thread I and window thread W:
///
/// 1. I calls [`Handshake::request_window`]: it defensively clears
///    `initializing` and fires `awaiting_init`.
/// 2. I then repeatedly calls [`Handshake::poll_initialized`] until it
///    returns a definitive success-or-failure result, interleaving its own
///    bookkeeping between attempts (a shell that has nothing to interleave
///    may equally block on the `initialized` signal and acknowledge once).
/// 3. W, inside the first tick of its event loop — guaranteed to run before
///    any other window event is delivered — calls
///    [`Handshake::window_side_begin`]: it consumes `awaiting_init` and
///    fires `initializing`.  W then performs all window and device
///    construction, an external collaborator's fallible work.
/// 4. W calls [`Handshake::window_side_finish`] with the construction
///    result: it clears `initializing` and fires `initialized` carrying
///    success or failure.  On failure W still calls it with `false` before
///    abandoning its event loop, so I is never left waiting on a failed
///    attempt.
///
/// Each signal is fired once per handshake run, and `initialized` is fired
/// only at the very end of W's sequence, so I never observes a result
/// before construction has finished.  The handshake does not retry;
/// re-invoking the whole protocol with reduced settings after a failure is
/// the policy of I's caller.
pub struct Handshake {
    /// Fired by the initiating thread to request a window; consumed by the
    /// window thread's first event-loop tick.
    pub awaiting_init: Signal<()>,
    /// Fired while the window thread is constructing the window and device.
    pub initializing: Signal<()>,
    /// Fired once construction has finished; the payload reports success.
    pub initialized: Signal<bool>,
}

impl Handshake {
    /// A handshake at rest: all three signals auto-reset and unsignaled.
    pub open spec fn spec_new() -> Handshake {
        Handshake {
            awaiting_init: Signal { signaled: false, manual_reset: false, payload: () },
            initializing: Signal { signaled: false, manual_reset: false, payload: () },
            initialized: Signal { signaled: false, manual_reset: false, payload: false },
        }
    }

    /// Whether every signal has the protocol's reset mode: all three are
    /// auto-reset, so each firing is consumed by exactly one waiter.
    pub open spec fn wf(self) -> bool {
        &&& !self.awaiting_init.manual_reset
        &&& !self.initializing.manual_reset
        &&& !self.initialized.manual_reset
    }

    /// The state after the initiating thread's request.
    pub open spec fn spec_request_window(self) -> Handshake {
        Handshake {
            awaiting_init: self.awaiting_init.spec_send(()),
            initializing: self.initializing.spec_send_cleared(()),
            initialized: self.initialized,
        }
    }

    /// The state after the window thread's first tick.
    pub open spec fn spec_window_side_begin(self) -> Handshake {
        Handshake {
            awaiting_init: self.awaiting_init.spec_send_cleared(()),
            initializing: self.initializing.spec_send(()),
            initialized: self.initialized,
        }
    }

    /// The state after the window thread reports its construction result.
    pub open spec fn spec_window_side_finish(self, success: bool) -> Handshake {
        Handshake {
            awaiting_init: self.awaiting_init,
            initializing: self.initializing.spec_send_cleared(()),
            initialized: self.initialized.spec_send(success),
        }
    }

    /// The state and result of one poll of `initialized` by the initiating
    /// thread.
    pub open spec fn spec_poll_initialized(self) -> (Handshake, Option<bool>) {
        let (sig, r) = self.initialized.spec_try_acknowledge();
        (
            Handshake {
                awaiting_init: self.awaiting_init,
                initializing: self.initializing,
                initialized: sig,
            },
            r,
        )
    }

    /// A handshake at rest: all three signals auto-reset and unsignaled.
    pub fn new() -> (h: Handshake)
        ensures
            h == Handshake::spec_new(),
            h.wf(),
    {
        Handshake {
            awaiting_init: Signal::new((), false, false),
            initializing: Signal::new((), false, false),
            initialized: Signal::new(false, false, false),
        }
    }

    /// Protocol step 1, on the initiating thread: defensively clears
    /// `initializing` and fires `awaiting_init`, asking the window thread
    /// to create a window.
    pub fn request_window(&mut self)
        ensures
            *final(self) == old(self).spec_request_window(),
    {
        self.initializing.send_cleared(());
        self.awaiting_init.send(());
    }

    /// Protocol step 2, on the initiating thread: one non-blocking attempt
    /// to collect the construction result.  Returns `None` while the window
    /// thread is still working; returns `Some(success)` exactly once after
    /// the window thread has finished, consuming the result.
    pub fn poll_initialized(&mut self) -> (r: Option<bool>)
        ensures
            (*final(self), r) == old(self).spec_poll_initialized(),
    {
        self.initialized.try_acknowledge()
    }

    /// Protocol step 3, on the window thread's first event-loop tick:
    /// consumes `awaiting_init` and fires `initializing`.  Window and device
    /// construction follow this call.
    pub fn window_side_begin(&mut self)
        ensures
            *final(self) == old(self).spec_window_side_begin(),
    {
        self.awaiting_init.send_cleared(());
        self.initializing.send(());
    }

    /// Protocol step 4, on the window thread: clears `initializing`, then
    /// fires `initialized` with the construction result.  On failure the
    /// window thread must still call this with `false` before abandoning
    /// its event loop, so the initiating thread is never left waiting.
    pub fn window_side_finish(&mut self, success: bool)
        ensures
            *final(self) == old(self).spec_window_side_finish(success),
    {
        self.initializing.send_cleared(());
        self.initialized.send(success);
    }
}

/// Handshake ordering and termination: starting from any state whose
/// `initialized` signal is auto-reset and not yet fired, a poll returns no
/// result after the request alone, and none while the window thread is
/// still constructing; once the window thread reports, the next poll
/// returns exactly the reported result — `Some(true)` for a run in which
/// window construction succeeded and `Some(false)` for one in which it
/// failed — and consumes it.  The initiating thread's wait therefore
/// terminates whenever the window thread eventually reports, which step 4
/// of the protocol demands even of failed runs.
pub proof fn lemma_handshake_termination(h: Handshake, success: bool)
    requires
        !h.initialized.signaled,
        !h.initialized.manual_reset,
    ensures
        h.spec_request_window().spec_poll_initialized().1 is None,
        h.spec_request_window().spec_window_side_begin().spec_poll_initialized().1 is None,
        h.spec_request_window().spec_window_side_begin().spec_window_side_finish(
            success,
        ).spec_poll_initialized().1 == Some(success),
        !h.spec_request_window().spec_window_side_begin().spec_window_side_finish(
            success,
        ).spec_poll_initialized().0.initialized.signaled,
{
}

/// Progress of the window-side latches: the request opens `awaiting_init`;
/// the window thread's first tick consumes it and opens `initializing`;
/// reporting the result closes `initializing` again.  At most one of the
/// three signals is in flight at each stage of a run started from rest.
pub proof fn lemma_handshake_stages(h: Handshake, success: bool)
    requires
        h == Handshake::spec_new(),
    ensures
        ({
            let requested = h.spec_request_window();
            let working = requested.spec_window_side_begin();
            let finished = working.spec_window_side_finish(success);
            &&& requested.awaiting_init.signaled
            &&& !requested.initializing.signaled
            &&& !requested.initialized.signaled
            &&& !working.awaiting_init.signaled
            &&& working.initializing.signaled
            &&& !working.initialized.signaled
            &&& !finished.awaiting_init.signaled
            &&& !finished.initializing.signaled
            &&& finished.initialized.signaled
            &&& finished.initialized.payload == success
        }),
{
}

} // verus!
