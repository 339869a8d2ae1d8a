//! A cross-thread coordination core for a windowed client application.
//!
//! The library verifies the state-level behaviour of four cooperating
//! components:
//!
//! * [`signal`] — a generic rendezvous cell: a boolean latch paired with a
//!   payload slot, in manual-reset or auto-reset flavour.
//! * [`registry`] — a process-wide table of named unit signals, used as
//!   rendezvous points between subsystems.
//! * [`event_queue`] — a timestamped FIFO queue of discrete input
//!   occurrences handed from the window thread to the main loop, stamped
//!   against the [`clock`] time base.
//! * [`handshake`] — the three-signal protocol that sequences window
//!   creation between an initiating thread and the thread that owns the OS
//!   event loop.
//!
//! Around these stand the small plain-valued records their callers read:
//! device capability data ([`caps`]), input activation ([`input_state`])
//! and the semaphore-file path ([`paths`]).
//!
//! Every operation is a single atomic state transition with an exact
//! contract.  The blocking shell around these transitions — mutexes,
//! condition variables, OS threads, the OS clock — is ordinary unverified
//! code that takes a lock, applies one verified transition, and releases
//! the lock; nothing in that shell decides anything.

pub mod caps;
pub mod clock;
pub mod event_queue;
pub mod handshake;
pub mod input_state;
pub mod paths;
pub mod registry;
pub mod signal;
