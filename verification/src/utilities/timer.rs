//! The resettable debounce deadline.
//!
//! A timer is a window and the instant of the last reset, both in
//! milliseconds. The task that polls it passes the clock reading in, so
//! expiry is a function of the state and the reading alone; the sleeping
//! between polls stays with the process around the library.

use vstd::prelude::*;

verus! {

/// The widest debounce window the timer accepts, in seconds; its
/// millisecond form must fit in a `u64`.
pub const MAX_WINDOW_SECS: u64 = 0xffffffffffffffff / 1000;

/// A resettable deadline: a debounce window and the last reset instant.
#[derive(Debug, Clone, Copy)]
pub struct Timer {
    /// The pair protected by the controller in the running process: the
    /// window in milliseconds, then the last reset instant in milliseconds.
    pub controller: (u64, u64),
}

/// The instant at which the timer expires unless reset again.
pub open spec fn deadline(t: Timer) -> int {
    t.controller.1 + t.controller.0
}

/// Whether the timer has expired at the given clock reading: the window
/// has fully passed since the last reset.
pub open spec fn timer_expired(t: Timer, now_ms: u64) -> bool {
    deadline(t) <= now_ms
}

/// The timer after a reset at the given instant.
pub open spec fn reset_spec(t: Timer, now_ms: u64) -> Timer {
    Timer { controller: (t.controller.0, now_ms) }
}

impl Timer {
    /// A timer whose window is the given number of seconds, last reset at
    /// the given instant.
    pub fn new(wait_duration: u64, now_ms: u64) -> (t: Self)
        requires
            wait_duration <= MAX_WINDOW_SECS,
        ensures
            t.controller.0 == wait_duration * 1000,
            t.controller.1 == now_ms,
    {
        Timer { controller: (wait_duration * 1000, now_ms) }
    }

    /// Whether the wait is over at the given clock reading.
    pub fn time_to_break(&self, now_ms: u64) -> (r: bool)
        ensures
            r == timer_expired(*self, now_ms),
    {
        if now_ms < self.controller.1 {
            false
        } else {
            now_ms - self.controller.1 >= self.controller.0
        }
    }

    /// Starts the window over from the given instant.
    pub fn reset(&mut self, now_ms: u64)
        ensures
            *final(self) == reset_spec(*old(self), now_ms),
    {
        self.controller.1 = now_ms;
    }
}

/// Resetting at or after the last reset never shortens the deadline: each
/// overlapping event pushes the deadline out to its own instant plus the
/// window.
pub proof fn lemma_reset_extends_deadline(t: Timer, now_ms: u64)
    requires
        t.controller.1 <= now_ms,
    ensures
        deadline(reset_spec(t, now_ms)) == now_ms + t.controller.0,
        deadline(reset_spec(t, now_ms)) >= deadline(t),
{
}

/// Once a full window has passed since the last reset with no further
/// reset, the timer reports expiry at every reading from the deadline on.
pub proof fn lemma_quiet_window_expires(t: Timer, now_ms: u64)
    requires
        now_ms >= deadline(t),
    ensures
        timer_expired(t, now_ms),
{
}

/// Polling every half second catches the deadline promptly: the first
/// poll that sees an expired timer lies less than one poll step past the
/// deadline, so a quiet window ends the debounce within the window plus
/// the polling granularity.
pub proof fn lemma_poll_catches_deadline(t: Timer, quiet_poll: u64, next_poll: u64)
    requires
        !timer_expired(t, quiet_poll),
        next_poll <= quiet_poll + 500,
        deadline(t) <= next_poll,
    ensures
        timer_expired(t, next_poll),
        next_poll < deadline(t) + 500,
{
}

/// Expiry is monotone in the clock: once expired, a timer stays expired
/// until reset.
pub proof fn lemma_expiry_monotone(t: Timer, n1: u64, n2: u64)
    requires
        timer_expired(t, n1),
        n1 <= n2,
    ensures
        timer_expired(t, n2),
{
}

} // verus!
