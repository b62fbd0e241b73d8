//! The debounce timer against an explicit clock.

use rusty_hooks::utilities::timer::Timer;

/// Pushing the reset instant an hour ahead keeps the timer from breaking.
#[test]
fn waits_longer_from_concurrent_controller_updates() {
    let now: u64 = 1_000;
    let mut timer = Timer::new(0, now);
    let one_hour_from_now = now + 3_600_000;
    timer.reset(one_hour_from_now);
    assert_eq!(timer.time_to_break(now), false);
}

/// The reset instant can be rewritten while the timer runs.
#[test]
fn can_handle_controller_updates() {
    let now: u64 = 5_000;
    let mut timer = Timer::new(1, now);
    timer.reset(now);
}

/// After more than the window has passed, the wait is over.
#[test]
fn breaks_when_it_should() {
    let timer = Timer::new(1, 0);
    assert_eq!(timer.time_to_break(1_001), true);
}

/// Before the window has passed, the wait goes on.
#[test]
fn doesnt_break_when_it_should() {
    let timer = Timer::new(2, 0);
    assert_eq!(timer.time_to_break(0), false);
}

/// Polling every half second, the wait ends only once at least the window
/// has passed.
#[test]
fn waits_long_enough() {
    let before: u64 = 0;
    let timer = Timer::new(2, before);
    let mut now: u64 = before;
    while !timer.time_to_break(now) {
        now += 500;
    }
    let duration_since_before_waiting = now - before;
    let has_been_long_enough = duration_since_before_waiting >= 1_000;
    assert_eq!(has_been_long_enough, true);
}

/// An overlapping event extends the deadline to its own instant plus the
/// window, never shortening it.
#[test]
fn reset_extends_deadline() {
    let mut timer = Timer::new(10, 0);
    assert!(!timer.time_to_break(9_999));
    assert!(timer.time_to_break(10_000));
    timer.reset(4_000);
    assert!(!timer.time_to_break(10_000));
    assert!(!timer.time_to_break(13_999));
    assert!(timer.time_to_break(14_000));
}

/// With no reset for a full window, the timer reports expiry at the
/// deadline and ever after.
#[test]
fn quiet_window_expires() {
    let timer = Timer::new(1, 2_000);
    assert!(!timer.time_to_break(2_999));
    assert!(timer.time_to_break(3_000));
    assert!(timer.time_to_break(100_000));
}
