//! The subscription registry and the debounce decisions.

use rusty_hooks::errors::{EventError, RecvErrorKind, SubscriptionError, ThreadError};
use rusty_hooks::events::{EventKind, FsEvent, ModifyKind, RenameMode};
use rusty_hooks::paths::DirPath;
use rusty_hooks::utilities::timer::Timer;
use rusty_hooks::watcher::event_loop::DebounceAction;
use rusty_hooks::watcher::path_subscriber::RouteAction;
use rusty_hooks::watcher::structs::PathSubscriber;

fn p(path: &str) -> DirPath {
    let components: Vec<String> = path
        .split('/')
        .filter(|c| !c.is_empty())
        .map(|c| c.to_string())
        .collect();
    DirPath::new(components)
}

fn rename_to(paths: &[&str]) -> FsEvent {
    FsEvent {
        kind: EventKind::Modify(ModifyKind::Name(RenameMode::To)),
        paths: paths.iter().map(|s| p(s)).collect(),
    }
}

/// The first subscription of a home dir is entered; a repeat is dropped.
#[test]
fn registry_enters_each_home_dir_once() {
    let mut subscriber = PathSubscriber::new();
    assert!(subscriber.lock_and_update_paths(p("/W/a"), Vec::new()));
    assert!(!subscriber.lock_and_update_paths(p("/W/a"), Vec::new()));
    assert!(subscriber.lock_and_update_paths(p("/W/b"), Vec::new()));
}

/// Sending the same subscription many times during an active debounce
/// spawns exactly one debounce task.
#[test]
fn repeated_subscribe_spawns_once() {
    let mut subscriber = PathSubscriber::new();
    let mut errors: i32 = 0;
    let mut spawns: u32 = 0;
    for _ in 0..5 {
        let action = subscriber.route_step(Ok((p("/W/a"), Vec::new())), &mut errors);
        if action == RouteAction::SpawnDebounce {
            spawns += 1;
        } else {
            assert_eq!(action, RouteAction::AlreadyTracked);
        }
    }
    assert_eq!(spawns, 1);
}

/// Unsubscribing removes the entry; a second try misses.
#[test]
fn unsubscribe_removes_entry() {
    let mut subscriber = PathSubscriber::new();
    subscriber.lock_and_update_paths(p("/W/a"), Vec::new());
    assert!(subscriber.unsubscribe(&p("/W/a")).is_ok());
    let r = subscriber.unsubscribe(&p("/W/a"));
    assert!(matches!(r, Err(SubscriptionError::UnsubscribeError(_))));
}

/// An unsubscribe message for a path outside this watcher's root is
/// passed over; one under it removes the entry.
#[test]
fn unsubscribe_step_filters_by_root() {
    let mut subscriber = PathSubscriber::new();
    subscriber.lock_and_update_paths(p("/W/a"), Vec::new());
    assert_eq!(subscriber.unsubscribe_step(&p("/V/a"), &p("/W")).unwrap(), false);
    assert_eq!(subscriber.unsubscribe_step(&p("/W/a"), &p("/W")).unwrap(), true);
}

/// Receive failures are forgiven five times in a row; the sixth is fatal.
/// A good message resets the count.
#[test]
fn route_step_counts_consecutive_errors() {
    let mut subscriber = PathSubscriber::new();
    let mut errors: i32 = 0;
    for _ in 0..5 {
        let action = subscriber.route_step(
            Err(ThreadError::RecvError(RecvErrorKind::Closed)),
            &mut errors,
        );
        assert_eq!(action, RouteAction::Skip);
    }
    let action = subscriber.route_step(
        Err(ThreadError::RecvError(RecvErrorKind::Closed)),
        &mut errors,
    );
    assert_eq!(action, RouteAction::Fatal);

    let mut errors: i32 = 4;
    let action = subscriber.route_step(Ok((p("/W/c"), Vec::new())), &mut errors);
    assert_eq!(action, RouteAction::SpawnDebounce);
    assert_eq!(errors, 0);
}

/// Checking a good event keeps the failure count; a bad one raises it.
#[test]
fn validate_event_subscription_counts() {
    let event = rename_to(&["/W/a/f"]);
    let r = PathSubscriber::validate_event_subscription(Ok(event), 2);
    let (_, n) = r.unwrap();
    assert_eq!(n, 2);
    let r = PathSubscriber::validate_event_subscription(
        Err(EventError::NotifyError("gone".to_string())),
        2,
    );
    let (e, n) = r.err().unwrap();
    assert!(matches!(e, SubscriptionError::EventError(_)));
    assert_eq!(n, 3);
}

/// An event touching a path under the home dir overlaps it; a sibling
/// does not.
#[test]
fn overlap_by_ancestor_fingerprint() {
    let home_hash = p("/W/a").path_hasher();
    assert!(PathSubscriber::paths_overlap(&rename_to(&["/W/a/deep/f"]), home_hash));
    assert!(PathSubscriber::paths_overlap(&rename_to(&["/W/a"]), home_hash));
    assert!(!PathSubscriber::paths_overlap(&rename_to(&["/W/b/f"]), home_hash));
}

/// A burst of overlapping touches keeps pushing the deadline out; the
/// debounce fires only a full window after the last of them.
#[test]
fn burst_coalesces_into_one_deadline() {
    let home_hash = p("/W/a").path_hasher();
    let mut timer = Timer::new(2, 0);
    let mut errors: i32 = 0;

    let action = PathSubscriber::event_loop_step(
        &mut timer,
        Ok(rename_to(&["/W/a/f1"])),
        home_hash,
        &mut errors,
        0,
    );
    assert_eq!(action, DebounceAction::Continue);
    let action = PathSubscriber::event_loop_step(
        &mut timer,
        Ok(rename_to(&["/W/a/f2"])),
        home_hash,
        &mut errors,
        1_000,
    );
    assert_eq!(action, DebounceAction::Continue);
    assert!(!timer.time_to_break(2_000));
    assert!(!timer.time_to_break(2_999));
    assert!(timer.time_to_break(3_000));
}

/// An event elsewhere leaves the deadline alone.
#[test]
fn unrelated_event_leaves_timer() {
    let home_hash = p("/W/a").path_hasher();
    let mut timer = Timer::new(2, 0);
    let mut errors: i32 = 0;
    PathSubscriber::event_loop_step(
        &mut timer,
        Ok(rename_to(&["/W/b/f"])),
        home_hash,
        &mut errors,
        1_500,
    );
    assert!(timer.time_to_break(2_000));
}

/// The debounce task forgives five receive failures in a row and aborts
/// on the sixth.
#[test]
fn event_loop_aborts_after_six_failures() {
    let home_hash = p("/W/a").path_hasher();
    let mut timer = Timer::new(2, 0);
    let mut errors: i32 = 0;
    for _ in 0..5 {
        let action = PathSubscriber::event_loop_step(
            &mut timer,
            Err(EventError::NotifyError("lost".to_string())),
            home_hash,
            &mut errors,
            0,
        );
        assert_eq!(action, DebounceAction::Continue);
    }
    let action = PathSubscriber::event_loop_step(
        &mut timer,
        Err(EventError::NotifyError("lost".to_string())),
        home_hash,
        &mut errors,
        0,
    );
    assert_eq!(action, DebounceAction::Fatal);
}
