//! One firing end to end, at the model level: a rename-to touch under the
//! watched root travels the real channels through the filter, the
//! registry, the debounce timer, the launch plan and the unsubscribe.

use rusty_hooks::events::{EventKind, FsEvent, ModifyKind, RenameMode};
use rusty_hooks::paths::DirPath;
use rusty_hooks::runner::run::Runner;
use rusty_hooks::scripts::load::cache_scripts_by_events;
use rusty_hooks::scripts::structs::{Script, Scripts};
use rusty_hooks::utilities::timer::Timer;
use rusty_hooks::watcher::path_subscriber::RouteAction;
use rusty_hooks::watcher::structs::{PathSubscriber, SpawnMessage, Watcher};

fn p(path: &str) -> DirPath {
    let components: Vec<String> = path
        .split('/')
        .filter(|c| !c.is_empty())
        .map(|c| c.to_string())
        .collect();
    DirPath::new(components)
}

/// A single touch fires once: one subscription with the right scripts, one
/// debounce, one launch of the script against the home dir, one
/// unsubscribe, and an empty registry at the end.
#[test]
fn single_file_touch_fires_once() {
    let script = Script {
        event_triggers: vec!["Modify".to_string()],
        file_path: "./scripts/s.sh".to_string(),
        file_name: "s.sh".to_string(),
        failed: None,
        run_delay: 0,
        watch_path: "/W".to_string(),
    };
    let scripts = Scripts {
        scripts_by_event_triggers: cache_scripts_by_events(&vec![script]),
        watch_paths: vec!["/W".to_string()],
    };

    // the touch arrives and passes the filter into a subscription message
    let (subscribe_tx, mut subscribe_rx) = tokio::sync::broadcast::channel::<SpawnMessage>(16);
    let touch = FsEvent {
        kind: EventKind::Modify(ModifyKind::Name(RenameMode::To)),
        paths: vec![p("/W/a/f.txt")],
    };
    let errs = Watcher::decide_to_subscribe(&touch, &p("/W"), &subscribe_tx, &scripts);
    assert!(errs.is_empty());
    let (home, bound) = subscribe_rx.try_recv().unwrap();
    assert!(home == p("/W/a"));
    assert_eq!(bound.len(), 1);
    assert_eq!(bound[0].file_name, "s.sh");
    assert!(subscribe_rx.try_recv().is_err());

    // the control loop registers the home dir and starts one debounce
    let mut subscriber = PathSubscriber::new();
    let mut errors: i32 = 0;
    let action = subscriber.route_step(Ok((home.clone(), bound.clone())), &mut errors);
    assert_eq!(action, RouteAction::SpawnDebounce);

    // a quiet window passes and the debounce fires
    let timer = Timer::new(1, 0);
    assert!(!timer.time_to_break(500));
    assert!(timer.time_to_break(1_000));

    // the firing launches the script once, immediately, on the home dir
    let plan = Runner::launch_plan(&home, &bound);
    assert_eq!(plan.len(), 1);
    assert_eq!(plan[0].script_path, "./scripts/s.sh");
    assert!(plan[0].target_path == p("/W/a"));
    assert_eq!(plan[0].run_delay, 0);

    // exactly one unsubscribe is delivered and clears the registry
    let (unsub_tx, mut unsub_rx) = tokio::sync::broadcast::channel::<DirPath>(16);
    assert!(Runner::rec_unsubscribe(&unsub_tx, home.clone(), 5).is_ok());
    let unsub_path = unsub_rx.try_recv().unwrap();
    assert!(unsub_rx.try_recv().is_err());
    assert_eq!(subscriber.unsubscribe_step(&unsub_path, &p("/W")).unwrap(), true);
    assert!(!subscriber.contains(home.path_hasher()));
}

/// A kind no script listens to subscribes nothing: the empty script set
/// is skipped before the channel is touched.
#[test]
fn empty_script_set_subscribes_nothing() {
    let scripts = Scripts {
        scripts_by_event_triggers: cache_scripts_by_events(&Vec::new()),
        watch_paths: vec!["/W".to_string()],
    };
    let (subscribe_tx, mut subscribe_rx) = tokio::sync::broadcast::channel::<SpawnMessage>(16);
    let touch = FsEvent {
        kind: EventKind::Modify(ModifyKind::Name(RenameMode::To)),
        paths: vec![p("/W/a/f")],
    };
    let errs = Watcher::decide_to_subscribe(&touch, &p("/W"), &subscribe_tx, &scripts);
    assert!(errs.is_empty());
    assert!(subscribe_rx.try_recv().is_err());
}

/// An ignored kind produces no subscription at all.
#[test]
fn plain_modify_subscribes_nothing() {
    let scripts = Scripts {
        scripts_by_event_triggers: cache_scripts_by_events(&Vec::new()),
        watch_paths: vec!["/W".to_string()],
    };
    let (subscribe_tx, mut subscribe_rx) = tokio::sync::broadcast::channel::<SpawnMessage>(16);
    let touch = FsEvent { kind: EventKind::Modify(ModifyKind::Data), paths: vec![p("/W/a/f")] };
    let errs = Watcher::decide_to_subscribe(&touch, &p("/W"), &subscribe_tx, &scripts);
    assert!(errs.is_empty());
    assert!(subscribe_rx.try_recv().is_err());
}
