//! The event filter: which notifications count, and where their home
//! dirs fall.

use rusty_hooks::events::{
    event_kind_key, AccessKind, CreateKind, EventKind, FsEvent, ModifyKind, RenameMode,
};
use rusty_hooks::paths::DirPath;
use rusty_hooks::watcher::structs::Watcher;

fn p(path: &str) -> DirPath {
    let components: Vec<String> = path
        .split('/')
        .filter(|c| !c.is_empty())
        .map(|c| c.to_string())
        .collect();
    DirPath::new(components)
}

fn ev(kind: EventKind, paths: &[&str]) -> FsEvent {
    FsEvent { kind, paths: paths.iter().map(|s| p(s)).collect() }
}

/// Only the rename-to completion passes the filter; a plain modify or any
/// other kind is ignored, so no firing and no subscribe follow.
#[test]
fn ignored_kinds() {
    let rename_to = EventKind::Modify(ModifyKind::Name(RenameMode::To));
    assert!(!Watcher::ignore(&ev(rename_to, &["/W/a/f"])));
    assert!(Watcher::ignore(&ev(EventKind::Modify(ModifyKind::Data), &["/W/a/f"])));
    assert!(Watcher::ignore(&ev(EventKind::Modify(ModifyKind::Name(RenameMode::From)), &["/W/a/f"])));
    assert!(Watcher::ignore(&ev(EventKind::Create(CreateKind::File), &["/W/a/f"])));
    assert!(Watcher::ignore(&ev(EventKind::Access(AccessKind::Any), &["/W/a/f"])));
    assert!(Watcher::ignore(&ev(EventKind::Other, &["/W/a/f"])));
    assert!(Watcher::ignore(&ev(EventKind::Any, &["/W/a/f"])));
}

/// Touches under the same home dir collapse to one entry.
#[test]
fn burst_collapses_to_one_home_dir() {
    let kind = EventKind::Modify(ModifyKind::Name(RenameMode::To));
    let event = ev(kind, &["/W/a/f1", "/W/a/f2"]);
    let homes = Watcher::get_unique_event_home_dirs(&event, &p("/W"));
    assert_eq!(homes.len(), 1);
    assert!(homes[0] == p("/W/a"));
}

/// Touches under different children of the root keep separate home dirs.
#[test]
fn disjoint_dirs_stay_separate() {
    let kind = EventKind::Modify(ModifyKind::Name(RenameMode::To));
    let event = ev(kind, &["/W/a/x", "/W/b/y"]);
    let homes = Watcher::get_unique_event_home_dirs(&event, &p("/W"));
    assert_eq!(homes.len(), 2);
    assert!(homes.iter().any(|h| *h == p("/W/a")));
    assert!(homes.iter().any(|h| *h == p("/W/b")));
}

/// An event whose touched paths have no ancestor inside the root
/// contributes nothing.
#[test]
fn event_outside_root_is_dropped() {
    let kind = EventKind::Modify(ModifyKind::Name(RenameMode::To));
    let event = ev(kind, &["/X/y/z", "/W"]);
    let homes = Watcher::get_unique_event_home_dirs(&event, &p("/W"));
    assert_eq!(homes.len(), 0);
}

/// Every kind tag gets its own numeric code.
#[test]
fn kind_codes_are_distinct() {
    let kinds = [
        EventKind::Any,
        EventKind::Access(AccessKind::Any),
        EventKind::Access(AccessKind::Read),
        EventKind::Create(CreateKind::Any),
        EventKind::Modify(ModifyKind::Any),
        EventKind::Modify(ModifyKind::Data),
        EventKind::Modify(ModifyKind::Name(RenameMode::To)),
        EventKind::Modify(ModifyKind::Name(RenameMode::From)),
        EventKind::Remove(rusty_hooks::events::RemoveKind::Any),
        EventKind::Other,
    ];
    for i in 0..kinds.len() {
        for j in 0..kinds.len() {
            if i != j {
                assert_ne!(event_kind_key(&kinds[i]), event_kind_key(&kinds[j]));
            }
        }
    }
}
