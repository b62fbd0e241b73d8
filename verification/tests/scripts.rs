//! Loading, validating and filing scripts by trigger kind.

use rusty_hooks::errors::{ScriptConfigError, ScriptError};
use rusty_hooks::events::{AccessKind, EventKind, ModifyKind, RenameMode};
use rusty_hooks::scripts::load::cache_scripts_by_events;
use rusty_hooks::scripts::structs::{Script, ScriptBlock, Scripts};

fn script(name: &str, triggers: &[&str], watch: &str, delay: u8) -> Script {
    Script {
        event_triggers: triggers.iter().map(|t| t.to_string()).collect(),
        file_path: format!("./scripts/{}", name),
        file_name: name.to_string(),
        failed: None,
        run_delay: delay,
        watch_path: watch.to_string(),
    }
}

fn block(name: &str, triggers: &[&str], watch: &str, enabled: bool) -> ScriptBlock {
    ScriptBlock {
        name: name.to_string(),
        description: String::new(),
        file_name: name.to_string(),
        watch_path: watch.to_string(),
        enabled,
        run_delay: 0,
        event_triggers: triggers.iter().map(|t| t.to_string()).collect(),
        dependencies: Vec::new(),
    }
}

/// The cache files each script under the kind of each of its trigger
/// words, keeping declaration order.
#[test]
fn cache_files_by_trigger() {
    let files = vec![
        script("a.sh", &["Modify"], "/W", 0),
        script("b.sh", &["Modify", "Create"], "/W", 3),
    ];
    let cache = cache_scripts_by_events(&files);
    let scripts = Scripts { scripts_by_event_triggers: cache, watch_paths: vec!["/W".to_string()] };
    let modify = scripts.get_by_event(&EventKind::Modify(ModifyKind::Name(RenameMode::To)));
    assert_eq!(modify.len(), 2);
    assert_eq!(modify[0].file_name, "a.sh");
    assert_eq!(modify[1].file_name, "b.sh");
    let create = scripts.get_by_event(&EventKind::Create(rusty_hooks::events::CreateKind::Any));
    assert_eq!(create.len(), 1);
    assert_eq!(create[0].file_name, "b.sh");
    let access = scripts.get_by_event(&EventKind::Access(AccessKind::Any));
    assert_eq!(access.len(), 0);
}

/// A later script whose file name repeats an earlier one, in any ascii
/// case, is dropped from that kind.
#[test]
fn cache_drops_repeated_names() {
    let files = vec![
        script("S.sh", &["Modify"], "/W", 0),
        script("s.sh", &["Modify"], "/W", 1),
    ];
    let cache = cache_scripts_by_events(&files);
    let scripts = Scripts { scripts_by_event_triggers: cache, watch_paths: Vec::new() };
    let modify = scripts.get_by_event(&EventKind::Modify(ModifyKind::Name(RenameMode::To)));
    assert_eq!(modify.len(), 1);
    assert_eq!(modify[0].file_name, "S.sh");
}

/// An unknown trigger word files nothing.
#[test]
fn cache_skips_unknown_triggers() {
    let files = vec![script("a.sh", &["Sideways"], "/W", 0)];
    let cache = cache_scripts_by_events(&files);
    assert!(cache.is_empty());
}

/// A block loads into a descriptor whose executable is resolved against
/// the script folder.
#[test]
fn block_loads_into_script() {
    let s = Script::from_block(&block("s.sh", &["Modify"], "/W", true), "/etc/hooks");
    assert_eq!(s.file_path, "/etc/hooks/s.sh");
    assert_eq!(s.file_name, "s.sh");
    assert_eq!(s.failed, None);
    assert_eq!(s.watch_path, "/W");
}

/// Validation accepts a configuration whose executables all exist and
/// which touches the given root.
#[test]
fn validate_accepts_complete_configuration() {
    let listing = vec!["s.sh".to_string(), "t.sh".to_string()];
    let blocks = vec![block("s.sh", &["Modify"], "/W", true), block("t.sh", &["Create"], "/V", true)];
    let v = Scripts::validate_scripts(&"/W".to_string(), blocks, &"scripts".to_string(), &listing)
        .unwrap();
    assert_eq!(v.len(), 2);
    assert_eq!(v[0].file_name, "s.sh");
    assert_eq!(v[0].file_path, "scripts/s.sh");
}

/// A configuration in which no present executable names the root is
/// refused.
#[test]
fn validate_refuses_unmatched_watch_path() {
    let listing = vec!["s.sh".to_string()];
    let blocks = vec![block("s.sh", &["Modify"], "/V", true)];
    let r = Scripts::validate_scripts(&"/W".to_string(), blocks, &"scripts".to_string(), &listing);
    assert!(matches!(r, Err(ScriptConfigError::IoError(_))));
}

/// A configuration naming an executable the directory does not hold is
/// refused.
#[test]
fn validate_refuses_missing_executable() {
    let listing = vec!["s.sh".to_string()];
    let blocks = vec![block("s.sh", &["Modify"], "/W", true), block("gone.sh", &["Modify"], "/W", true)];
    let r = Scripts::validate_scripts(&"/W".to_string(), blocks, &"scripts".to_string(), &listing);
    assert!(matches!(r, Err(ScriptConfigError::IoError(_))));
}

/// Loading one root keeps every configured root and files only this
/// root's scripts.
#[test]
fn by_watch_path_splits_roots() {
    let listing = vec!["s.sh".to_string(), "t.sh".to_string()];
    let blocks = vec![block("s.sh", &["Modify"], "/W", true), block("t.sh", &["Modify"], "/V", true)];
    let s = Scripts::by_watch_path(&"/W".to_string(), blocks, &"scripts".to_string(), &listing)
        .unwrap();
    assert_eq!(s.watch_paths, vec!["/W".to_string(), "/V".to_string()]);
    let modify = s.get_by_event(&EventKind::Modify(ModifyKind::Name(RenameMode::To)));
    assert_eq!(modify.len(), 1);
    assert_eq!(modify[0].file_name, "s.sh");
}

/// The enabled roots come back in order; a disabled block's root is
/// passed over.
#[test]
fn all_watch_paths_keeps_enabled_roots() {
    let blocks = vec![
        block("s.sh", &["Modify"], "/W", true),
        block("t.sh", &["Modify"], "/V", false),
        block("u.sh", &["Modify"], "/U", true),
    ];
    let ok = vec![true, false, true];
    let v = Scripts::all_watch_paths(&blocks, &ok).unwrap();
    assert_eq!(v, vec!["/W".to_string(), "/U".to_string()]);
}

/// An enabled block whose root is no usable directory refuses the whole
/// configuration.
#[test]
fn all_watch_paths_refuses_bad_root() {
    let blocks = vec![block("s.sh", &["Modify"], "/W", true)];
    let ok = vec![false];
    let r = Scripts::all_watch_paths(&blocks, &ok);
    assert!(matches!(r, Err(ScriptError::ConfigError(_))));
}
