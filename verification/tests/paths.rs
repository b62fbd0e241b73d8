//! The path model: home dirs, ancestry and fingerprints.

use rusty_hooks::errors::PathError;
use rusty_hooks::paths::{
    get_parent_dir_of_file, hasher, path_contains_subdir, walk_up_to_event_home_dir, DirPath,
};

fn p(path: &str) -> DirPath {
    let components: Vec<String> = path
        .split('/')
        .filter(|c| !c.is_empty())
        .map(|c| c.to_string())
        .collect();
    DirPath::new(components)
}

/// A nested file's home dir is the direct child of the root above it.
#[test]
fn home_dir_of_nested_path() {
    let home = walk_up_to_event_home_dir(&p("/home/user/script_1/very/very/very/nested"), &p("/home/user")).unwrap();
    assert!(home == p("/home/user/script_1"));
}

/// A direct child of the root is its own home dir.
#[test]
fn home_dir_of_direct_child() {
    let home = walk_up_to_event_home_dir(&p("/W/a"), &p("/W")).unwrap();
    assert!(home == p("/W/a"));
}

/// An event at the watched root itself has no home dir and is dropped.
#[test]
fn root_itself_has_no_home_dir() {
    let r = walk_up_to_event_home_dir(&p("/W"), &p("/W"));
    assert!(matches!(r, Err(PathError::TraversalError)));
}

/// A path outside the watched root has no home dir and is dropped.
#[test]
fn path_outside_root_has_no_home_dir() {
    let r = walk_up_to_event_home_dir(&p("/X/y/z"), &p("/W"));
    assert!(matches!(r, Err(PathError::TraversalError)));
}

/// Ancestry includes the path itself and excludes siblings.
#[test]
fn ancestry() {
    assert!(path_contains_subdir(&p("/W"), &p("/W/a/f")));
    assert!(path_contains_subdir(&p("/W/a"), &p("/W/a")));
    assert!(!path_contains_subdir(&p("/W/a"), &p("/W/b/f")));
    assert!(!path_contains_subdir(&p("/W/a/f"), &p("/W/a")));
}

/// A file's parent dir drops the file name; a non-file has none.
#[test]
fn parent_dir_of_file() {
    let parent = get_parent_dir_of_file(&p("/W/a/f.txt"), true).unwrap();
    assert!(parent == p("/W/a"));
    assert!(get_parent_dir_of_file(&p("/W/a"), false).is_none());
}

/// The string fingerprint folds characters the Fowler–Noll–Vo way.
#[test]
fn hasher_folds_fnv() {
    assert_eq!(hasher(&String::new()), 0xcbf29ce484222325);
    let expected = (0xcbf29ce484222325u64 ^ 'a' as u64).wrapping_mul(0x100000001b3);
    assert_eq!(hasher(&"a".to_string()), expected);
}

/// Different paths get different fingerprints.
#[test]
fn path_hasher_distinguishes() {
    let a = p("/W/a").path_hasher();
    let b = p("/W/b").path_hasher();
    let a2 = p("/W/a").path_hasher();
    assert_ne!(a, b);
    assert_eq!(a, a2);
}

/// Component paths compare by their text.
#[test]
fn dir_path_equality() {
    assert!(p("/W/a") == p("/W/a"));
    assert!(p("/W/a") != p("/W/b"));
    assert!(p("/W/a") != p("/W/a/b"));
}
