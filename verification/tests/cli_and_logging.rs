//! The command-line surface, directory-listing helpers, text helpers and
//! log lines.

use rusty_hooks::logger::debug::DebugLogging;
use rusty_hooks::logger::error::ErrorLogging;
use rusty_hooks::logger::info::InfoLogging;
use rusty_hooks::logger::structs::Logger;
use rusty_hooks::text::{eq_ignore_ascii_case, str_eq};
use rusty_hooks::utilities::cli_args::{CommandLineArgs, LogLevel};
use rusty_hooks::utilities::files::{
    build_path, dir_contains_file_type, extension_matches, format_unvalidated_path,
    get_first_of_file_type,
};

/// The configuration file is the first yml entry, under the folder.
#[test]
fn config_path_picks_first_yml() {
    let args = CommandLineArgs { log_level: LogLevel::Debug, script_folder: "scripts".to_string() };
    let listing = vec!["run.sh".to_string(), "a.yml".to_string(), "b.yml".to_string()];
    let path = args.get_config_path(&listing).unwrap();
    assert_eq!(path, "scripts/a.yml");
}

/// A folder without a yml entry is refused.
#[test]
fn config_path_requires_yml() {
    let args = CommandLineArgs { log_level: LogLevel::Error, script_folder: "scripts".to_string() };
    let listing = vec!["run.sh".to_string(), "notes.txt".to_string()];
    assert!(args.get_config_path(&listing).is_err());
}

/// Extensions hang off the last dot, never the leading one.
#[test]
fn extensions() {
    assert!(extension_matches("a.yml", "yml"));
    assert!(extension_matches("a.tar.yml", "yml"));
    assert!(!extension_matches("a.tar.gz", "yml"));
    assert!(!extension_matches(".yml", "yml"));
    assert!(!extension_matches("yml", "yml"));
    assert!(dir_contains_file_type(&vec!["x.yml".to_string()], &"yml".to_string()));
    assert!(!dir_contains_file_type(&vec![".yml".to_string()], &"yml".to_string()));
    assert_eq!(
        get_first_of_file_type(&vec!["a.txt".to_string(), "b.yml".to_string()], &"yml".to_string()),
        Some("b.yml".to_string())
    );
}

/// Segments join with slashes, or glue together bare for diagnostics.
#[test]
fn joining_segments() {
    assert_eq!(build_path(&vec!["scripts".to_string(), "s.sh".to_string()]), "scripts/s.sh");
    assert_eq!(build_path(&Vec::new()), "");
    assert_eq!(
        format_unvalidated_path(&vec!["./".to_string(), "scripts".to_string()]),
        "./scripts"
    );
}

/// Text comparison is exact, or blind to ascii case where asked.
#[test]
fn text_comparison() {
    assert!(str_eq("Modify", "Modify"));
    assert!(!str_eq("Modify", "modify"));
    assert!(eq_ignore_ascii_case("S.SH", "s.sh"));
    assert!(!eq_ignore_ascii_case("s.sh", "t.sh"));
}

/// Log lines carry the level and the quoted message.
#[test]
fn log_lines() {
    assert_eq!(Logger::log_debug_string("x"), "level=debug message=\"x\"");
    assert_eq!(Logger::log_info_string("x"), "level=info message=\"x\"");
    assert_eq!(Logger::log_error_string("x"), "level=error message=\"x\"");
}

/// The log file follows the operating system.
#[test]
fn log_path_by_os() {
    assert_eq!(
        Logger::log_path_if_linux_or_mac("linux", "/home/u"),
        Some("/var/log/rusty-hooks.log".to_string())
    );
    assert_eq!(
        Logger::log_path_if_linux_or_mac("mac", "/Users/u"),
        Some("/Users/u/Library/rusty-hooks/logs/rusty-hooks.log".to_string())
    );
    assert_eq!(Logger::log_path_if_linux_or_mac("windows", "C:"), None);
}
