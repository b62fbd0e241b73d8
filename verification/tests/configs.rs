//! Settings from raw environment values, and the number parsing under
//! them.

use rusty_hooks::syncthing::configs::Configs as SyncthingConfigs;
use rusty_hooks::syncthing::configs::ConfigError as SyncthingConfigError;
use rusty_hooks::text::{parse_u16, parse_u64, parse_u8};
use rusty_hooks::watcher::configs::{ConfigError, Configs};

/// Absent variables fall back to the defaults.
#[test]
fn watcher_configs_defaults() {
    let c = Configs::load(None, None).unwrap();
    assert_eq!(c.script_delay, 1);
    assert_eq!(c.scripts_path, "user_scripts/");
}

/// Given values are taken as they are.
#[test]
fn watcher_configs_explicit_values() {
    let c = Configs::load(Some("30".to_string()), Some("hooks/".to_string())).unwrap();
    assert_eq!(c.script_delay, 30);
    assert_eq!(c.scripts_path, "hooks/");
}

/// A delay that is no number within range is refused.
#[test]
fn watcher_configs_refuse_bad_delay() {
    assert!(matches!(
        Configs::load(Some("fast".to_string()), None),
        Err(ConfigError::ParseIntError(_))
    ));
    assert!(matches!(
        Configs::load(Some("256".to_string()), None),
        Err(ConfigError::ParseIntError(_))
    ));
}

/// The access key is required; everything else has a default.
#[test]
fn syncthing_configs_defaults() {
    let c = SyncthingConfigs::load(Some("SECRET-REDACTED".to_string()), None, None, None, None, None)
        .unwrap();
    assert_eq!(c.auth_key, "SECRET-REDACTED");
    assert_eq!(c.port, 8384);
    assert_eq!(c.address, "http://127.0.0.1");
    assert_eq!(c.request_interval, 60);
    assert_eq!(c.script_delay, 1);
    assert_eq!(c.scripts_path, "../scripts");
}

/// Without the access key the settings are refused.
#[test]
fn syncthing_configs_require_auth_key() {
    let r = SyncthingConfigs::load(None, None, None, None, None, None);
    assert!(matches!(r, Err(SyncthingConfigError::MissingError(_))));
}

/// A port out of range is refused.
#[test]
fn syncthing_configs_refuse_bad_port() {
    let r = SyncthingConfigs::load(
        Some("k".to_string()),
        Some("70000".to_string()),
        None,
        None,
        None,
        None,
    );
    assert!(matches!(r, Err(SyncthingConfigError::ParseIntError(_))));
}

/// Decimal parsing takes exactly the written number, within range.
#[test]
fn decimal_parsing_edges() {
    assert_eq!(parse_u8("0"), Some(0));
    assert_eq!(parse_u8("255"), Some(255));
    assert_eq!(parse_u8("256"), None);
    assert_eq!(parse_u8("+7"), Some(7));
    assert_eq!(parse_u8("007"), Some(7));
    assert_eq!(parse_u8(""), None);
    assert_eq!(parse_u8("+"), None);
    assert_eq!(parse_u8("-1"), None);
    assert_eq!(parse_u8("1a"), None);
    assert_eq!(parse_u16("65535"), Some(65535));
    assert_eq!(parse_u16("65536"), None);
    assert_eq!(parse_u64("18446744073709551615"), Some(u64::MAX));
    assert_eq!(parse_u64("18446744073709551616"), None);
    assert_eq!(parse_u64("99999999999999999999999999"), None);
}
