//! The runner's launch plan, output reporting and unsubscribe retry.

use rusty_hooks::paths::DirPath;
use rusty_hooks::runner::run::{Runner, ScriptOutput};
use rusty_hooks::scripts::structs::Script;
use rusty_hooks::utilities::cli_args::LogLevel;

fn p(path: &str) -> DirPath {
    let components: Vec<String> = path
        .split('/')
        .filter(|c| !c.is_empty())
        .map(|c| c.to_string())
        .collect();
    DirPath::new(components)
}

fn script(name: &str, delay: u8) -> Script {
    Script {
        event_triggers: vec!["Modify".to_string()],
        file_path: format!("./scripts/{}", name),
        file_name: name.to_string(),
        failed: None,
        run_delay: delay,
        watch_path: "/W".to_string(),
    }
}

/// Every script of a firing is attempted exactly once, in declaration
/// order, against the firing's home dir.
#[test]
fn plan_runs_each_script_once() {
    let scripts = vec![script("a.sh", 0), script("b.sh", 7), script("a.sh", 2)];
    let plan = Runner::launch_plan(&p("/W/a"), &scripts);
    assert_eq!(plan.len(), 3);
    for (i, entry) in plan.iter().enumerate() {
        assert_eq!(entry.script_path, scripts[i].file_path);
        assert!(entry.target_path == p("/W/a"));
        assert_eq!(entry.run_delay, scripts[i].run_delay);
    }
}

/// A delay of zero passes through unchanged: the script starts
/// immediately on firing.
#[test]
fn zero_delay_starts_immediately() {
    let plan = Runner::launch_plan(&p("/W/a"), &vec![script("s.sh", 0)]);
    assert_eq!(plan[0].run_delay, 0);
}

/// A failed script earns the fixed error line and its standard error at
/// error level; a successful one its output lines at debug and the fixed
/// success line at info. Nothing is retried.
#[test]
fn script_failure_is_reported_not_retried() {
    let outputs = vec![
        ScriptOutput { success: false, stdout: String::new(), stderr: "exit 1".to_string() },
        ScriptOutput { success: true, stdout: "done".to_string(), stderr: String::new() },
    ];
    let lines = Runner::log_script_output(&outputs);
    assert_eq!(lines.len(), 4);
    assert_eq!(lines[0].level, LogLevel::Error);
    assert_eq!(lines[0].message, "error with a script");
    assert_eq!(lines[1].level, LogLevel::Error);
    assert_eq!(lines[1].message, "exit 1");
    assert_eq!(lines[2].level, LogLevel::Debug);
    assert_eq!(lines[2].message, "done");
    assert_eq!(lines[3].level, LogLevel::Info);
    assert_eq!(lines[3].message, "script execution successful");
}

/// Standard output is split at line breaks, empty lines dropped, each
/// line its own debug entry.
#[test]
fn stdout_lines_logged_at_debug() {
    let outputs = vec![ScriptOutput {
        success: true,
        stdout: "first\n\nsecond\n".to_string(),
        stderr: String::new(),
    }];
    let lines = Runner::log_script_output(&outputs);
    assert_eq!(lines.len(), 3);
    assert_eq!(lines[0].level, LogLevel::Debug);
    assert_eq!(lines[0].message, "first");
    assert_eq!(lines[1].level, LogLevel::Debug);
    assert_eq!(lines[1].message, "second");
    assert_eq!(lines[2].level, LogLevel::Info);
    assert_eq!(lines[2].message, "script execution successful");
}

/// With a live receiver the unsubscribe goes out at once.
#[test]
fn unsubscribe_delivers_with_receiver() {
    let (tx, mut rx) = tokio::sync::broadcast::channel::<DirPath>(16);
    let r = Runner::rec_unsubscribe(&tx, p("/W/a"), 5);
    assert!(r.is_ok());
    let got = rx.try_recv().unwrap();
    assert!(got == p("/W/a"));
    assert!(rx.try_recv().is_err());
}

/// With no receiver every attempt is refused and the budget runs out.
#[test]
fn unsubscribe_gives_up_without_receiver() {
    let (tx, rx) = tokio::sync::broadcast::channel::<DirPath>(16);
    drop(rx);
    let r = Runner::rec_unsubscribe(&tx, p("/W/a"), 5);
    assert!(r.is_err());
}

/// A spent budget refuses at once.
#[test]
fn unsubscribe_refuses_spent_budget() {
    let (tx, _rx) = tokio::sync::broadcast::channel::<DirPath>(16);
    let r = Runner::rec_unsubscribe(&tx, p("/W/a"), 0);
    assert!(r.is_err());
}
