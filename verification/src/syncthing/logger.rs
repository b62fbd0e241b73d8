//! The remote-index variant's logging surface: log lines as text, for the
//! process to emit.

use vstd::prelude::*;

verus! {

/// Formats log lines for the process to emit.
#[derive(Debug)]
pub struct Logger {}

/// Renders messages as info-level log lines.
pub trait InfoLogging {
    /// The log line carrying the message at info level.
    fn log_info_string(message: &String) -> (line: String)
        ensures
            line@ == "level=info message=\""@ + message@ + "\""@,
    ;
}

/// Renders messages as debug-level log lines.
pub trait DebugLogging {
    /// The log line carrying the message at debug level.
    fn log_debug_string(message: &String) -> (line: String)
        ensures
            line@ == "level=debug message=\""@ + message@ + "\""@,
    ;
}

/// Renders messages as error-level log lines.
pub trait ErrorLogging {
    /// The log line carrying the message at error level.
    fn log_error_string(message: &String) -> (line: String)
        ensures
            line@ == "level=error message=\""@ + message@ + "\""@,
    ;
}

impl InfoLogging for Logger {
    fn log_info_string(message: &String) -> (line: String) {
        let mut line = String::from_str("level=info message=\"");
        line.append(message.as_str());
        line.append("\"");
        line
    }
}

impl DebugLogging for Logger {
    fn log_debug_string(message: &String) -> (line: String) {
        let mut line = String::from_str("level=debug message=\"");
        line.append(message.as_str());
        line.append("\"");
        line
    }
}

impl ErrorLogging for Logger {
    fn log_error_string(message: &String) -> (line: String) {
        let mut line = String::from_str("level=error message=\"");
        line.append(message.as_str());
        line.append("\"");
        line
    }
}

} // verus!
