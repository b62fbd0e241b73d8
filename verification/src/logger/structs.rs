//! The logger and its line format.

use vstd::prelude::*;

use crate::logger::debug::DebugLogging;
use crate::logger::error::ErrorLogging;
use crate::logger::info::InfoLogging;

verus! {

/// Formats log lines for the process to emit.
#[derive(Debug)]
pub struct Logger {}

impl DebugLogging for Logger {
    fn log_debug_string(message: &str) -> (line: String) {
        let mut line = String::from_str("level=debug message=\"");
        line.append(message);
        line.append("\"");
        line
    }
}

impl InfoLogging for Logger {
    fn log_info_string(message: &str) -> (line: String) {
        let mut line = String::from_str("level=info message=\"");
        line.append(message);
        line.append("\"");
        line
    }
}

impl ErrorLogging for Logger {
    fn log_error_string(message: &str) -> (line: String) {
        let mut line = String::from_str("level=error message=\"");
        line.append(message);
        line.append("\"");
        line
    }
}

} // verus!
