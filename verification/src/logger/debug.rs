//! Debug-level lines.

use vstd::prelude::*;

verus! {

/// Renders messages as debug-level log lines.
pub trait DebugLogging {
    /// The log line carrying the message at debug level.
    fn log_debug_string(message: &str) -> (line: String)
        ensures
            line@ == "level=debug message=\""@ + message@ + "\""@,
    ;
}

} // verus!
