//! Error-level lines.

use vstd::prelude::*;

verus! {

/// Renders messages as error-level log lines.
pub trait ErrorLogging {
    /// The log line carrying the message at error level.
    fn log_error_string(message: &str) -> (line: String)
        ensures
            line@ == "level=error message=\""@ + message@ + "\""@,
    ;
}

} // verus!
