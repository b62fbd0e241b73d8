//! Info-level lines.

use vstd::prelude::*;

verus! {

/// Renders messages as info-level log lines.
pub trait InfoLogging {
    /// The log line carrying the message at info level.
    fn log_info_string(message: &str) -> (line: String)
        ensures
            line@ == "level=info message=\""@ + message@ + "\""@,
    ;
}

} // verus!
