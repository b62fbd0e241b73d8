//! The script descriptors of the remote-index variant.

use vstd::prelude::*;

verus! {

/// One script hook of the remote-index variant: which event kinds fire
/// it, and which file runs.
#[derive(Debug, Clone, Default)]
pub struct ScriptSchema {
    /// The names of the event kinds that fire the script.
    pub event_triggers: Vec<String>,
    /// The bare file name of the executable.
    pub file_name: String,
    /// Whether a run has failed; unset until a run is attempted.
    pub failed: Option<bool>,
}

} // verus!
