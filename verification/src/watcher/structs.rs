//! The two stage owners of one watched root.

use vstd::prelude::*;

use crate::paths::DirPath;
use crate::scripts::structs::Script;
use std::collections::HashMap;

verus! {

/// A home dir's registry key: the fingerprint of its path.
pub type PathHash = u64;

/// What the registry holds for one home dir: the path itself and the
/// scripts bound to it when it first entered.
pub type SpawnMessage = (DirPath, Vec<Script>);

/// Watches one root and decides, event by event, which home dirs to
/// subscribe. The tasks and channels that drive it live in the process
/// around the library.
#[derive(Debug)]
pub struct Watcher {}

/// Tracks the home dirs currently being debounced. The process around the
/// library guards it with a mutex and runs one debounce task per entry.
#[derive(Debug)]
pub struct PathSubscriber {
    /// The home dirs currently subscribed, by path fingerprint, each with
    /// the scripts bound at first sight.
    pub paths: HashMap<PathHash, SpawnMessage>,
}

} // verus!
