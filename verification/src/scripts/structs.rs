//! Script descriptors.
//!
//! A `Script` is the loaded, immutable description of one user hook: where
//! its executable lives, which watch root it belongs to, which event kinds
//! fire it, and how long each firing waits before starting it. The raw
//! shapes read from configuration (`ScriptJSON`, `ScriptBlock`,
//! `ScriptYAML`) are converted into `Script` at load time.

use vstd::prelude::*;

use crate::events::EventKind;
use crate::paths::clone_string_vec;
use std::collections::HashMap;

verus! {

/// The mathematical shape of a script descriptor.
pub struct ScriptV {
    /// The names of the event kinds that fire the script.
    pub event_triggers: Seq<Seq<char>>,
    /// The path of the executable.
    pub file_path: Seq<char>,
    /// The bare file name of the executable.
    pub file_name: Seq<char>,
    /// Whether a run has failed; unset until a run is attempted.
    pub failed: Option<bool>,
    /// Seconds to wait before starting the script on a firing.
    pub run_delay: u8,
    /// The watch root the script belongs to.
    pub watch_path: Seq<char>,
}

/// An executable hook bound to a watch root.
#[derive(Debug)]
pub struct Script {
    /// The names of the event kinds that fire the script.
    pub event_triggers: Vec<String>,
    /// The path of the executable.
    pub file_path: String,
    /// The bare file name of the executable.
    pub file_name: String,
    /// Whether a run has failed; unset until a run is attempted.
    pub failed: Option<bool>,
    /// Seconds to wait before starting the script on a firing.
    pub run_delay: u8,
    /// The watch root the script belongs to.
    pub watch_path: String,
}

impl View for Script {
    type V = ScriptV;

    open spec fn view(&self) -> ScriptV {
        ScriptV {
            event_triggers: self.event_triggers@.map_values(|s: String| s@),
            file_path: self.file_path@,
            file_name: self.file_name@,
            failed: self.failed,
            run_delay: self.run_delay,
            watch_path: self.watch_path@,
        }
    }
}

impl Clone for Script {
    fn clone(&self) -> (r: Self)
        ensures
            r@ == self@,
    {
        Script {
            event_triggers: clone_string_vec(&self.event_triggers),
            file_path: self.file_path.clone(),
            file_name: self.file_name.clone(),
            failed: self.failed,
            run_delay: self.run_delay,
            watch_path: self.watch_path.clone(),
        }
    }
}

/// The view of a sequence of scripts.
pub open spec fn scripts_view(v: Seq<Script>) -> Seq<ScriptV> {
    v.map_values(|s: Script| s@)
}

/// Clones a vector of scripts; the copy describes the same scripts.
pub fn clone_script_vec(v: &Vec<Script>) -> (r: Vec<Script>)
    ensures
        scripts_view(r@) == scripts_view(v@),
{
    let mut r: Vec<Script> = Vec::new();
    let n: usize = v.len();
    let mut i: usize = 0;
    while i < n
        invariant
            i <= n,
            n == v@.len(),
            r@.len() == i,
            forall|j: int| 0 <= j < i ==> r@[j]@ == v@[j]@,
        decreases n - i,
    {
        r.push(v[i].clone());
        i = i + 1;
    }
    proof {
        assert(scripts_view(r@) =~= scripts_view(v@));
    }
    r
}

/// The scripts of one watch root, filed under the numeric code of the
/// event kind that fires them.
pub type ScriptsByEventTrigger = HashMap<u64, Vec<Script>>;

/// The loaded script set of one watch root.
#[derive(Debug)]
pub struct Scripts {
    /// The scripts, filed by the code of their triggering kind.
    pub scripts_by_event_triggers: ScriptsByEventTrigger,
    /// Every watch root named by the validated configuration.
    pub watch_paths: Vec<String>,
}

/// The legacy flat descriptor read from json configuration.
#[derive(Debug)]
pub struct ScriptJSON {
    /// Whether the script takes part at all.
    pub enabled: bool,
    /// The names of the event kinds that fire the script.
    pub event_triggers: Vec<String>,
    /// The bare file name of the executable.
    pub file_name: String,
    /// The watch root the script belongs to.
    pub watch_path: String,
    /// Seconds to wait before starting the script on a firing.
    pub run_delay: u8,
}

/// One block of the yaml configuration.
#[derive(Debug, Clone)]
pub struct ScriptBlock {
    /// A short name for the hook.
    pub name: String,
    /// What the hook is for.
    pub description: String,
    /// The bare file name of the executable.
    pub file_name: String,
    /// The watch root the script belongs to.
    pub watch_path: String,
    /// Whether the script takes part at all.
    pub enabled: bool,
    /// Seconds to wait before starting the script on a firing.
    pub run_delay: u8,
    /// The names of the event kinds that fire the script.
    pub event_triggers: Vec<String>,
    /// Names of other hooks this one depends on.
    pub dependencies: Vec<Option<String>>,
}

/// The whole yaml configuration.
#[derive(Debug)]
pub struct ScriptYAML {
    /// The configured hooks.
    pub scripts: Vec<ScriptBlock>,
}

/// The mathematical shape of a configuration block.
pub struct ScriptBlockV {
    /// A short name for the hook.
    pub name: Seq<char>,
    /// What the hook is for.
    pub description: Seq<char>,
    /// The bare file name of the executable.
    pub file_name: Seq<char>,
    /// The watch root the script belongs to.
    pub watch_path: Seq<char>,
    /// Whether the script takes part at all.
    pub enabled: bool,
    /// Seconds to wait before starting the script on a firing.
    pub run_delay: u8,
    /// The names of the event kinds that fire the script.
    pub event_triggers: Seq<Seq<char>>,
    /// Names of other hooks this one depends on.
    pub dependencies: Seq<Option<Seq<char>>>,
}

impl View for ScriptBlock {
    type V = ScriptBlockV;

    open spec fn view(&self) -> ScriptBlockV {
        ScriptBlockV {
            name: self.name@,
            description: self.description@,
            file_name: self.file_name@,
            watch_path: self.watch_path@,
            enabled: self.enabled,
            run_delay: self.run_delay,
            event_triggers: self.event_triggers@.map_values(|s: String| s@),
            dependencies: self.dependencies@.map_values(
                |o: Option<String>|
                    match o {
                        Some(s) => Some(s@),
                        None => None,
                    },
            ),
        }
    }
}

/// The view of a sequence of configuration blocks.
pub open spec fn blocks_view(v: Seq<ScriptBlock>) -> Seq<ScriptBlockV> {
    v.map_values(|b: ScriptBlock| b@)
}

/// The descriptor a whole block loads into, its executable resolved
/// against the script folder.
pub open spec fn loaded_script(folder: Seq<char>, b: ScriptBlockV) -> ScriptV {
    script_of_block(folder, b.event_triggers, b.file_name, b.run_delay, b.watch_path)
}

/// The descriptor a configuration block loads into: the executable is
/// resolved against the script folder, and no run has been attempted yet.
pub open spec fn script_of_block(
    folder: Seq<char>,
    event_triggers: Seq<Seq<char>>,
    file_name: Seq<char>,
    run_delay: u8,
    watch_path: Seq<char>,
) -> ScriptV {
    ScriptV {
        event_triggers,
        file_path: folder + "/"@ + file_name,
        file_name,
        failed: None,
        run_delay,
        watch_path,
    }
}

impl Script {
    /// Loads one yaml block into a script descriptor, resolving its
    /// executable against the script folder.
    pub fn from_block(block: &ScriptBlock, script_directory: &str) -> (r: Script)
        ensures
            r@ == script_of_block(
                script_directory@,
                block.event_triggers@.map_values(|s: String| s@),
                block.file_name@,
                block.run_delay,
                block.watch_path@,
            ),
    {
        let mut file_path = String::new();
        file_path.append(script_directory);
        file_path.append("/");
        file_path.append(block.file_name.as_str());
        Script {
            event_triggers: clone_string_vec(&block.event_triggers),
            file_path,
            file_name: block.file_name.clone(),
            failed: None,
            run_delay: block.run_delay,
            watch_path: block.watch_path.clone(),
        }
    }

    /// Loads one legacy json descriptor into a script descriptor,
    /// resolving its executable against the script folder.
    pub fn from_json(json: &ScriptJSON, script_directory: &str) -> (r: Script)
        ensures
            r@ == script_of_block(
                script_directory@,
                json.event_triggers@.map_values(|s: String| s@),
                json.file_name@,
                json.run_delay,
                json.watch_path@,
            ),
    {
        let mut file_path = String::new();
        file_path.append(script_directory);
        file_path.append("/");
        file_path.append(json.file_name.as_str());
        Script {
            event_triggers: clone_string_vec(&json.event_triggers),
            file_path,
            file_name: json.file_name.clone(),
            failed: None,
            run_delay: json.run_delay,
            watch_path: json.watch_path.clone(),
        }
    }
}

/// The name of the event kind a canonical trigger word stands for, and the
/// kind it maps to in the cache: `Access`, `Create`, `Remove` and `Other`
/// cover their whole class; `Modify` stands for the rename-to completion
/// alone, so that half-written files do not fire scripts.
pub open spec fn trigger_kind_of(name: Seq<char>) -> Option<EventKind> {
    if name == "Access"@ {
        Some(EventKind::Access(crate::events::AccessKind::Any))
    } else if name == "Create"@ {
        Some(EventKind::Create(crate::events::CreateKind::Any))
    } else if name == "Modify"@ {
        Some(
            EventKind::Modify(
                crate::events::ModifyKind::Name(crate::events::RenameMode::To),
            ),
        )
    } else if name == "Remove"@ {
        Some(EventKind::Remove(crate::events::RemoveKind::Any))
    } else if name == "Other"@ {
        Some(EventKind::Other)
    } else {
        None
    }
}

} // verus!
