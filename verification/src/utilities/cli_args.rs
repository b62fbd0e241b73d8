//! The command-line surface, on plain values. Argument parsing itself and
//! the directory read happen in the process around the library; the choice
//! of configuration file is made here.

use vstd::prelude::*;

use crate::errors::CommandLineError;
use crate::utilities::files;

verus! {

/// How much the process should log.
#[derive(Debug, Clone, Copy, PartialEq, Eq, Structural)]
pub enum LogLevel {
    /// Nothing.
    Off,
    /// Errors only.
    Error,
    /// Warnings and errors.
    Warn,
    /// Informational and above.
    Info,
    /// Debug and above.
    Debug,
    /// Everything.
    Trace,
}

/// The arguments the process was started with.
#[derive(Debug)]
pub struct CommandLineArgs {
    /// Level of logging.
    pub log_level: LogLevel,
    /// Path to the folder holding the script configuration.
    pub script_folder: String,
}

impl CommandLineArgs {
    /// Picks the configuration file out of the script folder: the first
    /// entry carrying the `yml` extension, joined onto the folder path.
    /// The listing of the folder is handed in by the caller.
    pub fn get_config_path(&self, dir_entries: &Vec<String>) -> (r: Result<
        String,
        CommandLineError,
    >)
        ensures
            match r {
                Ok(p) => exists|k: int|
                    {
                        &&& 0 <= k < dir_entries@.len()
                        &&& files::has_extension(#[trigger] dir_entries@[k]@, "yml"@)
                        &&& forall|j: int|
                            0 <= j < k ==> !files::has_extension(
                                #[trigger] dir_entries@[j]@,
                                "yml"@,
                            )
                        &&& p@ == files::join_slash(
                            seq![self.script_folder@, dir_entries@[k]@],
                        )
                    },
                Err(e) => {
                    &&& forall|k: int|
                        0 <= k < dir_entries@.len() ==> !files::has_extension(
                            #[trigger] dir_entries@[k]@,
                            "yml"@,
                        )
                    &&& e is ScriptConfigError
                },
            },
    {
        let ext = String::from_str("yml");
        if !files::dir_contains_file_type(dir_entries, &ext) {
            return Err(
                CommandLineError::ScriptConfigError(
                    String::from_str("unable to verify script configuration file"),
                ),
            );
        }
        match files::get_first_of_file_type(dir_entries, &ext) {
            Some(name) => {
                let mut segments: Vec<String> = Vec::new();
                segments.push(self.script_folder.clone());
                segments.push(name);
                let joined = files::build_path(&segments);
                proof {
                    let parts = segments@.map_values(|s: String| s@);
                    assert(parts =~= seq![self.script_folder@, segments@[1]@]);
                }
                Ok(joined)
            },
            None => Err(
                CommandLineError::ScriptConfigError(
                    String::from_str("unable to verify script configuration file"),
                ),
            ),
        }
    }
}

} // verus!
