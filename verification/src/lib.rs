//! Debounced filesystem-hook dispatch: the verified core of a directory
//! watcher that runs user scripts once files under a watched root settle.
//!
//! The library holds the logic of the pipeline — event filtering, home-dir
//! resolution, the debounce timer, the subscription registry, and the script
//! launch plan — on plain values. The surrounding process (channels, tasks,
//! filesystem notification, child processes) hands values in and out.

pub mod channels;
pub mod errors;
pub mod events;
pub mod logger;
pub mod paths;
pub mod runner;
pub mod scripts;
pub mod syncthing;
pub mod text;
pub mod utilities;
pub mod watcher;
