//! Small shared pieces: the debounce timer, the command-line surface, and
//! helpers over directory listings.

pub mod cli_args;
pub mod files;
pub mod timer;
