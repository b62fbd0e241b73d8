//! The library's side of logging: the log lines themselves, as text. The
//! process around the library writes them to its sinks.

pub mod debug;
pub mod error;
pub mod info;
pub mod load;
pub mod structs;
