//! The remote-index variant of the pipeline: events fetched from a sync
//! daemon's REST interface instead of kernel notifications. The data
//! model and the event bookkeeping are here; the HTTP transport stays
//! with the process around the library.

pub mod api;
pub mod configs;
pub mod errors;
pub mod event_structs;
pub mod logger;
pub mod process_events;
pub mod scripts;
