//! User scripts: their descriptors as loaded from configuration, and the
//! cache that files them by the event kind that triggers them.

pub mod load;
pub mod structs;
