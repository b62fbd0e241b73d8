//! One watcher: the event filter over a watched root, the subscription
//! registry with its debounce bookkeeping, and the per-home-dir event loop
//! decisions.

pub mod configs;
pub mod event_loop;
pub mod path_subscriber;
pub mod structs;
pub mod watch_events;
