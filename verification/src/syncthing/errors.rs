//! Errors of the remote-index variant, with plain payloads.

use vstd::prelude::*;

verus! {

/// Failure while reading an event kind's name.
#[derive(Debug, Clone)]
pub enum EventTypesError {
    /// The name did not match a known kind.
    ParseString(String),
}

/// Failure of the remote-index pipeline.
#[derive(Debug, Clone)]
pub enum SyncthingError {
    /// The daemon could not be reached.
    ApiError,
    /// A kind name could not be read.
    EventTypeError(EventTypesError),
    /// A failure nothing else describes.
    GenericMessage(String),
    /// The feed held nothing new.
    NoNewEvents,
    /// Something could not be parsed.
    ParseError(String),
    /// The feed's records could not be decoded.
    SerdeError(String),
    /// A process could not be started.
    SpawnError(String),
}

/// Failure while loading or running the variant's scripts.
#[derive(Debug, Clone)]
pub enum ScriptsError {
    /// The configuration could not be used.
    ConfigsError,
    /// An io failure, as text.
    IoError(String),
    /// The descriptor file could not be decoded.
    JsonError(String),
    /// A process could not be started.
    SpawnError(SpawnError),
    /// A failure nothing else describes.
    GenericMessage(String),
}

/// Failure while starting one of the variant's scripts.
#[derive(Debug, Clone)]
pub enum SpawnError {
    /// An io failure, as text.
    IoError(String),
    /// The script could not be read.
    ReadError,
    /// A kind name could not be read.
    ParseError(String),
}

} // verus!
