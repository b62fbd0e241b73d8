//! Error surface of the library.
//!
//! Every payload is a plain value: where the process around the library meets
//! an error of another crate, it passes the message in as a `String`.

use vstd::prelude::*;

verus! {

/// Failure while interpreting command-line input.
#[derive(Debug, Clone)]
pub enum CommandLineError {
    /// The script configuration folder could not be used.
    ScriptConfigError(String),
    /// An io failure while inspecting the folder, as text.
    IoError(String),
}

/// Failure while resolving or traversing paths.
#[derive(Debug, Clone)]
pub enum PathError {
    /// A path that cannot be used, with a description.
    InvalidPath(String),
    /// An io failure, as text.
    Io(String),
    /// The path has no ancestor inside the watched root.
    TraversalError,
}

/// Failure while reading the kind tag of an event.
#[derive(Debug, Clone)]
pub enum EventTypeError {
    /// The tag did not name a known kind.
    ParseString(String),
}

/// Failure on the raw event stream.
#[derive(Debug, Clone)]
pub enum EventError {
    /// The notification backend reported an error, as text.
    NotifyError(String),
    /// The event kind could not be interpreted.
    TypeError(EventTypeError),
}

/// Failure while touching the debounce timer.
#[derive(Debug, Clone)]
pub enum TimerError {
    /// The timer state was momentarily unavailable.
    LockError(String),
}

/// Why a channel receive failed.
#[derive(Debug, Clone, Copy, PartialEq, Eq, Structural)]
pub enum RecvErrorKind {
    /// The channel closed; no further message will arrive.
    Closed,
    /// The receiver fell behind and missed the given number of messages.
    Lagged(u64),
}

/// Failure of the task machinery around the library.
#[derive(Debug, Clone)]
pub enum ThreadError {
    /// A spawned task could not be joined.
    JoinError(String),
    /// A failure nothing else describes.
    UnexpectedError(String),
    /// The shared path cache was unavailable.
    LockError(String),
    /// The worker runtime could not be built.
    RuntimeError(String),
    /// A channel receive failed.
    RecvError(RecvErrorKind),
}

/// Failure of the subscription pipeline.
#[derive(Debug, Clone)]
pub enum SubscriptionError {
    /// The raw event stream failed.
    EventError(EventError),
    /// The path cache was unavailable.
    LockError(String),
    /// The worker machinery failed.
    RuntimeError(String),
    /// A `(path, scripts)` message could not be delivered.
    SpawnSendError(String),
    /// The debounce timer failed.
    TimerError(TimerError),
    /// The task machinery failed.
    ThreadError(ThreadError),
    /// An unsubscribe message could not be delivered.
    UnsubscribeSendError(String),
    /// An unsubscribe found nothing to remove.
    UnsubscribeError(String),
    /// A failure nothing else describes.
    UnexpectedError(String),
}

/// Failure while starting a script process.
#[derive(Debug, Clone)]
pub enum SpawnError {
    /// An io failure, as text.
    IoError(String),
    /// A script descriptor could not be interpreted.
    ParseError(String),
    /// The paths handed to the process could not be used.
    ArgError(String),
    /// The run channel failed.
    RecvError(RecvErrorKind),
    /// The task machinery failed.
    ThreadError(ThreadError),
    /// A script run failed, with its report.
    ScriptError(String),
    /// Unsubscription after the run failed.
    UnsubscriberError(SubscriptionError),
}

/// Failure while loading the script configuration.
#[derive(Debug, Clone)]
pub enum ScriptConfigError {
    /// An io failure, as text.
    IoError(String),
    /// The legacy json descriptor could not be parsed.
    JsonError(String),
    /// The yaml descriptor could not be parsed.
    YAMLError(String),
    /// A failure nothing else describes.
    UnexpectedError(String),
}

/// Failure while loading or running user scripts.
#[derive(Debug, Clone)]
pub enum ScriptError {
    /// The configuration could not be used.
    ConfigError(ScriptConfigError),
    /// An io failure, as text.
    IoError(String),
    /// A process could not be started.
    SpawnError(SpawnError),
}

/// Failure of a whole watcher.
#[derive(Debug, Clone)]
pub enum WatcherError {
    /// The raw event stream failed.
    EventError(EventError),
    /// Path handling failed.
    PathError(PathError),
    /// The subscription pipeline failed.
    SubscriberError(SubscriptionError),
    /// The worker machinery failed.
    RuntimeError(String),
    /// The task machinery failed.
    ThreadError(ThreadError),
    /// User scripts failed.
    ScriptError(ScriptError),
}

/// Failure while setting up logging.
#[derive(Debug, Clone)]
pub enum LoggerError {
    /// The logging backend rejected its configuration.
    SetLoggerError(String),
    /// An io failure while opening the log file, as text.
    IoError(String),
    /// A failure nothing else describes.
    UnexpectedError(String),
}

/// Building a catch-all error out of a bare message.
pub trait UnexpectedAnyhowError: Sized {
    /// Wraps the message in the implementor's catch-all variant.
    fn new_unexpected_error(message: String) -> Self;
}

impl UnexpectedAnyhowError for ThreadError {
    fn new_unexpected_error(message: String) -> (e: Self)
        ensures
            e == ThreadError::UnexpectedError(message),
    {
        ThreadError::UnexpectedError(message)
    }
}

impl UnexpectedAnyhowError for SubscriptionError {
    fn new_unexpected_error(message: String) -> (e: Self)
        ensures
            e == SubscriptionError::UnexpectedError(message),
    {
        SubscriptionError::UnexpectedError(message)
    }
}

impl ScriptConfigError {
    /// The catch-all configuration error, from a bare message.
    pub fn from_message(value: String) -> (e: Self)
        ensures
            e == ScriptConfigError::UnexpectedError(value),
    {
        ScriptConfigError::UnexpectedError(value)
    }
}

impl LoggerError {
    /// The catch-all logger error, from a bare message.
    pub fn from_message(value: String) -> (e: Self)
        ensures
            e == LoggerError::UnexpectedError(value),
    {
        LoggerError::UnexpectedError(value)
    }
}

} // verus!
