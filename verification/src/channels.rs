//! The broadcast send primitive of the pipeline.
//!
//! Every stage hands its messages on over a tokio broadcast channel. The
//! sender type is declared here so that verified code can hold one and
//! send on it; whether a message is accepted depends on the receivers
//! subscribed at the moment of the call, so nothing is promised of the
//! outcome.

use vstd::prelude::*;

verus! {

#[verifier::external_type_specification]
#[verifier::external_body]
#[verifier::reject_recursive_types(T)]
pub struct ExSender<T>(tokio::sync::broadcast::Sender<T>);

/// Relies on tokio's `broadcast::Sender::send`: the message goes out to the
/// receivers subscribed at the moment of the call, and comes back refused,
/// untouched, when there is none. Whether receivers exist depends on the
/// environment, so which case happens is not promised; of each case only
/// what the source shows is: a refusal hands the very message back, and an
/// acceptance reports how many receivers took it, at least one.
#[verifier::external_body]
pub fn send_message<T>(channel: &tokio::sync::broadcast::Sender<T>, message: T) -> (r: Result<
    usize,
    T,
>)
    ensures
        r matches Err(m) ==> m == message,
        r matches Ok(n) ==> n >= 1,
{
    channel.send(message).map_err(|e| e.0)
}

} // verus!
