use vstd::prelude::*;

verus! {

#[verifier::external_type_specification]
#[verifier::external_body]
#[verifier::reject_recursive_types(T)]
pub struct ExSender<T>(tokio::sync::broadcast::Sender<T>);

/// Relies on tokio::sync::broadcast::Sender::new: a room's fan-out channel, with no
/// subscriber yet and room for `capacity` undelivered messages per subscriber. It panics
/// on a capacity of zero or above `usize::MAX / 2`.
#[verifier::external_body]
pub(crate) fn new_channel(capacity: usize) -> (r: tokio::sync::broadcast::Sender<String>)
    requires
        0 < capacity <= usize::MAX / 2,
{
    tokio::sync::broadcast::Sender::new(capacity)
}

/// Relies on tokio::sync::broadcast::Sender::send: hands `message` to every current
/// subscriber without blocking. It fails, dropping the message, only when there is none;
/// on success it reports how many subscribers there were, at least one.
#[verifier::external_body]
pub(crate) fn send_message(sender: &tokio::sync::broadcast::Sender<String>, message: String) -> (r: Option<usize>)
    ensures
        r matches Some(n) ==> n >= 1,
{
    sender.send(message).ok()
}

} // verus!
