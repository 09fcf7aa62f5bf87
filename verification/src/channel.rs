//! Trusted boundary to crossbeam's channels.
//!
//! The actors of the UI exchange messages over `crossbeam::channel`
//! endpoints. What a receive returns depends on what other threads have
//! sent, so nothing is promised here about the values; the verified code
//! takes whatever came back and handles every outcome.

use vstd::prelude::*;

verus! {

#[verifier::external_type_specification]
#[verifier::external_body]
#[verifier::reject_recursive_types(T)]
pub struct ExSender<T>(crossbeam::channel::Sender<T>);

#[verifier::external_type_specification]
#[verifier::external_body]
#[verifier::reject_recursive_types(T)]
pub struct ExReceiver<T>(crossbeam::channel::Receiver<T>);

/// Outcome of a non-blocking receive.
pub enum Received<T> {
    /// A message was pending and is handed over.
    Message(T),
    /// No message was pending; the sending side is still connected.
    Pending,
    /// The sending side has disconnected and the channel is drained.
    Closed,
}

/// Relies on crossbeam_channel::Receiver::try_recv: returns a pending
/// message without blocking, or reports the channel empty or disconnected.
#[verifier::external_body]
pub(crate) fn try_receive<T>(receiver: &crossbeam::channel::Receiver<T>) -> Received<T> {
    match receiver.try_recv() {
        Ok(message) => Received::Message(message),
        Err(crossbeam::channel::TryRecvError::Empty) => Received::Pending,
        Err(crossbeam::channel::TryRecvError::Disconnected) => Received::Closed,
    }
}

/// Relies on crossbeam_channel::Sender::send: delivers the message in
/// arrival order unless the receiving side has disconnected.
#[verifier::external_body]
pub(crate) fn send<T>(sender: &crossbeam::channel::Sender<T>, message: T) -> bool {
    match sender.send(message) {
        Ok(()) => true,
        Err(crossbeam::channel::SendError(_)) => false,
    }
}

} // verus!
