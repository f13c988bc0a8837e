//! Trusted declarations around std's multi-producer, single-consumer
//! channels: the only shared resource between the pool and its workers.
//! vstd gives these std items no specification, so each wrapper here makes
//! exactly one call into std; nothing is promised of a result that depends
//! on what other threads have sent.

use std::sync::mpsc::Receiver;
use std::sync::mpsc::SendError;
use std::sync::mpsc::Sender;
use std::sync::mpsc::TryRecvError;
use vstd::prelude::*;

verus! {

#[verifier::external_type_specification]
#[verifier::external_body]
#[verifier::reject_recursive_types(T)]
pub struct ExSender<T>(Sender<T>);

#[verifier::external_type_specification]
#[verifier::external_body]
#[verifier::reject_recursive_types(T)]
pub struct ExReceiver<T>(Receiver<T>);

#[verifier::external_type_specification]
#[verifier::external_body]
#[verifier::reject_recursive_types(T)]
pub struct ExSendError<T>(SendError<T>);

/// Relies on std::sync::mpsc::channel: creates a connected pair of a sending
/// and a receiving end.
#[verifier::external_body]
pub(crate) fn channel_pair<T>() -> (Sender<T>, Receiver<T>) {
    std::sync::mpsc::channel()
}

/// Relies on Sender::clone: the clone sends into the same channel as the
/// original.
#[verifier::external_body]
pub(crate) fn clone_sender<T>(sender: &Sender<T>) -> Sender<T> {
    sender.clone()
}

/// Relies on Sender::send: never blocks; hands the value back inside `Err`
/// exactly when the receiving end has been dropped.
#[verifier::external_body]
pub(crate) fn send_value<T>(sender: &Sender<T>, value: T) -> Result<(), SendError<T>> {
    sender.send(value)
}

/// Relies on Receiver::try_recv: never blocks; takes at most one pending
/// value out of the channel. An empty channel and a channel whose senders
/// are all gone both yield nothing.
#[verifier::external_body]
pub(crate) fn try_recv_value<T>(receiver: &Receiver<T>) -> Option<T> {
    match receiver.try_recv() {
        Ok(value) => Some(value),
        Err(TryRecvError::Empty) => None,
        Err(TryRecvError::Disconnected) => None,
    }
}

/// Relies on Receiver::try_iter: never blocks; takes every value pending in
/// the channel, in sending order, until one poll finds it empty.
#[verifier::external_body]
pub(crate) fn drain_values<T>(receiver: &Receiver<T>) -> Vec<T> {
    receiver.try_iter().collect()
}

} // verus!
