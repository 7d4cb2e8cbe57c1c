//! Trusted surface over `std::sync::mpsc` channels.
//!
//! A channel endpoint is opaque here: what a receiver will yield depends on
//! other threads, so none of these items promises anything about message
//! contents. The verified logic takes whatever comes back and decides from it.

use vstd::prelude::*;

use std::sync::mpsc::Receiver;
use std::sync::mpsc::Sender;

verus! {

#[verifier::external_type_specification]
#[verifier::external_body]
#[verifier::reject_recursive_types(T)]
pub struct ExSender<T>(Sender<T>);

#[verifier::external_type_specification]
#[verifier::external_body]
#[verifier::reject_recursive_types(T)]
pub struct ExReceiver<T>(Receiver<T>);

/// One non-blocking poll of a receiver.
pub enum Polled<T> {
    /// A message was queued and is handed over.
    Item(T),
    /// Nothing was queued at the time of the poll.
    Empty,
    /// Every sender is gone and the queue is drained for good.
    Disconnected,
}

/// Relies on `std::sync::mpsc::channel`: returns a connected
/// sender/receiver pair with an unbounded buffer.
#[verifier::external_body]
pub(crate) fn make_channel<T>() -> (Sender<T>, Receiver<T>) {
    std::sync::mpsc::channel()
}

/// Relies on `std::sync::mpsc::Sender::send`: queues `t` for the receiver
/// without blocking; fails only when the receiver is gone.
#[verifier::external_body]
pub(crate) fn chan_send<T>(tx: &Sender<T>, t: T) -> (ok: bool) {
    tx.send(t).is_ok()
}

/// Relies on `std::sync::mpsc::Receiver::try_recv`: takes one queued message
/// without blocking, or reports an empty queue or a disconnected channel.
#[verifier::external_body]
pub(crate) fn chan_try_recv<T>(rx: &Receiver<T>) -> (r: Polled<T>) {
    match rx.try_recv() {
        Ok(t) => Polled::Item(t),
        Err(std::sync::mpsc::TryRecvError::Empty) => Polled::Empty,
        Err(std::sync::mpsc::TryRecvError::Disconnected) => Polled::Disconnected,
    }
}

/// Relies on `std::sync::mpsc::Receiver::recv`: blocks until a message
/// arrives, or returns `None` once every sender is gone.
#[verifier::external_body]
pub(crate) fn chan_recv<T>(rx: &Receiver<T>) -> (r: Option<T>) {
    rx.recv().ok()
}

} // verus!
