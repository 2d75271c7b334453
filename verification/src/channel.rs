//! The message channel between the receive loop and the panes.
//!
//! The receive loop pushes each rendered frame onto an unbounded flume
//! channel; the presentation side drains whatever is queued once per
//! render tick. Nothing is assumed of the channel's contents: sending
//! is best-effort and a drained message is an arbitrary string.

use vstd::prelude::*;

verus! {

#[verifier::external_type_specification]
#[verifier::external_body]
#[verifier::reject_recursive_types(T)]
pub struct ExSender<T>(flume::Sender<T>);

#[verifier::external_type_specification]
#[verifier::external_body]
#[verifier::reject_recursive_types(T)]
pub struct ExReceiver<T>(flume::Receiver<T>);

/// Relies on `flume::Sender::send`: queues the message on an unbounded
/// channel, refusing it only once every receiver is gone. The result is
/// whether the message was taken; callers treat sending as best-effort.
#[verifier::external_body]
pub(crate) fn send_text(tx: &flume::Sender<String>, msg: String) -> (delivered: bool) {
    tx.send(msg).is_ok()
}

/// Relies on `flume::Receiver::try_recv`: hands out the oldest queued
/// message without blocking, or nothing when the channel is empty or
/// every sender is gone.
#[verifier::external_body]
pub(crate) fn try_recv_text(rx: &flume::Receiver<String>) -> (r: Option<String>) {
    match rx.try_recv() {
        Ok(msg) => Some(msg),
        Err(_) => None,
    }
}

} // verus!
