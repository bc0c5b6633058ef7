//! The queue that carries captured messages from the threads that log to the
//! thread that runs the frames: std's multi-producer, single-consumer channel.
//!
//! Verus sees nothing inside a channel. What it holds at any moment depends on
//! what other threads do, so the contracts here claim only what holds of every
//! outcome.

use crate::log::LogEvent;
use std::sync::mpsc::{Receiver, Sender};
use vstd::prelude::*;

verus! {

/// std's `std::sync::mpsc::Sender`, the sending half of a channel.
#[verifier::external_type_specification]
#[verifier::external_body]
#[verifier::reject_recursive_types(T)]
pub struct ExSender<T>(Sender<T>);

/// std's `std::sync::mpsc::Receiver`, the receiving half of a channel.
#[verifier::external_type_specification]
#[verifier::external_body]
#[verifier::reject_recursive_types(T)]
pub struct ExReceiver<T>(Receiver<T>);

/// Calls `std::sync::mpsc::channel`: a new unbounded channel, as its two halves.
/// Nothing is claimed of them.
#[verifier::external_body]
pub(crate) fn open() -> (halves: (Sender<LogEvent>, Receiver<LogEvent>)) {
    std::sync::mpsc::channel()
}

/// Calls `Sender::send`, which never blocks. It fails only when the receiving
/// half is gone, and then hands back the value it was given: the error is the
/// very event that could not be sent. When it succeeds depends on what became
/// of the receiver, so nothing is claimed of that.
#[verifier::external_body]
pub(crate) fn send(sender: &Sender<LogEvent>, event: LogEvent) -> (sent: Result<(), LogEvent>)
    ensures
        sent matches Err(back) ==> back == event,
{
    match sender.send(event) {
        Ok(()) => Ok(()),
        Err(err) => Err(err.0),
    }
}

/// Calls `Receiver::try_recv`, which never blocks: the next queued event, or
/// `None` when none is ready or every sender is gone. Which of these comes
/// depends on what the sending threads have done, so nothing is claimed of it.
#[verifier::external_body]
pub(crate) fn try_recv(receiver: &Receiver<LogEvent>) -> (next: Option<LogEvent>) {
    receiver.try_recv().ok()
}

} // verus!
