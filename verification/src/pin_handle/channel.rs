//! The signal channel: the bounded queue of the standard library that carries
//! edge notifications from the hardware callbacks to the update worker.
//!
//! Nothing is known here of what a channel holds: other threads fill and drain
//! it. The two ends are carried through, and the items below are taken on trust.
//! A producing end stands for the channel that it feeds: its duplicates are
//! equal to it.

use super::level::{PinLevel, PinSignal};
use std::sync::mpsc::{Receiver, RecvTimeoutError, SyncSender};
use std::time::Duration;
use vstd::prelude::*;

verus! {

/// The producing end of a channel, `std::sync::mpsc::SyncSender`: opaque here.
#[verifier::external_type_specification]
#[verifier::external_body]
#[verifier::reject_recursive_types(T)]
pub struct ExSyncSender<T>(SyncSender<T>);

/// The consuming end of a channel, `std::sync::mpsc::Receiver`: opaque here.
#[verifier::external_type_specification]
#[verifier::external_body]
#[verifier::reject_recursive_types(T)]
pub struct ExReceiver<T>(Receiver<T>);

/// What one wait on the consuming end of the signal channel brought.
#[derive(Debug, Clone, Copy, PartialEq, Eq, Structural)]
pub enum Received {
    /// A signal: the identifier of the line and its new level.
    Signal(usize, PinLevel),
    /// The wait timed out with the channel still empty.
    TimedOut,
    /// The channel is empty and every producing end is gone.
    Disconnected,
}

/// How many signals the channel holds before a sender has to wait.
///
/// A hardware callback that sends into a full channel blocks until the worker
/// has taken a signal out; nothing is dropped.
pub const SIGNAL_QUEUE_CAPACITY: usize = 20;

/// `std::sync::mpsc::sync_channel`: a new channel that buffers `capacity`
/// signals. Nothing is claimed of the two ends.
#[verifier::external_body]
pub(crate) fn open_channel(capacity: usize) -> (ends: (SyncSender<PinSignal>, Receiver<PinSignal>)) {
    std::sync::mpsc::sync_channel(capacity)
}

/// `SyncSender::clone`: a duplicate of `sender`, that is one more producing
/// end of the same channel. A sender says no more than which channel it feeds,
/// so the duplicate counts as equal to `sender`.
#[verifier::external_body]
pub(crate) fn clone_sender(sender: &SyncSender<PinSignal>) -> (copy: SyncSender<PinSignal>)
    ensures
        copy == *sender,
{
    sender.clone()
}

/// `SyncSender::send`: puts `signal` into the channel, waiting while the
/// channel is full, and says whether it got in. It does not get in when the
/// consuming end is gone. When it does is decided by the other threads, so
/// nothing is claimed of the answer.
#[verifier::external_body]
pub(crate) fn send(sender: &SyncSender<PinSignal>, signal: PinSignal) -> (sent: bool) {
    match sender.send(signal) {
        Ok(()) => true,
        Err(_) => false,
    }
}

/// `Duration::from_millis`: the span of `millis` milliseconds.
#[verifier::external_body]
pub(crate) fn span_of_millis(millis: u64) -> (span: Duration) {
    Duration::from_millis(millis)
}

/// `Receiver::recv_timeout`: waits until a signal is in the channel, until
/// the channel is empty with every producing end gone, or until `timeout` has
/// passed, and says which it was. What arrives is decided by the other
/// threads, so nothing is claimed of the answer.
#[verifier::external_body]
pub(crate) fn receive(receiver: &Receiver<PinSignal>, timeout: Duration) -> (received: Received) {
    match receiver.recv_timeout(timeout) {
        Ok((pin_id, level)) => Received::Signal(pin_id, level),
        Err(RecvTimeoutError::Timeout) => Received::TimedOut,
        Err(RecvTimeoutError::Disconnected) => Received::Disconnected,
    }
}

} // verus!
