//! What a pin must offer to be managed by the registry.

use super::channel::send;
use super::level::{PinLevel, PinSignal};
use std::sync::mpsc::SyncSender;
use vstd::prelude::*;

verus! {

/// A signal line that reports its transitions.
///
/// An implementation promises two things. Its identifier never changes:
/// `get_id` reports `pin_id`, and installing a callback leaves `pin_id` as it
/// was. And `register_signal` does install the callback: afterwards the pin
/// sends through the sender it was handed.
///
/// `pin_id` and `sender` are the names under which contracts speak of a pin.
/// An implementation in code that is not verified writes them as ordinary
/// methods that return the identifier and a copy of the installed sender.
pub trait InterruptablePin {
    /// The identifier that tells this line from every other.
    spec fn pin_id(&self) -> usize;

    /// The sender that the installed callback sends through; `None` as long
    /// as no callback is installed.
    spec fn sender(&self) -> Option<SyncSender<PinSignal>>;

    /// Installs a callback that sends `(identifier, new level)` through
    /// `sender` whenever the line changes its level.
    fn register_signal(&mut self, sender: SyncSender<PinSignal>)
        ensures
            final(self).pin_id() == old(self).pin_id(),
            final(self).sender() == Some(sender),
    ;

    /// The identifier of this line.
    fn get_id(&self) -> (id: usize)
        ensures
            id == self.pin_id(),
    ;
}

/// What a pin's callback does on an edge: it sends the identifier of the line
/// and its new level through `sender`, waiting while the channel is full, and
/// says whether the signal got into the channel. When the worker's end of the
/// channel is gone the signal is dropped; the callback never fails on that.
///
/// Whether the worker's end is still there is the worker's doing and changes
/// with time, so nothing is promised of the answer.
pub fn send_signal(sender: &SyncSender<PinSignal>, pin_id: usize, level: PinLevel) -> (sent: bool) {
    send(sender, (pin_id, level))
}

} // verus!
