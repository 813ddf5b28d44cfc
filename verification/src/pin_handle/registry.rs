//! The registry: the pins it owns and the levels last observed on their lines.

use super::channel::clone_sender;
use super::level::{last_level, LevelStore, PinLevel, PinSignal};
use super::pin::InterruptablePin;
use std::collections::HashMap;
use std::sync::mpsc::SyncSender;
use vstd::prelude::*;

verus! {

broadcast use vstd::std_specs::hash::group_hash_axioms;

/// What a registry holds: the signals written and the pins registered, which
/// know nothing of each other, and the producing end of the signal channel.
///
/// A line has a level from its first signal on, whether or not a pin is
/// registered for it, and keeps it when its pin is removed.
pub ghost struct RegistryState<T> {
    /// The signals written so far, in their order.
    pub written: Seq<PinSignal>,
    /// The registered pins, by the identifier each was registered under.
    pub pins: Map<usize, T>,
    /// The sender that every registered pin is handed a duplicate of.
    pub sender: SyncSender<PinSignal>,
}

impl<T: InterruptablePin> RegistryState<T> {
    /// No pins, and no signal written.
    pub open spec fn empty(sender: SyncSender<PinSignal>) -> Self {
        RegistryState { written: Seq::empty(), pins: Map::empty(), sender }
    }

    /// Whether `pin` may be filed: its callback sends into this registry's
    /// channel.
    pub open spec fn wired(self, pin: T) -> bool {
        pin.sender() == Some(self.sender)
    }

    /// Every pin is filed under its own identifier, so no two registered pins
    /// share one, and every pin sends into this registry's channel.
    pub open spec fn well_formed(self) -> bool {
        forall|pin_id: usize| #[trigger]
            self.pins.contains_key(pin_id) ==> {
                &&& self.pins[pin_id].pin_id() == pin_id
                &&& self.wired(self.pins[pin_id])
            }
    }

    /// The level of the last signal written for line `pin_id`, if any was.
    pub open spec fn level(self, pin_id: usize) -> Option<PinLevel> {
        last_level(self.written, pin_id)
    }

    /// The pin registered under `pin_id`, if any is.
    pub open spec fn pin(self, pin_id: usize) -> Option<T> {
        self.pins.get(pin_id)
    }

    /// The state after the signal `(pin_id, level)` was written.
    pub open spec fn with_signal(self, pin_id: usize, level: PinLevel) -> Self {
        RegistryState { written: self.written.push((pin_id, level)), ..self }
    }

    /// The state after `pin` was filed under its identifier.
    pub open spec fn with_pin(self, pin: T) -> Self {
        RegistryState { pins: self.pins.insert(pin.pin_id(), pin), ..self }
    }

    /// The state after the pin under `pin_id`, if any, was taken out.
    pub open spec fn without_pin(self, pin_id: usize) -> Self {
        RegistryState { pins: self.pins.remove(pin_id), ..self }
    }
}

/// Owns the registered pins, hands each of them a producing end of the signal
/// channel, and answers level queries.
pub struct PinRegistry<T: InterruptablePin> {
    levels: LevelStore,
    pins: HashMap<usize, T>,
    sender: SyncSender<PinSignal>,
}

impl<T: InterruptablePin> View for PinRegistry<T> {
    type V = RegistryState<T>;

    closed spec fn view(&self) -> RegistryState<T> {
        RegistryState { written: self.levels@, pins: self.pins@, sender: self.sender }
    }
}

impl<T: InterruptablePin> PinRegistry<T> {
    /// A registry without pins, to which no signal has been written, and
    /// whose pins will send through `sender`.
    pub fn new(sender: SyncSender<PinSignal>) -> (registry: Self)
        ensures
            registry@ == RegistryState::<T>::empty(sender),
            registry@.well_formed(),
    {
        PinRegistry { levels: LevelStore::new(), pins: HashMap::new(), sender }
    }

    /// The level last observed on line `pin_id`: that of the last signal
    /// written for the line. It is `None` as long as no signal was written for
    /// it, whether or not a pin is registered under it.
    pub fn get_pin_level(&self, pin_id: usize) -> (level: Option<PinLevel>)
        ensures
            level == self@.level(pin_id),
    {
        self.levels.get(pin_id)
    }

    /// Takes the pin registered under `pin_id` out and returns it. The level
    /// of its line stays.
    pub fn remove_pin(&mut self, pin_id: usize) -> (pin: Option<T>)
        ensures
            pin == old(self)@.pin(pin_id),
            final(self)@ == old(self)@.without_pin(pin_id),
            old(self)@.well_formed() ==> final(self)@.well_formed(),
    {
        self.pins.remove(&pin_id)
    }

    /// Installs on `pin` a callback that sends into this registry's channel,
    /// and files the pin, as the installation left it, under its identifier.
    /// A pin that was registered under that identifier before is evicted and
    /// returned. The levels are not touched: the line of a new pin has none
    /// until its first signal is written.
    pub fn register_pin(&mut self, pin: T) -> (evicted: Option<T>)
        ensures
            evicted == old(self)@.pin(pin.pin_id()),
            ({
                let stored = final(self)@.pins[pin.pin_id()];
                &&& stored.pin_id() == pin.pin_id()
                &&& old(self)@.wired(stored)
                &&& final(self)@ == old(self)@.with_pin(stored)
            }),
            old(self)@.well_formed() ==> final(self)@.well_formed(),
    {
        let mut pin = pin;
        pin.register_signal(clone_sender(&self.sender));
        let pin_id: usize = pin.get_id();
        self.set_pin(pin_id, pin)
    }

    /// Writes the signal `(pin_id, pin_level)`, whatever level the line had,
    /// and returns the level that it had. This is the update worker's write.
    pub fn set_pin_level(&mut self, pin_id: usize, pin_level: PinLevel) -> (previous: Option<
        PinLevel,
    >)
        ensures
            previous == old(self)@.level(pin_id),
            final(self)@ == old(self)@.with_signal(pin_id, pin_level),
            old(self)@.well_formed() ==> final(self)@.well_formed(),
    {
        self.levels.set(pin_id, pin_level)
    }

    /// Files `pin` under `pin_id`, its identifier, and returns the pin that
    /// was there.
    pub(crate) fn set_pin(&mut self, pin_id: usize, pin: T) -> (evicted: Option<T>)
        requires
            pin.pin_id() == pin_id,
        ensures
            evicted == old(self)@.pin(pin_id),
            final(self)@ == old(self)@.with_pin(pin),
            old(self)@.well_formed() && old(self)@.wired(pin) ==> final(self)@.well_formed(),
    {
        self.pins.insert(pin_id, pin)
    }
}

} // verus!
