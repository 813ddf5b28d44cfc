//! What holds of the registry and its worker over any number of steps.
//!
//! The level of a line is told by the signals written, in the order in which
//! the worker took them from the channel. The laws on levels therefore speak
//! of sequences of signals: of every one that a run of the worker can write.

use super::channel::Received;
use super::level::{last_level, PinLevel, PinSignal};
use super::pin::InterruptablePin;
use super::registry::RegistryState;
use super::worker::{action_after_turn, written_after_turn, HandleState, WorkerAction};
use vstd::prelude::*;

verus! {

/// Whether a signal is for line `pin_id`.
pub open spec fn is_for(pin_id: usize) -> spec_fn(PinSignal) -> bool {
    |signal: PinSignal| signal.0 == pin_id
}

/// The signals for line `pin_id` among `signals`, in their order.
pub open spec fn signals_for(signals: Seq<PinSignal>, pin_id: usize) -> Seq<PinSignal> {
    signals.filter(is_for(pin_id))
}

/// Whether none of `signals` is for line `pin_id`.
pub open spec fn silent_on(signals: Seq<PinSignal>, pin_id: usize) -> bool {
    forall|i: int| 0 <= i < signals.len() ==> signals[i].0 != pin_id
}

/// A turn of the worker writes the signal that it received, and only that: a
/// timeout and a closed channel write nothing.
pub proof fn law_turn_writes_what_it_received(
    written: Seq<PinSignal>,
    pin_id: usize,
    level: PinLevel,
)
    ensures
        written_after_turn(written, Received::Signal(pin_id, level)) == written.push(
            (pin_id, level),
        ),
        last_level(written_after_turn(written, Received::Signal(pin_id, level)), pin_id) == Some(
            level,
        ),
        written_after_turn(written, Received::TimedOut) == written,
        written_after_turn(written, Received::Disconnected) == written,
{
}

/// After one run of signals and then another, the level of a line is that of
/// the second run if it had a signal for the line, and that of the first run
/// if not: what one task wrote is not lost when the next task goes on after
/// a restart.
pub proof fn law_runs_compose(first: Seq<PinSignal>, second: Seq<PinSignal>, pin_id: usize)
    ensures
        last_level(first + second, pin_id) == (match last_level(second, pin_id) {
            Some(level) => Some(level),
            None => last_level(first, pin_id),
        }),
    decreases second.len(),
{
    if second.len() == 0 {
        assert(first + second == first);
    } else {
        assert((first + second).drop_last() == first + second.drop_last());
        assert((first + second).last() == second.last());
        law_runs_compose(first, second.drop_last(), pin_id);
    }
}

/// A line on which no signal was ever observed has no level.
pub proof fn law_unobserved_line_has_no_level(signals: Seq<PinSignal>, pin_id: usize)
    requires
        silent_on(signals, pin_id),
    ensures
        last_level(signals, pin_id) is None,
    decreases signals.len(),
{
    if signals.len() > 0 {
        law_unobserved_line_has_no_level(signals.drop_last(), pin_id);
    }
}

/// Signals for other lines leave the level of a line as it was, known or not.
pub proof fn law_level_stays_without_signal(
    before: Seq<PinSignal>,
    later: Seq<PinSignal>,
    pin_id: usize,
)
    requires
        silent_on(later, pin_id),
    ensures
        last_level(before + later, pin_id) == last_level(before, pin_id),
{
    law_unobserved_line_has_no_level(later, pin_id);
    law_runs_compose(before, later, pin_id);
}

/// Once a signal is written for a line, the line has the level of that
/// signal, and keeps it until the next signal for the same line is written.
pub proof fn law_level_holds_until_next_signal(
    before: Seq<PinSignal>,
    pin_id: usize,
    level: PinLevel,
    later: Seq<PinSignal>,
)
    requires
        silent_on(later, pin_id),
    ensures
        last_level(before.push((pin_id, level)), pin_id) == Some(level),
        last_level(before.push((pin_id, level)) + later, pin_id) == Some(level),
{
    law_level_stays_without_signal(before.push((pin_id, level)), later, pin_id);
}

/// The last write wins: after signals that end with one for a line, the line
/// has the level of that last signal.
pub proof fn law_last_write_wins(signals: Seq<PinSignal>, pin_id: usize)
    requires
        signals.len() > 0,
        signals.last().0 == pin_id,
    ensures
        last_level(signals, pin_id) == Some(signals.last().1),
{
}

/// However the signals of many lines are interleaved, the level of each line
/// is that of its own last signal, and the line has none if it had no signal:
/// no signal is lost, and none reaches the level of another line.
pub proof fn law_level_is_own_last_signal(signals: Seq<PinSignal>, pin_id: usize)
    ensures
        last_level(signals, pin_id) == (if signals_for(signals, pin_id).len() == 0 {
            None
        } else {
            Some(signals_for(signals, pin_id).last().1)
        }),
    decreases signals.len(),
{
    reveal(Seq::filter);
    if signals.len() > 0 {
        law_level_is_own_last_signal(signals.drop_last(), pin_id);
        if signals.last().0 == pin_id {
            assert(is_for(pin_id)(signals.last()));
        } else {
            assert(!is_for(pin_id)(signals.last()));
        }
    }
}

/// Registering and removing pins never touches a level, and writing a signal
/// never touches a pin.
pub proof fn law_tables_are_independent<T: InterruptablePin>(
    state: RegistryState<T>,
    pin: T,
    pin_id: usize,
    level: PinLevel,
    other_id: usize,
)
    ensures
        state.with_pin(pin).level(other_id) == state.level(other_id),
        state.without_pin(pin_id).level(other_id) == state.level(other_id),
        state.with_signal(pin_id, level).pin(other_id) == state.pin(other_id),
{
}

/// A registered pin is returned by the first removal of its identifier, and
/// by none after it; the level of its line outlives the removal.
pub proof fn law_pin_is_removed_once<T: InterruptablePin>(state: RegistryState<T>, pin: T)
    ensures
        state.with_pin(pin).pin(pin.pin_id()) == Some(pin),
        state.with_pin(pin).without_pin(pin.pin_id()).pin(pin.pin_id()) is None,
        state.with_pin(pin).without_pin(pin.pin_id()).level(pin.pin_id()) == state.level(
            pin.pin_id(),
        ),
{
}

/// Removing under an identifier that has no pin returns nothing and changes
/// nothing; so does every removal after the first.
pub proof fn law_removal_without_pin<T: InterruptablePin>(state: RegistryState<T>, pin_id: usize)
    ensures
        state.pin(pin_id) is None ==> state.without_pin(pin_id) == state,
        state.without_pin(pin_id).pin(pin_id) is None,
        state.without_pin(pin_id).without_pin(pin_id) == state.without_pin(pin_id),
        state.without_pin(pin_id).level(pin_id) == state.level(pin_id),
{
    assert(state.without_pin(pin_id).pins.remove(pin_id) == state.without_pin(pin_id).pins);
    if state.pin(pin_id) is None {
        assert(state.pins.remove(pin_id) == state.pins);
    }
}

/// Every step keeps each pin filed under its own identifier and wired to the
/// registry's channel; a pin is filed only when it is wired to that channel.
pub proof fn law_well_formed_is_kept<T: InterruptablePin>(
    state: RegistryState<T>,
    pin: T,
    pin_id: usize,
    level: PinLevel,
)
    requires
        state.well_formed(),
    ensures
        RegistryState::<T>::empty(state.sender).well_formed(),
        state.wired(pin) ==> state.with_pin(pin).well_formed(),
        state.without_pin(pin_id).well_formed(),
        state.with_signal(pin_id, level).well_formed(),
{
}

/// No two registered pins have the same identifier.
pub proof fn law_identifiers_are_unique<T: InterruptablePin>(
    state: RegistryState<T>,
    one: usize,
    other: usize,
)
    requires
        state.well_formed(),
        state.pins.contains_key(one),
        state.pins.contains_key(other),
        one != other,
    ensures
        state.pins[one].pin_id() != state.pins[other].pin_id(),
{
}

/// A stop request stays for the rest of the run: neither a further stop
/// request nor a start request that finds the task alive takes it back.
pub proof fn law_stop_request_stays(state: HandleState)
    requires
        state.stop_requested,
    ensures
        state.stopped().stop_requested,
        state.started(false).0.stop_requested,
{
}

/// A stop request ends the task at its next turn, whatever that turn
/// receives. A start request that finds the task finished spawns a new one,
/// whose run begins without a stop request; one that finds the task alive
/// spawns none and changes nothing, so that no two tasks run at a time.
pub proof fn law_restart(state: HandleState, received: Received)
    ensures
        action_after_turn(received, state.stopped().stop_requested) == WorkerAction::Exit,
        state.stopped().started(true) == (HandleState { stop_requested: false }, true),
        state.stopped().started(true).0.started(false) == (state.stopped().started(true).0, false),
        state.started(false) == (state, false),
{
}

} // verus!
