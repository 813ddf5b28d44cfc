//! The update worker: what it does with each thing it receives, and when a
//! new one may be started.
//!
//! The worker is a task that repeats two steps until it is told to exit: it
//! waits on the consuming end of the signal channel with `wait_for_signal`,
//! and takes its turn on what the wait brought with `worker_turn`. The task
//! and its loop are the caller's, so that the registry need not be held while
//! the worker waits. A wait lasts `RECEIVE_TIMEOUT_MILLIS` at most: a stop
//! request is seen after one timeout at the latest, also while no signal
//! arrives.

use super::channel::{open_channel, receive, span_of_millis, Received, SIGNAL_QUEUE_CAPACITY};
use super::level::PinSignal;
use super::pin::InterruptablePin;
use super::registry::{PinRegistry, RegistryState};
use std::sync::mpsc::Receiver;
use vstd::prelude::*;

verus! {

/// The longest that one wait on the signal channel lasts, in milliseconds.
pub const RECEIVE_TIMEOUT_MILLIS: u64 = 100;

/// What the worker does after a turn.
#[derive(Debug, Clone, Copy, PartialEq, Eq, Structural)]
pub enum WorkerAction {
    /// Wait on the channel once more.
    Wait,
    /// End the task.
    Exit,
}

/// The signals written after a turn on `received`: a signal received is
/// written, and nothing else is.
pub open spec fn written_after_turn(written: Seq<PinSignal>, received: Received) -> Seq<PinSignal> {
    match received {
        Received::Signal(pin_id, level) => written.push((pin_id, level)),
        Received::TimedOut => written,
        Received::Disconnected => written,
    }
}

/// The action after a turn on `received`: the worker ends on a closed channel
/// and on a stop request, and goes on otherwise.
pub open spec fn action_after_turn(received: Received, stop_requested: bool) -> WorkerAction {
    if stop_requested || received == Received::Disconnected {
        WorkerAction::Exit
    } else {
        WorkerAction::Wait
    }
}

/// One wait of the update worker: until a signal arrives, the channel is
/// closed, or `RECEIVE_TIMEOUT_MILLIS` have passed.
///
/// Which of the three it is, and which signal, is the senders' doing, so
/// nothing is promised of what the wait brings. What the worker does with
/// each thing that it can bring is said by `worker_turn`.
pub fn wait_for_signal(receiver: &Receiver<PinSignal>) -> (received: Received) {
    receive(receiver, span_of_millis(RECEIVE_TIMEOUT_MILLIS))
}

/// One turn of the update worker.
///
/// `received` is what the wait brought, `stop_requested` the stop flag as
/// read after the wait. A signal is written even when a stop is requested, so
/// that no signal taken from the channel is lost.
pub fn worker_turn<T: InterruptablePin>(
    registry: &mut PinRegistry<T>,
    received: Received,
    stop_requested: bool,
) -> (action: WorkerAction)
    ensures
        final(registry)@ == (RegistryState {
            written: written_after_turn(old(registry)@.written, received),
            ..old(registry)@
        }),
        old(registry)@.well_formed() ==> final(registry)@.well_formed(),
        action == action_after_turn(received, stop_requested),
{
    match received {
        Received::Signal(pin_id, level) => {
            registry.set_pin_level(pin_id, level);
            if stop_requested {
                WorkerAction::Exit
            } else {
                WorkerAction::Wait
            }
        },
        Received::TimedOut => {
            if stop_requested {
                WorkerAction::Exit
            } else {
                WorkerAction::Wait
            }
        },
        Received::Disconnected => WorkerAction::Exit,
    }
}

/// What a worker's handle knows: whether a stop was requested of the task
/// that runs now.
pub ghost struct HandleState {
    pub stop_requested: bool,
}

impl HandleState {
    /// The state after a stop request.
    pub open spec fn stopped(self) -> HandleState {
        HandleState { stop_requested: true }
    }

    /// The state after a start request, and whether a task is to be spawned.
    /// One is if and only if the previous task has finished, and its run
    /// begins without a stop request.
    pub open spec fn started(self, finished: bool) -> (HandleState, bool) {
        if finished {
            (HandleState { stop_requested: false }, true)
        } else {
            (self, false)
        }
    }
}

/// The handle of the update worker.
///
/// A stop request is set once per run and never taken back during it;
/// starting a new task begins a new run without a request.
#[derive(Debug)]
pub struct PinHandle {
    stop: bool,
}

impl View for PinHandle {
    type V = HandleState;

    closed spec fn view(&self) -> HandleState {
        HandleState { stop_requested: self.stop }
    }
}

impl PinHandle {
    /// The handle of a task that was just started.
    pub fn new() -> (handle: Self)
        ensures
            !handle@.stop_requested,
    {
        PinHandle { stop: false }
    }

    /// Whether a stop was requested of the current task: what the task is
    /// told at each of its turns.
    pub fn is_stop_requested(&self) -> (stop: bool)
        ensures
            stop == self@.stop_requested,
    {
        self.stop
    }

    /// Requests the current task to stop. The task ends at its next turn.
    pub fn stop_thread(&mut self)
        ensures
            final(self)@ == old(self)@.stopped(),
    {
        self.stop = true;
    }

    /// Decides on a start request. `finished` says whether the previous task
    /// has ended. If it has, a new task is to be spawned, and the new run
    /// begins without a stop request; if it has not, nothing changes and no
    /// second task may be spawned.
    pub fn start_thread(&mut self, finished: bool) -> (spawned: bool)
        ensures
            (final(self)@, spawned) == old(self)@.started(finished),
    {
        if finished {
            self.stop = false;
            true
        } else {
            false
        }
    }
}

/// Opens the signal channel and makes the registry that sends into it and the
/// handle of the worker that is to drain it. The consuming end is returned for
/// the worker's task, which the caller starts.
pub fn init_handle<T: InterruptablePin>() -> (parts: (
    PinHandle,
    PinRegistry<T>,
    Receiver<PinSignal>,
))
    ensures
        !parts.0@.stop_requested,
        parts.1@.written == Seq::<PinSignal>::empty(),
        parts.1@.pins == Map::<usize, T>::empty(),
        parts.1@.well_formed(),
{
    let (sender, receiver) = open_channel(SIGNAL_QUEUE_CAPACITY);
    let pin_registry = PinRegistry::new(sender);
    let pin_handle = PinHandle::new();
    (pin_handle, pin_registry, receiver)
}

} // verus!
