//! The pin-level interrupt registry and the lifecycle of its update worker.

pub mod channel;
pub mod laws;
pub mod level;
pub mod pin;
pub mod registry;
pub mod worker;

pub use channel::{Received, SIGNAL_QUEUE_CAPACITY};
pub use level::{LevelStore, PinLevel, PinSignal};
pub use pin::{send_signal, InterruptablePin};
pub use registry::{PinRegistry, RegistryState};
pub use worker::{
    init_handle, wait_for_signal, worker_turn, HandleState, PinHandle, WorkerAction,
    RECEIVE_TIMEOUT_MILLIS,
};
