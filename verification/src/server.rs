//! What the request layer answers from the registry.

use crate::pin_handle::level::PinLevel;
use crate::pin_handle::pin::InterruptablePin;
use crate::pin_handle::registry::PinRegistry;
use vstd::prelude::*;

verus! {

/// The identifier of the line that the door's lock is wired to.
pub const DOOR_PIN: usize = 3;

/// Why a status request cannot be answered.
#[derive(Debug, Clone, Copy, PartialEq, Eq, Structural)]
pub enum StatusError {
    /// No signal was ever observed on the line, so its level is unknown.
    NoEntry,
}

impl StatusError {
    /// The text that goes to the client.
    pub fn message(&self) -> (text: String)
        ensures
            text@ == "Couldn't get the state, no entry in dictionary"@,
    {
        match self {
            StatusError::NoEntry => "Couldn't get the state, no entry in dictionary".to_owned(),
        }
    }
}

/// The lock status that a level of the door's line stands for. A line that
/// was never observed has no status: it is not taken for either level.
pub open spec fn lock_status(level: Option<PinLevel>) -> Result<bool, StatusError> {
    match level {
        Some(PinLevel::High) => Ok(true),
        Some(PinLevel::Low) => Ok(false),
        None => Err(StatusError::NoEntry),
    }
}

/// Answers a status request: the lock status of the door, from the level last
/// observed on `DOOR_PIN`.
pub fn door_status<T: InterruptablePin>(registry: &PinRegistry<T>) -> (status: Result<
    bool,
    StatusError,
>)
    ensures
        status == lock_status(registry@.level(DOOR_PIN)),
{
    match registry.get_pin_level(DOOR_PIN) {
        Some(PinLevel::High) => Ok(true),
        Some(PinLevel::Low) => Ok(false),
        None => Err(StatusError::NoEntry),
    }
}

} // verus!
