//! Tracks the last observed level of hardware signal lines.
//!
//! Pins report their edges through a channel; an update worker writes each
//! signal into the registry, and readers ask the registry for the level last
//! observed on a line. A line that was never observed has no level, which is
//! not the same as either level.
//!
//! The registry and the worker's decisions are sequential code with
//! contracts. What runs them concurrently (the lock around the registry, the
//! worker's thread, the wait on the channel) is the caller's: the caller
//! waits, and hands each thing received to [`pin_handle::worker_turn`].

pub mod pin_handle;
pub mod server;
