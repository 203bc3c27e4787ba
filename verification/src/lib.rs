//! Durable tasks: a watchdog that counts heartbeats and restarts, and the
//! decision logic of the monitor that restarts a task when it ends, fails or
//! stops sending heartbeats.
//!
//! The asynchronous driver (spawning, sleeping, aborting) lives outside this
//! library and feeds the monitor with events; everything that decides lives
//! here, with its contract.
use vstd::prelude::*;

pub mod span;
pub mod watchdog;
pub mod monitor;
pub mod builder;

verus! {

} // verus!
