//! Core of an idle-timer daemon: a policy-composition framework deciding
//! whether a timer may fire, the state machine of a command-backed timer,
//! and the orchestration loop that multiplexes the engine against signal
//! and control-socket events.
//!
//! The library never performs I/O itself: timers hand back the argv of the
//! command to spawn, the orchestrator consumes already-decoded events, and
//! the surrounding binary does the spawning, probing and socket work.

use vstd::prelude::*;

pub mod modules;
pub mod timer;
pub mod engine;
pub mod orchestrator;

verus! {

/// The value passed to the timer-adjacent policy hooks: which timer in the
/// ordered sequence is being considered, and how long that sequence is.
#[derive(Clone, Copy, PartialEq, Eq, Structural, Debug)]
pub struct TimerInfo {
    /// Position of the timer under consideration in the ordered sequence.
    pub index: usize,
    /// Total number of timers in the sequence.
    pub length: usize,
}

/// The error taxonomy of the core: policy failures are fatal to a run,
/// spawn failures are reported through the `warning` hook, I/O failures
/// surface at the orchestrator, protocol failures stay at one connection.
#[derive(Clone, Copy, PartialEq, Eq, Structural, Debug)]
pub enum Error {
    /// A policy hook failed.
    Policy,
    /// A timer command could not be spawned.
    Spawn,
    /// Socket or signal plumbing failed.
    Io,
    /// A malformed control-socket message.
    Protocol,
}

} // verus!
