//! The states, wishes and events of the supervisor.
//!
//! Instants are milliseconds on a monotonic clock chosen by the caller.
use vstd::prelude::*;

verus! {

/// What the supervisor is asked to keep the child at.
#[derive(Debug, Clone, Copy, PartialEq, Eq, Structural)]
pub enum WantedState {
    Running,
    Stopped,
}

/// Where the child stands.
#[derive(Debug, Clone, Copy, PartialEq, Eq, Structural)]
pub enum ProcessState {
    /// No child.
    Stopped,
    /// A child runs, but its start-up grace period has not yet passed.
    Watching { pid: i32, timeout_at: u64, attempt: u16 },
    /// No child; the next spawn is due at `timeout_at`.
    WaitingRestart { timeout_at: u64, attempt: u16 },
    /// The child started successfully.
    Running { pid: i32 },
    Stopping(StoppingState),
}

/// The steps of stopping a child, each harsher than the one before.
#[derive(Debug, Clone, Copy, PartialEq, Eq, Structural)]
pub enum StoppingState {
    /// The stop command went to the child's standard input.
    Command { timeout_at: u64, pid: i32 },
    /// SIGTERM was sent.
    Terminate { timeout_at: u64, pid: i32 },
    /// SIGKILL was sent; the child is awaiting its reap.
    Kill { pid: i32 },
}

/// One input to the state machine.
#[derive(Debug, Clone, Copy, PartialEq, Eq, Structural)]
pub enum Event {
    Start,
    Stop,
    ProcessExited { pid: i32, exit_code: i32 },
    TimeoutReached,
}

/// A request from another component to the supervisor.
#[derive(Debug, Clone, Copy, PartialEq, Eq, Structural)]
pub enum Controls {
    Start,
    Stop,
}

impl Event {
    /// The event that a control request stands for.
    pub fn from_control(c: Controls) -> (r: Event)
        ensures
            c is Start ==> r is Start,
            c is Stop ==> r is Stop,
    {
        match c {
            Controls::Start => Event::Start,
            Controls::Stop => Event::Stop,
        }
    }
}

} // verus!
