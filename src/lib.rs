//! A supervisor for one long-running child program: the state machine that
//! decides when to start, watch, restart and stop the child, the stream hub
//! that fans its output out, and the scheduler that fires timed actions.

pub mod config;
pub mod types;
pub mod supervisor;
pub mod history;
pub mod hub;
pub mod backup;
pub mod command;
pub mod schedule;
