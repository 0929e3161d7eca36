//! Tasks of the task execution service.

pub mod file;

use vstd::prelude::*;

verus! {

/// State of a TES task.
#[derive(Debug, Clone, Copy, PartialEq, Eq, Structural)]
pub enum State {
    /// An unknown state.
    Unknown,
    /// A queued task.
    Queued,
    /// A task that is initializing.
    Initializing,
    /// A task that is running.
    Running,
    /// A task that is paused.
    Paused,
    /// A task that has completed.
    Complete,
    /// A task that has errored during execution.
    ExecutorError,
    /// A task that has encountered a system error.
    SystemError,
    /// A task that has been cancelled.
    Canceled,
}

impl Default for State {
    fn default() -> (r: Self)
        ensures
            r is Unknown,
    {
        State::Unknown
    }
}

impl State {
    /// The states in which a task has not come to an end.
    pub open spec fn executing(self) -> bool {
        self is Unknown || self is Queued || self is Initializing || self is Running
            || self is Paused
    }

    /// The states in which a task has come to an end.
    pub open spec fn terminal(self) -> bool {
        self is Complete || self is ExecutorError || self is SystemError || self is Canceled
    }

    /// Returns whether a task is still executing or not.
    pub fn is_executing(&self) -> (r: bool)
        ensures
            r == self.executing(),
            r == !self.terminal(),
    {
        match self {
            State::Unknown
            | State::Queued
            | State::Initializing
            | State::Running
            | State::Paused => true,
            _ => false,
        }
    }
}

} // verus!
