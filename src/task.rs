//! What every per-connection task shares: its two states and the fixed
//! parameters of a connection.
use vstd::prelude::*;

verus! {

/// Capacity of a connection's outbound queue; producers wait while it is full.
pub const CHANNEL_CAPACITY: usize = 32;

/// How long, in milliseconds, the reader holds the connection waiting for a
/// frame before it releases the connection and tries again.
pub const READ_TIMEOUT_MS: u64 = 100;

/// Period, in milliseconds, of the ticker.
pub const TICK_PERIOD_MS: u64 = 5000;

/// The life of a task: it runs until it meets an error it cannot recover
/// from, and then stays terminated.
#[derive(Clone, Copy, Debug, PartialEq, Eq, Structural)]
pub enum TaskState {
    Running,
    Terminated,
}

/// The state a task is in after an operation whose success was `ok`: a
/// failure terminates it, a success leaves it as it was.
pub open spec fn after_result(state: TaskState, ok: bool) -> TaskState {
    if ok {
        state
    } else {
        TaskState::Terminated
    }
}

impl TaskState {
    /// Whether the task is still running.
    pub fn is_running(&self) -> (r: bool)
        ensures
            r == (*self == TaskState::Running),
    {
        match self {
            TaskState::Running => true,
            TaskState::Terminated => false,
        }
    }

    /// The state after an operation whose success was `ok`.
    pub fn after(self, ok: bool) -> (r: TaskState)
        ensures
            r == after_result(self, ok),
    {
        if ok {
            self
        } else {
            TaskState::Terminated
        }
    }
}

} // verus!
