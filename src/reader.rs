//! The task that reads frames from the connection and echoes them.
use vstd::prelude::*;

use crate::frame::Frame;
use crate::task::{after_result, TaskState};

verus! {

/// How one bounded wait for an incoming frame ended.
#[derive(Clone, Debug, PartialEq, Eq)]
pub enum ReadOutcome {
    /// A frame arrived.
    Received(Frame),
    /// The connection reported an error.
    Failed,
    /// The connection has no more frames.
    Ended,
    /// The wait ran out before anything arrived.
    TimedOut,
}

/// What the reader asks for after one bounded wait.
#[derive(Clone, Debug, PartialEq, Eq)]
pub enum ReaderAction {
    /// Release the connection and queue this frame for the writer, unchanged.
    Echo(Frame),
    /// Release the connection, so that the writer can take it, and wait again.
    Retry,
    /// Leave the loop: the reader has terminated.
    Stop,
}

/// The action of a reader in `state` after a wait that ended with `outcome`.
///
/// A read error is handled as if nothing had arrived: the reader goes on
/// waiting rather than terminating, and so does it once the connection has
/// ended. Only a queue that refuses an echo ends the reader.
pub open spec fn reader_action(state: TaskState, outcome: ReadOutcome) -> ReaderAction {
    match state {
        TaskState::Running => match outcome {
            ReadOutcome::Received(f) => ReaderAction::Echo(f),
            _ => ReaderAction::Retry,
        },
        TaskState::Terminated => ReaderAction::Stop,
    }
}

/// Whether `outcome` brought no frame.
pub open spec fn is_idle(outcome: ReadOutcome) -> bool {
    !(outcome is Received)
}

/// The decisions of the task that echoes incoming frames.
#[derive(Clone, Copy, Debug, PartialEq, Eq, Structural)]
pub struct Reader {
    pub state: TaskState,
}

impl Reader {
    /// A reader of a newly opened connection.
    pub fn new() -> (r: Reader)
        ensures
            r.state == TaskState::Running,
    {
        Reader { state: TaskState::Running }
    }

    /// The action after a wait that ended with `outcome`. Whatever it is, the
    /// reader gives the connection up before its next wait.
    pub fn on_read(&self, outcome: ReadOutcome) -> (a: ReaderAction)
        ensures
            a == reader_action(self.state, outcome),
    {
        if !self.state.is_running() {
            return ReaderAction::Stop;
        }
        match outcome {
            ReadOutcome::Received(f) => ReaderAction::Echo(f),
            _ => ReaderAction::Retry,
        }
    }

    /// Records whether the echoed frame was queued; a queue that refused it
    /// terminates the reader.
    pub fn on_echoed(&mut self, ok: bool)
        ensures
            final(self).state == after_result(old(self).state, ok),
    {
        self.state = self.state.after(ok);
    }
}

/// With no traffic from the client, a running reader stays running and takes
/// no action but to release the connection and wait again, after every wait.
pub proof fn lemma_idle_reader_keeps_releasing(outcomes: Seq<ReadOutcome>)
    requires
        forall|i: int| 0 <= i < outcomes.len() ==> is_idle(#[trigger] outcomes[i]),
    ensures
        forall|i: int|
            0 <= i < outcomes.len() ==> reader_action(TaskState::Running, #[trigger] outcomes[i])
                is Retry,
{
}

} // verus!
