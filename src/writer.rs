//! The task that drains the outbound queue onto the connection.
use vstd::prelude::*;

use crate::frame::Frame;
use crate::task::{after_result, TaskState};

verus! {

/// What the writer asks for after the queue handed it something.
#[derive(Clone, Debug, PartialEq, Eq)]
pub enum WriterAction {
    /// Take the connection and write this frame to it.
    Write(Frame),
    /// Leave the loop: the queue is closed or the writer has terminated.
    Stop,
}

/// The action of a writer in `state` given what the queue handed out, which is
/// `None` once the queue is closed.
pub open spec fn writer_action(state: TaskState, item: Option<Frame>) -> WriterAction {
    match state {
        TaskState::Running => match item {
            Some(f) => WriterAction::Write(f),
            None => WriterAction::Stop,
        },
        TaskState::Terminated => WriterAction::Stop,
    }
}

/// The state of a writer in `state` once the queue handed out `item`: a
/// closed queue terminates it.
pub open spec fn writer_state_after_item(state: TaskState, item: Option<Frame>) -> TaskState {
    match item {
        Some(_) => state,
        None => TaskState::Terminated,
    }
}

/// The frames that a writer in `state` hands to the connection when the queue
/// hands it `items` one after another and its `i`-th write succeeds exactly
/// when `results[i]` holds.
pub open spec fn attempted_writes(state: TaskState, items: Seq<Frame>, results: Seq<bool>) -> Seq<
    Frame,
>
    decreases items.len(),
{
    if items.len() == 0 || results.len() == 0 {
        Seq::empty()
    } else {
        match writer_action(state, Some(items[0])) {
            WriterAction::Write(f) => seq![f] + attempted_writes(
                after_result(writer_state_after_item(state, Some(items[0])), results[0]),
                items.drop_first(),
                results.drop_first(),
            ),
            WriterAction::Stop => Seq::empty(),
        }
    }
}

/// The decisions of the task that writes queued frames to the connection.
#[derive(Clone, Copy, Debug, PartialEq, Eq, Structural)]
pub struct Writer {
    pub state: TaskState,
}

impl Writer {
    /// A writer of a newly opened connection.
    pub fn new() -> (w: Writer)
        ensures
            w.state == TaskState::Running,
    {
        Writer { state: TaskState::Running }
    }

    /// The action for what the queue handed out: `Some` frame, or `None` once
    /// every producer is gone.
    pub fn on_item(&mut self, item: Option<Frame>) -> (a: WriterAction)
        ensures
            a == writer_action(old(self).state, item),
            final(self).state == writer_state_after_item(old(self).state, item),
    {
        match item {
            Some(f) => {
                if self.state.is_running() {
                    WriterAction::Write(f)
                } else {
                    WriterAction::Stop
                }
            },
            None => {
                self.state = TaskState::Terminated;
                WriterAction::Stop
            },
        }
    }

    /// Records whether the last write reached the connection; a failed write
    /// terminates the writer.
    pub fn on_written(&mut self, ok: bool)
        ensures
            final(self).state == after_result(old(self).state, ok),
    {
        self.state = self.state.after(ok);
    }
}

/// A terminated writer writes nothing more, whatever the queue still holds.
pub proof fn lemma_terminated_writer_writes_nothing(items: Seq<Frame>, results: Seq<bool>)
    ensures
        attempted_writes(TaskState::Terminated, items, results) == Seq::<Frame>::empty(),
{
}

/// While every write succeeds, the writer hands the connection exactly the
/// frames the queue handed it, in the same order, none left out and none
/// repeated.
pub proof fn lemma_writes_keep_queue_order(items: Seq<Frame>, results: Seq<bool>)
    requires
        results.len() == items.len(),
        forall|i: int| 0 <= i < results.len() ==> results[i],
    ensures
        attempted_writes(TaskState::Running, items, results) == items,
    decreases items.len(),
{
    if items.len() > 0 {
        lemma_writes_keep_queue_order(items.drop_first(), results.drop_first());
        assert(seq![items[0]] + items.drop_first() =~= items);
    }
}

/// Once a write fails, the frames queued after it never reach the
/// connection: the writer's attempts are the queued frames up to and
/// including the one whose write failed.
pub proof fn lemma_write_failure_stops_delivery(items: Seq<Frame>, results: Seq<bool>, k: int)
    requires
        results.len() == items.len(),
        0 <= k < items.len(),
        forall|i: int| 0 <= i < k ==> results[i],
        !results[k],
    ensures
        attempted_writes(TaskState::Running, items, results) == items.take(k + 1),
    decreases items.len(),
{
    if k == 0 {
        lemma_terminated_writer_writes_nothing(items.drop_first(), results.drop_first());
        assert(seq![items[0]] =~= items.take(1));
    } else {
        lemma_write_failure_stops_delivery(items.drop_first(), results.drop_first(), k - 1);
        assert(seq![items[0]] + items.drop_first().take(k) =~= items.take(k + 1));
    }
}

} // verus!
