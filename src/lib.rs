//! Per-connection logic of a WebSocket relay that echoes what a client sends
//! and pushes a random percentage to it at a fixed period.
//!
//! Each connection runs three tasks around one outbound queue: a writer that
//! drains the queue onto the socket, a reader that echoes incoming frames into
//! the queue, and a ticker that queues a random value in `[0, 100]`. The
//! decisions those tasks take are the state machines of this crate; the
//! program around it performs the socket and queue operations they ask for.
use vstd::prelude::*;

pub mod frame;
pub mod reader;
pub mod task;
pub mod ticker;
pub mod writer;

use crate::frame::Frame;
use crate::reader::{reader_action, ReadOutcome, ReaderAction};
use crate::task::TaskState;
use crate::writer::{attempted_writes, lemma_writes_keep_queue_order};

verus! {

/// A frame that a client sends comes back to it unchanged: the running reader
/// queues exactly the frame it read, and once the writer has taken the frames
/// queued before it, with every write succeeding, that same frame is the last
/// one written.
pub proof fn lemma_echo_reaches_client(f: Frame, before: Seq<Frame>, results: Seq<bool>)
    requires
        results.len() == before.len() + 1,
        forall|i: int| 0 <= i < results.len() ==> results[i],
    ensures
        reader_action(TaskState::Running, ReadOutcome::Received(f)) == ReaderAction::Echo(f),
        attempted_writes(TaskState::Running, before.push(f), results) == before.push(f),
        attempted_writes(TaskState::Running, before.push(f), results).last() == f,
{
    lemma_writes_keep_queue_order(before.push(f), results);
}

} // verus!
