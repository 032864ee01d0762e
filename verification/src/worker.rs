//! The worker protocol: one JSON run request on standard input, then a line
//! of JSON per message on standard output — the run's start, each event,
//! and finally the run's snapshot (or a transport error when the snapshot
//! is gone).  The reading, writing and JSON encoding are the caller's.

use vstd::prelude::*;
use crate::contracts::AgentEvent;
use crate::runtime::RunSnapshot;
use crate::text::{is_blank, owned, str_is_blank, trim, trimmed};

verus! {

/// A message the worker writes.
#[derive(Debug, Clone)]
pub enum WorkerMessage {
    RunStarted { run_id: String, session_id: String },
    Event(AgentEvent),
    Snapshot(RunSnapshot),
    TransportError { message: String },
}

/// The error of an empty request.
pub open spec fn empty_request_message() -> Seq<char> {
    "worker expected a JSON RunRequest on stdin"@
}

/// The transport error when a run's snapshot is missing.
pub open spec fn missing_snapshot_spec(run_id: Seq<char>) -> Seq<char> {
    "run snapshot not found for run_id "@ + run_id
}

/// The worker of the protocol.
pub struct Worker;

impl Worker {
    /// The JSON text of the request read from standard input: the input
    /// trimmed; an error when nothing but whitespace was read.
    pub fn request_text(input: &str) -> (r: Result<String, String>)
        ensures
            is_blank(input@) ==> (r matches Err(m) && m@ == empty_request_message()),
            !is_blank(input@) ==> (r matches Ok(t) && t@ == trim(input@)),
    {
        if str_is_blank(input) {
            Err(owned("worker expected a JSON RunRequest on stdin"))
        } else {
            Ok(trimmed(input))
        }
    }

    /// The message that opens the stream.
    pub fn started(run_id: &str, session_id: &str) -> (m: WorkerMessage)
        ensures
            m matches WorkerMessage::RunStarted { run_id: r, session_id: s } && r@ == run_id@
                && s@ == session_id@,
    {
        WorkerMessage::RunStarted { run_id: owned(run_id), session_id: owned(session_id) }
    }

    /// The message that closes the stream: the run's snapshot, or a
    /// transport error when the engine no longer has it.
    pub fn closing(run_id: &str, snapshot: Option<RunSnapshot>) -> (m: WorkerMessage)
        ensures
            match snapshot {
                Some(s) => m == WorkerMessage::Snapshot(s),
                None => m matches WorkerMessage::TransportError { message } && message@
                    == missing_snapshot_spec(run_id@),
            },
    {
        match snapshot {
            Some(s) => WorkerMessage::Snapshot(s),
            None => {
                let mut message = owned("run snapshot not found for run_id ");
                message.append(run_id);
                WorkerMessage::TransportError { message }
            },
        }
    }
}

} // verus!
