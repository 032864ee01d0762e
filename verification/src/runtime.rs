//! Run life cycle: status, snapshots and cancellation.

use vstd::prelude::*;
use std::sync::Arc;
use std::sync::atomic::{AtomicBool, Ordering};
use crate::selftest::now_ts_ms;

verus! {

/// Where a run stands.
#[derive(Debug, Clone, Copy, PartialEq, Eq, Structural)]
pub enum RunStatus {
    Pending,
    Running,
    WaitingTool,
    WaitingApproval,
    Completed,
    Failed,
    Cancelled,
}

/// Whether a status ends a run.
pub open spec fn is_terminal_spec(s: RunStatus) -> bool {
    s == RunStatus::Completed || s == RunStatus::Failed || s == RunStatus::Cancelled
}

impl RunStatus {
    /// Whether this status ends a run (completed, failed or cancelled).
    pub fn is_terminal(&self) -> (b: bool)
        ensures
            b == is_terminal_spec(*self),
    {
        match self {
            RunStatus::Completed | RunStatus::Failed | RunStatus::Cancelled => true,
            _ => false,
        }
    }
}

/// A point-in-time view of a run.  Times are milliseconds since the Unix
/// epoch.
#[derive(Debug, Clone)]
pub struct RunSnapshot {
    pub run_id: String,
    pub session_id: String,
    pub status: RunStatus,
    pub started_at_ms: i64,
    pub updated_at_ms: i64,
    pub finished_at_ms: Option<i64>,
    pub output: Option<String>,
    pub error_message: Option<String>,
    /// The engine's classification of the failure, when the run failed.
    pub error_code: Option<String>,
}

impl RunSnapshot {
    /// A pending run, started now.
    pub fn new(run_id: String, session_id: String) -> (s: Self)
        ensures
            s.run_id == run_id,
            s.session_id == session_id,
            s.status == RunStatus::Pending,
            s.started_at_ms == s.updated_at_ms,
            s.finished_at_ms is None,
            s.output is None,
            s.error_message is None,
            s.error_code is None,
    {
        let now = now_ts_ms();
        RunSnapshot {
            run_id,
            session_id,
            status: RunStatus::Pending,
            started_at_ms: now,
            updated_at_ms: now,
            finished_at_ms: None,
            output: None,
            error_message: None,
            error_code: None,
        }
    }

    /// Moves the run to `status`.
    pub fn mark_status(&mut self, status: RunStatus)
        ensures
            final(self).status == status,
            final(self).run_id == old(self).run_id,
            final(self).session_id == old(self).session_id,
            final(self).started_at_ms == old(self).started_at_ms,
            final(self).finished_at_ms == old(self).finished_at_ms,
            final(self).output == old(self).output,
            final(self).error_message == old(self).error_message,
            final(self).error_code == old(self).error_code,
    {
        self.status = status;
        self.updated_at_ms = now_ts_ms();
    }

    /// Completes the run with `output`, clearing any error message.
    pub fn mark_completed(&mut self, output: String)
        ensures
            final(self).status == RunStatus::Completed,
            final(self).output == Some(output),
            final(self).error_message is None,
            final(self).finished_at_ms == Some(final(self).updated_at_ms),
            final(self).run_id == old(self).run_id,
            final(self).session_id == old(self).session_id,
            final(self).started_at_ms == old(self).started_at_ms,
            final(self).error_code == old(self).error_code,
    {
        let now = now_ts_ms();
        self.status = RunStatus::Completed;
        self.updated_at_ms = now;
        self.finished_at_ms = Some(now);
        self.output = Some(output);
        self.error_message = None;
    }

    /// Fails the run with `message` and, when the engine classified the
    /// failure, its code.
    pub fn mark_failed(&mut self, message: String, error_code: Option<String>)
        ensures
            final(self).status == RunStatus::Failed,
            final(self).error_message == Some(message),
            final(self).error_code == error_code,
            final(self).finished_at_ms == Some(final(self).updated_at_ms),
            final(self).output == old(self).output,
            final(self).run_id == old(self).run_id,
            final(self).session_id == old(self).session_id,
            final(self).started_at_ms == old(self).started_at_ms,
    {
        let now = now_ts_ms();
        self.status = RunStatus::Failed;
        self.updated_at_ms = now;
        self.finished_at_ms = Some(now);
        self.error_message = Some(message);
        self.error_code = error_code;
    }

    /// Cancels the run.
    pub fn mark_cancelled(&mut self)
        ensures
            final(self).status == RunStatus::Cancelled,
            final(self).finished_at_ms == Some(final(self).updated_at_ms),
            final(self).output == old(self).output,
            final(self).error_message == old(self).error_message,
            final(self).error_code == old(self).error_code,
            final(self).run_id == old(self).run_id,
            final(self).session_id == old(self).session_id,
            final(self).started_at_ms == old(self).started_at_ms,
    {
        let now = now_ts_ms();
        self.status = RunStatus::Cancelled;
        self.updated_at_ms = now;
        self.finished_at_ms = Some(now);
    }
}

/// A flag shared by all clones of a token, which any of them can raise to
/// ask the run to stop.
///
/// The flag is an atomic that other threads may raise at any time, so what a
/// read returns is not stated.
#[derive(Clone)]
pub struct CancellationToken {
    inner: Arc<AtomicBool>,
}

impl Default for CancellationToken {
    fn default() -> (t: Self) {
        CancellationToken { inner: Arc::new(AtomicBool::new(false)) }
    }
}

impl CancellationToken {
    /// Raises the flag, for this token and all its clones.
    pub fn cancel(&self) {
        self.inner.store(true, Ordering::SeqCst);
    }

    /// Reads the flag.
    pub fn is_cancelled(&self) -> bool {
        self.inner.load(Ordering::SeqCst)
    }
}

} // verus!
