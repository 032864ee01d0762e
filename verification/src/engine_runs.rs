//! The engine's table of runs: each submitted run has a snapshot that the
//! run updates as it goes and a cancellation token that `cancel_run` raises.
//! Also the choice of strategy for a request.

use vstd::prelude::*;
use crate::contracts::{AgentEvent, ExecutionStrategy, RunRequest, RunResult};
use crate::error::{error_code_spec, error_detail, error_prefix, ZeneError};
use crate::text::owned;
use crate::host::final_status_spec;
use crate::runtime::{CancellationToken, RunSnapshot, RunStatus};
use crate::strmap::StrMap;

verus! {

/// The strategy used when a request names none: direct in simple mode,
/// planned otherwise.
pub open spec fn default_strategy_spec(simple_mode: bool) -> ExecutionStrategy {
    if simple_mode {
        ExecutionStrategy::Direct
    } else {
        ExecutionStrategy::Planned
    }
}

/// The strategy used when a request names none.
pub fn default_strategy(simple_mode: bool) -> (s: ExecutionStrategy)
    ensures
        s == default_strategy_spec(simple_mode),
{
    if simple_mode {
        ExecutionStrategy::Direct
    } else {
        ExecutionStrategy::Planned
    }
}

/// The strategy a request runs with: its own, else the default.
pub fn request_strategy(request: &RunRequest, simple_mode: bool) -> (s: ExecutionStrategy)
    ensures
        s == match request.strategy {
            Some(st) => st,
            None => default_strategy_spec(simple_mode),
        },
{
    match request.strategy {
        Some(st) => st,
        None => default_strategy(simple_mode),
    }
}

/// The last event of a submitted run: its output when it succeeded, else a
/// `RUN_FAILED` error with the failure's message.
pub fn run_end_event(result: &Result<RunResult, ZeneError>) -> (e: AgentEvent)
    ensures
        match result {
            Ok(r) => e == AgentEvent::Finished(r.output),
            Err(err) => e matches AgentEvent::Error { code, message } && code@ == "RUN_FAILED"@
                && message@ == error_prefix(*err) + error_detail(*err),
        },
{
    match result {
        Ok(r) => AgentEvent::Finished(r.output.clone()),
        Err(err) => AgentEvent::Error { code: owned("RUN_FAILED"), message: err.message() },
    }
}

/// A run's snapshot and the token that cancels it.
pub struct RunEntry {
    pub snapshot: RunSnapshot,
    pub cancellation: CancellationToken,
}

/// A copy of a snapshot.
pub fn copy_snapshot(s: &RunSnapshot) -> (r: RunSnapshot)
    ensures
        r == *s,
{
    RunSnapshot {
        run_id: s.run_id.clone(),
        session_id: s.session_id.clone(),
        status: s.status,
        started_at_ms: s.started_at_ms,
        updated_at_ms: s.updated_at_ms,
        finished_at_ms: s.finished_at_ms,
        output: match &s.output {
            Some(o) => Some(o.clone()),
            None => None,
        },
        error_message: match &s.error_message {
            Some(m) => Some(m.clone()),
            None => None,
        },
        error_code: match &s.error_code {
            Some(c) => Some(c.clone()),
            None => None,
        },
    }
}

/// `b` is `a` moved to `status` (at a later time).
pub open spec fn status_marked(a: RunSnapshot, b: RunSnapshot, status: RunStatus) -> bool {
    &&& b.status == status
    &&& b.run_id == a.run_id
    &&& b.session_id == a.session_id
    &&& b.started_at_ms == a.started_at_ms
    &&& b.finished_at_ms == a.finished_at_ms
    &&& b.output == a.output
    &&& b.error_message == a.error_message
    &&& b.error_code == a.error_code
}

/// `b` is `a` completed with `output`.
pub open spec fn completed_with(a: RunSnapshot, b: RunSnapshot, output: String) -> bool {
    &&& b.status == RunStatus::Completed
    &&& b.output == Some(output)
    &&& b.error_message is None
    &&& b.finished_at_ms == Some(b.updated_at_ms)
    &&& b.run_id == a.run_id
    &&& b.session_id == a.session_id
    &&& b.started_at_ms == a.started_at_ms
    &&& b.error_code == a.error_code
}

/// `b` is `a` failed with `message` and `code`.
pub open spec fn failed_with(a: RunSnapshot, b: RunSnapshot, message: String, code: Option<String>) -> bool {
    &&& b.status == RunStatus::Failed
    &&& b.error_message == Some(message)
    &&& b.error_code == code
    &&& b.finished_at_ms == Some(b.updated_at_ms)
    &&& b.output == a.output
    &&& b.run_id == a.run_id
    &&& b.session_id == a.session_id
    &&& b.started_at_ms == a.started_at_ms
}

/// `b` is `a` cancelled.
pub open spec fn cancelled(a: RunSnapshot, b: RunSnapshot) -> bool {
    &&& b.status == RunStatus::Cancelled
    &&& b.finished_at_ms == Some(b.updated_at_ms)
    &&& b.output == a.output
    &&& b.error_message == a.error_message
    &&& b.error_code == a.error_code
    &&& b.run_id == a.run_id
    &&& b.session_id == a.session_id
    &&& b.started_at_ms == a.started_at_ms
}

/// `after` is `before` with only the run `k` changed (when it is known);
/// an unknown run leaves everything unchanged.
pub open spec fn only_changed(
    before: Map<Seq<char>, RunSnapshot>,
    after: Map<Seq<char>, RunSnapshot>,
    k: Seq<char>,
) -> bool {
    &&& after.dom() == before.dom()
    &&& forall|j: Seq<char>| #[trigger] before.dom().contains(j) && j != k ==> after[j] == before[j]
    &&& !before.dom().contains(k) ==> after == before
}

/// Every run of `before` whose snapshot is cancelled is still known in
/// `after` and still cancelled.
pub open spec fn keeps_cancelled(
    before: Map<Seq<char>, RunSnapshot>,
    after: Map<Seq<char>, RunSnapshot>,
) -> bool {
    forall|j: Seq<char>|
        #[trigger] before.dom().contains(j) && before[j].status == RunStatus::Cancelled
            ==> after.dom().contains(j) && after[j].status == RunStatus::Cancelled
}

/// The run `k` is known and its snapshot is cancelled.
pub open spec fn was_cancelled(runs: Map<Seq<char>, RunSnapshot>, k: Seq<char>) -> bool {
    runs.dom().contains(k) && runs[k].status == RunStatus::Cancelled
}

/// Law: cancelling a run the engine knows is reported to the host as a
/// cancellation.  When `cancel_run` finds the run, its snapshot afterwards
/// is cancelled, so the run's final message carries the status "CANCELED";
/// when it does not, no snapshot changes.
pub proof fn law_cancel_reports_canceled(
    before: Map<Seq<char>, RunSnapshot>,
    after: Map<Seq<char>, RunSnapshot>,
    run_id: Seq<char>,
    found: bool,
)
    requires
        found == before.dom().contains(run_id),
        only_changed(before, after, run_id),
        found ==> cancelled(before[run_id], after[run_id]),
    ensures
        found ==> after.dom().contains(run_id) && final_status_spec(after[run_id].status)
            == "CANCELED"@,
        !found ==> after == before,
{
}

/// Law: a cancellation that `cancel_run` accepted stays reported.  Take the
/// snapshots `before` a `cancel_run` that found `run_id`, then the snapshots
/// after it (`states[0]`) and after each later operation on the table
/// (`states[1]`, `states[2]`, ...), each of which keeps cancelled runs
/// cancelled, as every operation but `register_run` does.  Then in every one
/// of these states the run is known and its final message carries the
/// status "CANCELED", whatever completions, failures or status changes the
/// run reported after the cancel.
pub proof fn law_cancel_stays_canceled(
    before: Map<Seq<char>, RunSnapshot>,
    states: Seq<Map<Seq<char>, RunSnapshot>>,
    run_id: Seq<char>,
)
    requires
        before.dom().contains(run_id),
        states.len() > 0,
        only_changed(before, states[0], run_id),
        cancelled(before[run_id], states[0][run_id]),
        forall|i: int| #![trigger states[i]] 0 < i < states.len() ==> keeps_cancelled(states[i - 1], states[i]),
    ensures
        forall|i: int|
            0 <= i < states.len() ==> #[trigger] states[i].dom().contains(run_id)
                && final_status_spec(states[i][run_id].status) == "CANCELED"@,
{
    assert(states[0].dom().contains(run_id));
    assert forall|i: int| 0 <= i < states.len() implies #[trigger] states[i].dom().contains(run_id)
        && final_status_spec(states[i][run_id].status) == "CANCELED"@ by {
        lemma_cancelled_at(states, run_id, i);
    }
}

/// The run is known and cancelled in `states[k]` when it is in `states[0]`
/// and each step keeps cancelled runs cancelled.
proof fn lemma_cancelled_at(states: Seq<Map<Seq<char>, RunSnapshot>>, run_id: Seq<char>, k: int)
    requires
        0 <= k < states.len(),
        states[0].dom().contains(run_id),
        states[0][run_id].status == RunStatus::Cancelled,
        forall|i: int| #![trigger states[i]] 0 < i < states.len() ==> keeps_cancelled(states[i - 1], states[i]),
    ensures
        states[k].dom().contains(run_id),
        states[k][run_id].status == RunStatus::Cancelled,
    decreases k,
{
    if k > 0 {
        lemma_cancelled_at(states, run_id, k - 1);
        let prev = states[k - 1];
        assert(keeps_cancelled(prev, states[k]));
        assert(prev.dom().contains(run_id));
    }
}

/// The runs of an engine, by run id.
pub struct RunTable {
    runs: StrMap<RunEntry>,
}

impl RunTable {
    /// The table's invariant.
    pub closed spec fn wf(&self) -> bool {
        self.runs.wf()
    }

    /// The snapshots, by run id.
    pub closed spec fn snapshots(&self) -> Map<Seq<char>, RunSnapshot> {
        self.runs.map().map_values(|e: RunEntry| e.snapshot)
    }

    /// An empty table.
    pub fn new() -> (t: Self)
        ensures
            t.wf(),
            t.snapshots() == Map::<Seq<char>, RunSnapshot>::empty(),
    {
        let t = RunTable { runs: StrMap::new() };
        assert(t.snapshots() =~= Map::<Seq<char>, RunSnapshot>::empty());
        t
    }

    /// Registers a new pending run.
    pub fn register_run(&mut self, run_id: String, session_id: String, cancellation: CancellationToken)
        requires
            old(self).wf(),
        ensures
            final(self).wf(),
            final(self).snapshots().dom() == old(self).snapshots().dom().insert(run_id@),
            forall|j: Seq<char>|
                #[trigger] old(self).snapshots().dom().contains(j) && j != run_id@
                    ==> final(self).snapshots()[j] == old(self).snapshots()[j],
            final(self).snapshots()[run_id@].run_id == run_id,
            final(self).snapshots()[run_id@].session_id == session_id,
            final(self).snapshots()[run_id@].status == RunStatus::Pending,
            final(self).snapshots()[run_id@].finished_at_ms is None,
            final(self).snapshots()[run_id@].output is None,
            final(self).snapshots()[run_id@].error_message is None,
            final(self).snapshots()[run_id@].error_code is None,
    {
        let key = run_id.clone();
        let snapshot = RunSnapshot::new(run_id, session_id);
        let ghost s = snapshot;
        self.runs.insert(key.as_str(), RunEntry { snapshot, cancellation });
        assert(self.snapshots() =~= old(self).snapshots().insert(key@, s));
    }

    /// A copy of the snapshot of `run_id`, if the run is known.
    pub fn get_run_snapshot(&self, run_id: &str) -> (r: Option<RunSnapshot>)
        requires
            self.wf(),
        ensures
            match r {
                Some(s) => self.snapshots().dom().contains(run_id@) && s == self.snapshots()[run_id@],
                None => !self.snapshots().dom().contains(run_id@),
            },
    {
        match self.runs.get(run_id) {
            Some(e) => Some(copy_snapshot(&e.snapshot)),
            None => None,
        }
    }

    /// Moves a known run to `status`.  A cancelled run stays as it is: a
    /// cancel the engine accepted is what the run reports.
    pub fn update_run_status(&mut self, run_id: &str, status: RunStatus)
        requires
            old(self).wf(),
        ensures
            final(self).wf(),
            only_changed(old(self).snapshots(), final(self).snapshots(), run_id@),
            keeps_cancelled(old(self).snapshots(), final(self).snapshots()),
            was_cancelled(old(self).snapshots(), run_id@) ==> final(self).snapshots() == old(
                self,
            ).snapshots(),
            old(self).snapshots().dom().contains(run_id@) && !was_cancelled(old(self).snapshots(), run_id@)
                ==> status_marked(old(self).snapshots()[run_id@], final(self).snapshots()[run_id@], status),
    {
        if let Some(mut e) = self.runs.remove(run_id) {
            let keep = e.snapshot.status == RunStatus::Cancelled;
            if !keep {
                e.snapshot.mark_status(status);
            }
            let ghost s = e.snapshot;
            self.runs.insert(run_id, e);
            assert(self.snapshots() =~= old(self).snapshots().insert(run_id@, s));
        } else {
            assert(self.snapshots() =~= old(self).snapshots());
        }
    }

    /// Completes a known run with `output`.  A cancelled run stays as it is.
    pub fn mark_run_completed(&mut self, run_id: &str, output: String)
        requires
            old(self).wf(),
        ensures
            final(self).wf(),
            only_changed(old(self).snapshots(), final(self).snapshots(), run_id@),
            keeps_cancelled(old(self).snapshots(), final(self).snapshots()),
            was_cancelled(old(self).snapshots(), run_id@) ==> final(self).snapshots() == old(
                self,
            ).snapshots(),
            old(self).snapshots().dom().contains(run_id@) && !was_cancelled(old(self).snapshots(), run_id@)
                ==> completed_with(old(self).snapshots()[run_id@], final(self).snapshots()[run_id@], output),
    {
        if let Some(mut e) = self.runs.remove(run_id) {
            let keep = e.snapshot.status == RunStatus::Cancelled;
            if !keep {
                e.snapshot.mark_completed(output);
            }
            let ghost s = e.snapshot;
            self.runs.insert(run_id, e);
            assert(self.snapshots() =~= old(self).snapshots().insert(run_id@, s));
        } else {
            assert(self.snapshots() =~= old(self).snapshots());
        }
    }

    /// Fails a known run with `message` and the engine's classification.  A
    /// cancelled run stays as it is.
    pub fn mark_run_failed(&mut self, run_id: &str, message: String, code: Option<String>)
        requires
            old(self).wf(),
        ensures
            final(self).wf(),
            only_changed(old(self).snapshots(), final(self).snapshots(), run_id@),
            keeps_cancelled(old(self).snapshots(), final(self).snapshots()),
            was_cancelled(old(self).snapshots(), run_id@) ==> final(self).snapshots() == old(
                self,
            ).snapshots(),
            old(self).snapshots().dom().contains(run_id@) && !was_cancelled(old(self).snapshots(), run_id@)
                ==> failed_with(old(self).snapshots()[run_id@], final(self).snapshots()[run_id@], message, code),
    {
        if let Some(mut e) = self.runs.remove(run_id) {
            let keep = e.snapshot.status == RunStatus::Cancelled;
            if !keep {
                e.snapshot.mark_failed(message, code);
            }
            let ghost s = e.snapshot;
            self.runs.insert(run_id, e);
            assert(self.snapshots() =~= old(self).snapshots().insert(run_id@, s));
        } else {
            assert(self.snapshots() =~= old(self).snapshots());
        }
    }

    /// Cancels a known run's snapshot.  A run already cancelled stays as it
    /// is.
    pub fn mark_run_cancelled(&mut self, run_id: &str)
        requires
            old(self).wf(),
        ensures
            final(self).wf(),
            only_changed(old(self).snapshots(), final(self).snapshots(), run_id@),
            keeps_cancelled(old(self).snapshots(), final(self).snapshots()),
            was_cancelled(old(self).snapshots(), run_id@) ==> final(self).snapshots() == old(
                self,
            ).snapshots(),
            old(self).snapshots().dom().contains(run_id@) && !was_cancelled(old(self).snapshots(), run_id@)
                ==> cancelled(old(self).snapshots()[run_id@], final(self).snapshots()[run_id@]),
    {
        if let Some(mut e) = self.runs.remove(run_id) {
            let keep = e.snapshot.status == RunStatus::Cancelled;
            if !keep {
                e.snapshot.mark_cancelled();
            }
            let ghost s = e.snapshot;
            self.runs.insert(run_id, e);
            assert(self.snapshots() =~= old(self).snapshots().insert(run_id@, s));
        } else {
            assert(self.snapshots() =~= old(self).snapshots());
        }
    }

    /// Records how a run that stopped with `err` ended: a cancellation marks
    /// it cancelled; any other error marks it failed with the error's
    /// message and its classification.  A run already cancelled stays as it
    /// is.
    pub fn mark_run_error(&mut self, run_id: &str, err: &ZeneError)
        requires
            old(self).wf(),
        ensures
            final(self).wf(),
            only_changed(old(self).snapshots(), final(self).snapshots(), run_id@),
            keeps_cancelled(old(self).snapshots(), final(self).snapshots()),
            was_cancelled(old(self).snapshots(), run_id@) ==> final(self).snapshots() == old(
                self,
            ).snapshots(),
            old(self).snapshots().dom().contains(run_id@) && !was_cancelled(old(self).snapshots(), run_id@)
                ==> (if *err is Cancelled {
                cancelled(old(self).snapshots()[run_id@], final(self).snapshots()[run_id@])
            } else {
                let s = final(self).snapshots()[run_id@];
                &&& failed_with(old(self).snapshots()[run_id@], s, s.error_message.unwrap(), s.error_code)
                &&& s.error_message matches Some(m) && m@ == error_prefix(*err) + error_detail(*err)
                &&& s.error_code matches Some(c) && c@ == error_code_spec(*err)
            }),
    {
        if err.is_cancelled() {
            self.mark_run_cancelled(run_id);
        } else {
            self.mark_run_failed(run_id, err.message(), Some(err.classify_error_code()));
        }
    }

    /// Cancels a run: raises its token and marks its snapshot cancelled.
    /// `false` when the run is unknown.
    pub fn cancel_run(&mut self, run_id: &str) -> (found: bool)
        requires
            old(self).wf(),
        ensures
            final(self).wf(),
            found == old(self).snapshots().dom().contains(run_id@),
            only_changed(old(self).snapshots(), final(self).snapshots(), run_id@),
            found ==> cancelled(old(self).snapshots()[run_id@], final(self).snapshots()[run_id@]),
            keeps_cancelled(old(self).snapshots(), final(self).snapshots()),
    {
        if let Some(mut e) = self.runs.remove(run_id) {
            e.cancellation.cancel();
            e.snapshot.mark_cancelled();
            let ghost s = e.snapshot;
            self.runs.insert(run_id, e);
            assert(self.snapshots() =~= old(self).snapshots().insert(run_id@, s));
            true
        } else {
            assert(self.snapshots() =~= old(self).snapshots());
            false
        }
    }
}

} // verus!
