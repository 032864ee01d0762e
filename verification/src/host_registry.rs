//! The host's bookkeeping of runs: which requests are running, which
//! idempotency keys are in flight, and the final messages remembered for
//! replays.  Times are milliseconds of a monotonic clock the host supplies.

use vstd::prelude::*;
use crate::strmap::StrMap;
use crate::host::{copy_final_message, final_status_spec, is_replay_of, FinalMessage, FinalOutcome};
use crate::engine_runs::{cancelled, keeps_cancelled, law_cancel_stays_canceled, only_changed};
use crate::runtime::RunSnapshot;

verus! {

/// How long a final message is replayed for, in milliseconds.
pub const REPLAY_TTL_MS: u64 = 600_000;

/// The most final messages remembered for replays.
pub const MAX_REPLAYS: usize = 50_000;

/// A running request.
#[derive(Debug)]
pub struct ActiveRun {
    /// Identifies the task watching this run; a later run of the same
    /// request id gets a new token.
    pub run_token: String,
    /// The engine's id of the run.
    pub engine_run_id: String,
}

/// A final message remembered for replays.
#[derive(Debug)]
pub struct ReplayEntry {
    /// The final message as it was sent.
    pub final_payload: FinalMessage,
    pub created_at_ms: u64,
}

/// A remembered message created at `created` is still replayed at `now`.
pub open spec fn is_fresh(created: u64, now: u64, ttl: u64) -> bool {
    now <= created || now - created <= ttl
}

/// What happens to a run request that passed its check.
#[derive(Debug)]
pub enum Admission {
    /// The same request id is already running: refuse it.
    AlreadyInProgress,
    /// Another request with the same idempotency key is running: answer
    /// "DUPLICATE_IN_PROGRESS" with its id.
    DuplicateInProgress { existing_request_id: String },
    /// A final message for the key is remembered: replay it.
    Replay { final_payload: FinalMessage },
    /// Start the run (capacity permitting).
    Proceed,
}

/// The host's run registry.
pub struct HostRegistry {
    /// Running requests, by request id.
    pub active: StrMap<ActiveRun>,
    /// Request ids of the running requests, by idempotency (replay) key.
    pub inflight: StrMap<String>,
    /// Remembered final messages, by replay key.
    pub replays: StrMap<ReplayEntry>,
}

impl HostRegistry {
    /// The registry's invariant.
    pub open spec fn wf(&self) -> bool {
        self.active.wf() && self.inflight.wf() && self.replays.wf()
    }

    /// An empty registry.
    pub fn new() -> (r: Self)
        ensures
            r.wf(),
            r.active.map() == Map::<Seq<char>, ActiveRun>::empty(),
            r.inflight.map() == Map::<Seq<char>, String>::empty(),
            r.replays.map() == Map::<Seq<char>, ReplayEntry>::empty(),
    {
        HostRegistry { active: StrMap::new(), inflight: StrMap::new(), replays: StrMap::new() }
    }

    /// What happens to a checked run request with `request_id` and replay
    /// key `key` at time `now_ms`.
    pub open spec fn admission_spec(&self, request_id: Seq<char>, key: Seq<char>, now_ms: u64) -> Admission {
        if self.active.map().dom().contains(request_id) {
            Admission::AlreadyInProgress
        } else if self.inflight.map().dom().contains(key) {
            Admission::DuplicateInProgress { existing_request_id: self.inflight.map()[key] }
        } else if self.replays.map().dom().contains(key) && is_fresh(
            self.replays.map()[key].created_at_ms,
            now_ms,
            REPLAY_TTL_MS,
        ) {
            Admission::Replay { final_payload: self.replays.map()[key].final_payload }
        } else {
            Admission::Proceed
        }
    }

    /// Decides what happens to a checked run request with `request_id` and
    /// replay key `key` at time `now_ms`: a running request id is refused, a
    /// running key is reported as a duplicate, a fresh remembered final
    /// message is replayed, and otherwise the run proceeds.
    pub fn admission(&self, request_id: &str, key: &str, now_ms: u64) -> (a: Admission)
        requires
            self.wf(),
        ensures
            a == self.admission_spec(request_id@, key@, now_ms),
    {
        if self.active.contains_key(request_id) {
            return Admission::AlreadyInProgress;
        }
        if let Some(existing) = self.inflight.get(key) {
            return Admission::DuplicateInProgress { existing_request_id: existing.clone() };
        }
        if let Some(entry) = self.replays.get(key) {
            let fresh = now_ms <= entry.created_at_ms || now_ms - entry.created_at_ms
                <= REPLAY_TTL_MS;
            if fresh {
                return Admission::Replay { final_payload: copy_final_message(&entry.final_payload) };
            }
        }
        Admission::Proceed
    }

    /// Records a started run of `request_id` under replay key `key`.
    pub fn register(&mut self, request_id: String, run_token: String, engine_run_id: String, key: &str)
        requires
            old(self).wf(),
        ensures
            final(self).wf(),
            final(self).active.map() == old(self).active.map().insert(
                request_id@,
                ActiveRun { run_token, engine_run_id },
            ),
            final(self).inflight.map() == old(self).inflight.map().insert(key@, request_id),
            final(self).replays.map() == old(self).replays.map(),
    {
        let id = request_id.clone();
        self.active.insert(id.as_str(), ActiveRun { run_token, engine_run_id });
        self.inflight.insert(key, request_id);
    }

    /// The engine run of a running request, for cancelling it.
    pub fn engine_run_of(&self, request_id: &str) -> (r: Option<String>)
        requires
            self.wf(),
        ensures
            match r {
                Some(id) => self.active.map().dom().contains(request_id@) && id
                    == self.active.map()[request_id@].engine_run_id,
                None => !self.active.map().dom().contains(request_id@),
            },
    {
        match self.active.get(request_id) {
            Some(run) => Some(run.engine_run_id.clone()),
            None => None,
        }
    }

    /// Whether `request_id` is running under `run_token`.
    pub open spec fn owns(&self, request_id: Seq<char>, run_token: Seq<char>) -> bool {
        self.active.map().dom().contains(request_id) && self.active.map()[request_id].run_token@
            == run_token
    }

    /// Whether ending the run that `run_token` watches sends its final
    /// message.
    pub open spec fn emits(&self, request_id: Seq<char>, run_token: Seq<char>, allow_orphan: bool) -> bool {
        allow_orphan || self.owns(request_id, run_token)
    }

    /// Ends the run that `run_token` watches and decides whether its final
    /// message is sent: only when the token still owns the request, or
    /// always when `allow_orphan`.  A sent message is remembered under `key`
    /// for replays and the key stops being in flight.
    pub fn finish(
        &mut self,
        request_id: &str,
        run_token: &str,
        key: &str,
        allow_orphan: bool,
        final_payload: FinalMessage,
        now_ms: u64,
    ) -> (emit: bool)
        requires
            old(self).wf(),
        ensures
            final(self).wf(),
            emit == old(self).emits(request_id@, run_token@, allow_orphan),
            !final(self).owns(request_id@, run_token@),
            final(self).active.map() == (if old(self).owns(request_id@, run_token@) {
                old(self).active.map().remove(request_id@)
            } else {
                old(self).active.map()
            }),
            emit ==> final(self).inflight.map() == old(self).inflight.map().remove(key@)
                && final(self).replays.map() == old(self).replays.map().insert(
                key@,
                ReplayEntry { final_payload, created_at_ms: now_ms },
            ),
            !emit ==> final(self).inflight.map() == old(self).inflight.map()
                && final(self).replays.map() == old(self).replays.map(),
    {
        let owns = match self.active.get(request_id) {
            Some(run) => crate::text::str_eq(run.run_token.as_str(), run_token),
            None => false,
        };
        if owns {
            let _ = self.active.remove(request_id);
        }
        let emit = allow_orphan || owns;
        if emit {
            let _ = self.inflight.remove(key);
            self.replays.insert(key, ReplayEntry { final_payload, created_at_ms: now_ms });
        }
        emit
    }

    /// Drops remembered final messages that are no longer fresh, then the
    /// oldest ones while more than `max_entries` remain.
    pub fn prune(&mut self, now_ms: u64, ttl_ms: u64, max_entries: usize)
        requires
            old(self).wf(),
        ensures
            final(self).wf(),
            final(self).active.map() == old(self).active.map(),
            final(self).inflight.map() == old(self).inflight.map(),
            final(self).replays.entries().len() <= max_entries,
            forall|k: Seq<char>|
                #![trigger final(self).replays.map().dom().contains(k)]
                final(self).replays.map().dom().contains(k) ==> {
                    &&& old(self).replays.map().dom().contains(k)
                    &&& final(self).replays.map()[k] == old(self).replays.map()[k]
                    &&& is_fresh(final(self).replays.map()[k].created_at_ms, now_ms, ttl_ms)
                },
            forall|k: Seq<char>|
                #![trigger old(self).replays.map().dom().contains(k)]
                old(self).replays.map().dom().contains(k) && is_fresh(
                    old(self).replays.map()[k].created_at_ms,
                    now_ms,
                    ttl_ms,
                ) && !final(self).replays.map().dom().contains(k) ==> {
                    &&& final(self).replays.entries().len() == max_entries
                    &&& forall|k2: Seq<char>|
                        #![trigger final(self).replays.map().dom().contains(k2)]
                        final(self).replays.map().dom().contains(k2) ==> old(self).replays.map()[k].created_at_ms <= final(self).replays.map()[k2].created_at_ms
                },
    {
        // Phase 1: the keys of stale entries.
        let mut stale: Vec<String> = Vec::new();
        let n = self.replays.len();
        let mut i: usize = 0;
        proof {
            self.replays.lemma_map_entries();
        }
        while i < n
            invariant
                self.wf(),
                *self == *old(self),
                n == self.replays.entries().len(),
                i <= n,
                forall|j: int|
                    0 <= j < stale.len() ==> self.replays.map().dom().contains(
                        (#[trigger] stale@[j])@,
                    ) && !is_fresh(self.replays.map()[stale@[j]@].created_at_ms, now_ms, ttl_ms),
                forall|m: int|
                    0 <= m < i && !is_fresh(
                        (#[trigger] self.replays.entries()[m]).1.created_at_ms,
                        now_ms,
                        ttl_ms,
                    ) ==> exists|j: int|
                        0 <= j < stale.len() && (#[trigger] stale@[j])@
                            == self.replays.entries()[m].0@,
            decreases n - i,
        {
            let (k, v) = self.replays.entry(i);
            proof {
                self.replays.lemma_map_entries();
            }
            let fresh = now_ms <= v.created_at_ms || now_ms - v.created_at_ms <= ttl_ms;
            if !fresh {
                let ghost before = stale@;
                stale.push(k.clone());
                proof {
                    assert(stale@[before.len() as int]@ == self.replays.entries()[i as int].0@);
                    assert forall|m: int|
                        0 <= m < i + 1 && !is_fresh(
                            (#[trigger] self.replays.entries()[m]).1.created_at_ms,
                            now_ms,
                            ttl_ms,
                        ) implies exists|j: int|
                        0 <= j < stale.len() && (#[trigger] stale@[j])@
                            == self.replays.entries()[m].0@ by {
                        if m < i {
                            let j = choose|j: int|
                                0 <= j < before.len() && (#[trigger] before[j])@
                                    == self.replays.entries()[m].0@;
                            assert(stale@[j] == before[j]);
                        } else {
                            assert(stale@[before.len() as int]@ == self.replays.entries()[m].0@);
                        }
                    }
                }
            }
            i = i + 1;
        }
        // Phase 2: drop them.
        let ghost orig = self.replays.map();
        let mut j: usize = 0;
        while j < stale.len()
            invariant
                self.wf(),
                self.active == old(self).active,
                self.inflight == old(self).inflight,
                orig == old(self).replays.map(),
                j <= stale.len(),
                forall|jj: int|
                    0 <= jj < stale.len() ==> orig.dom().contains((#[trigger] stale@[jj])@)
                        && !is_fresh(orig[stale@[jj]@].created_at_ms, now_ms, ttl_ms),
                forall|k: Seq<char>|
                    #![trigger self.replays.map().dom().contains(k)]
                    self.replays.map().dom().contains(k) <==> (orig.dom().contains(k) && forall|jj: int|
                        0 <= jj < j ==> (#[trigger] stale@[jj])@ != k),
                forall|k: Seq<char>|
                    #![trigger self.replays.map().dom().contains(k)]
                    self.replays.map().dom().contains(k) ==> self.replays.map()[k] == orig[k],
            decreases stale.len() - j,
        {
            let _ = self.replays.remove(stale[j].as_str());
            j = j + 1;
        }
        proof {
            assert forall|k: Seq<char>|
                #![trigger self.replays.map().dom().contains(k)]
                self.replays.map().dom().contains(k) implies is_fresh(
                self.replays.map()[k].created_at_ms,
                now_ms,
                ttl_ms,
            ) by {
                if !is_fresh(orig[k].created_at_ms, now_ms, ttl_ms) {
                    old(self).replays.lemma_map_entries();
                    let m = choose|m: int|
                        0 <= m < old(self).replays.entries().len() && (#[trigger] old(self).replays.entries()[m]).0@ == k;
                    assert(old(self).replays.map()[old(self).replays.entries()[m].0@] == old(self).replays.entries()[m].1);
                    let jj = choose|jj: int|
                        0 <= jj < stale.len() && (#[trigger] stale@[jj])@ == old(self).replays.entries()[m].0@;
                }
            }
        }
        proof {
            assert forall|k: Seq<char>|
                #![trigger orig.dom().contains(k)]
                orig.dom().contains(k) && is_fresh(orig[k].created_at_ms, now_ms, ttl_ms) implies self.replays.map().dom().contains(k) && self.replays.map()[k] == orig[k] by {
                if !self.replays.map().dom().contains(k) {
                    let jj = choose|jj: int| 0 <= jj < stale.len() && (#[trigger] stale@[jj])@ == k;
                }
            }
        }
        // Phase 3: drop the oldest while too many remain.
        let ghost fresh_map = self.replays.map();
        let ghost mut floor: u64 = 0;
        while self.replays.len() > max_entries
            invariant
                self.wf(),
                self.active == old(self).active,
                self.inflight == old(self).inflight,
                forall|k: Seq<char>|
                    #![trigger self.replays.map().dom().contains(k)]
                    self.replays.map().dom().contains(k) ==> fresh_map.dom().contains(k)
                        && self.replays.map()[k] == fresh_map[k] && floor
                        <= self.replays.map()[k].created_at_ms,
                forall|k: Seq<char>|
                    #![trigger fresh_map.dom().contains(k)]
                    fresh_map.dom().contains(k) && !self.replays.map().dom().contains(k)
                        ==> fresh_map[k].created_at_ms <= floor && self.replays.entries().len()
                        >= max_entries,
            decreases self.replays.entries().len(),
        {
            proof {
                self.replays.lemma_map_entries();
            }
            let count = self.replays.len();
            let mut best: usize = 0;
            let mut m: usize = 1;
            while m < count
                invariant
                    self.wf(),
                    count == self.replays.entries().len(),
                    count > 0,
                    best < count,
                    1 <= m <= count,
                    forall|q: int|
                        0 <= q < m ==> self.replays.entries()[best as int].1.created_at_ms <= (
                        #[trigger] self.replays.entries()[q]).1.created_at_ms,
                decreases count - m,
            {
                let (_, vb) = self.replays.entry(best);
                let (_, vm) = self.replays.entry(m);
                if vm.created_at_ms < vb.created_at_ms {
                    best = m;
                }
                m = m + 1;
            }
            let (kb, vb) = self.replays.entry(best);
            let key = kb.clone();
            let ghost new_floor = vb.created_at_ms;
            let ghost before = self.replays.map();
            proof {
                assert forall|k: Seq<char>|
                    #![trigger self.replays.map().dom().contains(k)]
                    self.replays.map().dom().contains(k) implies new_floor
                    <= self.replays.map()[k].created_at_ms by {
                    let q = choose|q: int|
                        0 <= q < self.replays.entries().len() && (
                        #[trigger] self.replays.entries()[q]).0@ == k;
                    assert(self.replays.map()[self.replays.entries()[q].0@]
                        == self.replays.entries()[q].1);
                }
                assert(self.replays.map()[self.replays.entries()[best as int].0@]
                    == self.replays.entries()[best as int].1);
            }
            let _ = self.replays.remove(key.as_str());
            proof {
                floor = new_floor;
            }
        }
        proof {
            assert forall|k: Seq<char>|
                #![trigger orig.dom().contains(k)]
                orig.dom().contains(k) && is_fresh(orig[k].created_at_ms, now_ms, ttl_ms)
                    && !self.replays.map().dom().contains(k) implies self.replays.entries().len()
                    == max_entries && forall|k2: Seq<char>|
                    #![trigger self.replays.map().dom().contains(k2)]
                    self.replays.map().dom().contains(k2) ==> orig[k].created_at_ms
                        <= self.replays.map()[k2].created_at_ms by {
                assert(fresh_map.dom().contains(k));
            }
        }
    }
}

/// Law: a run's final message is sent at most once.  Once `finish` has run
/// for a request and its run token, a second `finish` for the same pair
/// sends nothing (unless orphans are allowed).
pub proof fn law_single_terminal(
    before: HostRegistry,
    after_first: HostRegistry,
    request_id: Seq<char>,
    run_token: Seq<char>,
)
    requires
        after_first.active.map() == (if before.owns(request_id, run_token) {
            before.active.map().remove(request_id)
        } else {
            before.active.map()
        }),
    ensures
        !after_first.emits(request_id, run_token, false),
{
}

/// Law: a finished request is replayed.  Once the final message of a run
/// with replay key `key` has been recorded at `at_ms` (and the key is no
/// longer in flight), a new request with the same key and a request id that
/// is not running is answered with that same final message for as long as
/// it is fresh.
pub proof fn law_replay_returns_final(
    before: HostRegistry,
    after: HostRegistry,
    key: Seq<char>,
    final_payload: FinalMessage,
    at_ms: u64,
    second_id: Seq<char>,
    now_ms: u64,
)
    requires
        after.inflight.map() == before.inflight.map().remove(key),
        after.replays.map() == before.replays.map().insert(
            key,
            ReplayEntry { final_payload, created_at_ms: at_ms },
        ),
        !after.active.map().dom().contains(second_id),
        is_fresh(at_ms, now_ms, REPLAY_TTL_MS),
    ensures
        after.admission_spec(second_id, key, now_ms) == (Admission::Replay { final_payload }),
{
}

/// Law: an accepted cancel ends in exactly one "CANCELED" final.  The
/// host handles a cancel of `target`, which is running in `reg`: it hands
/// the request's engine run to `cancel_run`, which found it (`found`, the
/// case in which `cancel_answer` accepts the cancel), turning the engine's
/// runs from `runs_before` into `states[0]`; later operations on the run
/// table, each keeping cancelled runs cancelled, give `states[1]`, ...
/// When the request's watcher builds the final message from the run's
/// snapshot in any of these states (`outcome`, as `final_from_snapshot`
/// builds it), its status is "CANCELED"; and once the watcher's `finish`
/// has turned `reg_mid` into `reg_after`, no later `finish` of the same
/// watcher sends another final.
pub proof fn law_accepted_cancel_single_canceled_final(
    reg: HostRegistry,
    target: Seq<char>,
    runs_before: Map<Seq<char>, RunSnapshot>,
    found: bool,
    states: Seq<Map<Seq<char>, RunSnapshot>>,
    read_at: int,
    outcome: FinalOutcome,
    reg_mid: HostRegistry,
    reg_after: HostRegistry,
    run_token: Seq<char>,
)
    requires
        reg.active.map().dom().contains(target),
        found == runs_before.dom().contains(reg.active.map()[target].engine_run_id@),
        found,
        states.len() > 0,
        only_changed(runs_before, states[0], reg.active.map()[target].engine_run_id@),
        cancelled(
            runs_before[reg.active.map()[target].engine_run_id@],
            states[0][reg.active.map()[target].engine_run_id@],
        ),
        forall|i: int| #![trigger states[i]] 0 < i < states.len() ==> keeps_cancelled(states[i - 1], states[i]),
        0 <= read_at < states.len(),
        outcome.status@ == final_status_spec(states[read_at][reg.active.map()[target].engine_run_id@].status),
        reg_after.active.map() == (if reg_mid.owns(target, run_token) {
            reg_mid.active.map().remove(target)
        } else {
            reg_mid.active.map()
        }),
    ensures
        outcome.status@ == "CANCELED"@,
        !reg_after.emits(target, run_token, false),
{
    let run = reg.active.map()[target].engine_run_id@;
    law_cancel_stays_canceled(runs_before, states, run);
    assert(states[read_at].dom().contains(run));
    law_single_terminal(reg_mid, reg_after, target, run_token);
}

/// Law: a replay answers the new request.  Once the final message `stored`
/// of a run with replay key `key` has been recorded at `at_ms`, a new
/// request `second_id` of `session_id` with the same key, whose id is not
/// running, is answered while the message is fresh by the replay of
/// `stored`: the new request's ids, the time of the answer, the mark of a
/// replay, and the remembered outcome and latency.
pub proof fn law_replay_carries_new_ids(
    before: HostRegistry,
    after: HostRegistry,
    key: Seq<char>,
    stored: FinalMessage,
    at_ms: u64,
    second_id: Seq<char>,
    session_id: Seq<char>,
    now_ms: u64,
    ts_ms: i64,
    answer: FinalMessage,
)
    requires
        after.inflight.map() == before.inflight.map().remove(key),
        after.replays.map() == before.replays.map().insert(
            key,
            ReplayEntry { final_payload: stored, created_at_ms: at_ms },
        ),
        !after.active.map().dom().contains(second_id),
        is_fresh(at_ms, now_ms, REPLAY_TTL_MS),
        after.admission_spec(second_id, key, now_ms) matches Admission::Replay { final_payload }
            && is_replay_of(answer, final_payload, second_id, session_id, ts_ms),
    ensures
        answer.request_id@ == second_id,
        answer.session_id@ == session_id,
        answer.ts_ms == ts_ms,
        answer.replayed,
        answer.outcome == stored.outcome,
        answer.latency_ms == stored.latency_ms,
{
}

/// Law: how a run request is admitted.  A request whose id is running is
/// refused as already in progress, whatever keys are in flight or
/// remembered.  Otherwise a request whose key is in flight is a duplicate of
/// the request running under that key; otherwise a request whose key has a
/// fresh remembered final message is answered with it; and only a request
/// with none of these proceeds to run.
pub proof fn law_admission_order(reg: HostRegistry, request_id: Seq<char>, key: Seq<char>, now_ms: u64)
    ensures
        reg.active.map().dom().contains(request_id) ==> reg.admission_spec(request_id, key, now_ms)
            == Admission::AlreadyInProgress,
        !reg.active.map().dom().contains(request_id) && reg.inflight.map().dom().contains(key)
            ==> reg.admission_spec(request_id, key, now_ms) == (Admission::DuplicateInProgress {
            existing_request_id: reg.inflight.map()[key],
        }),
        !reg.active.map().dom().contains(request_id) && !reg.inflight.map().dom().contains(key)
            && reg.replays.map().dom().contains(key) && (now_ms <= reg.replays.map()[key].created_at_ms
            || now_ms - reg.replays.map()[key].created_at_ms <= REPLAY_TTL_MS)
            ==> reg.admission_spec(request_id, key, now_ms) == (Admission::Replay {
            final_payload: reg.replays.map()[key].final_payload,
        }),
        reg.admission_spec(request_id, key, now_ms) == Admission::Proceed <==> (
            !reg.active.map().dom().contains(request_id)
            && !reg.inflight.map().dom().contains(key)
            && !(reg.replays.map().dom().contains(key) && (now_ms
            <= reg.replays.map()[key].created_at_ms || now_ms
            - reg.replays.map()[key].created_at_ms <= REPLAY_TTL_MS))),
{
}

/// Law: while a run is registered under an idempotency key, another request
/// with that key (and a different request id) is answered as a duplicate of
/// the first.
pub proof fn law_inflight_dedup(
    before: HostRegistry,
    after: HostRegistry,
    first_id: String,
    run: ActiveRun,
    key: Seq<char>,
    second_id: Seq<char>,
    now_ms: u64,
)
    requires
        after.active.map() == before.active.map().insert(first_id@, run),
        after.inflight.map() == before.inflight.map().insert(key, first_id),
        second_id != first_id@,
        !before.active.map().dom().contains(second_id),
    ensures
        after.admission_spec(second_id, key, now_ms) == (Admission::DuplicateInProgress {
            existing_request_id: first_id,
        }),
{
}

} // verus!
