//! The data exchanged between the engine and its host: requests, results,
//! token usage and the events a run emits.

use vstd::prelude::*;
use std::collections::HashMap;
use crate::core_plan::Plan;
use crate::text::owned;

verus! {

/// How a run is carried out: with a plan of tasks, or as a single task.
#[derive(Debug, Clone, Copy, PartialEq, Eq, Structural)]
pub enum ExecutionStrategy {
    Planned,
    Direct,
}

/// A request to run the agent on a prompt within a session.
#[derive(Debug, Clone)]
pub struct RunRequest {
    pub prompt: String,
    pub session_id: String,
    pub env_vars: Option<HashMap<String, String>>,
    pub strategy: Option<ExecutionStrategy>,
}

/// Tokens consumed by model calls.
#[derive(Debug, Clone, Copy)]
pub struct TokenUsage {
    pub prompt_tokens: u32,
    pub completion_tokens: u32,
    pub total_tokens: u32,
}

impl Default for TokenUsage {
    fn default() -> (r: Self)
        ensures
            r.prompt_tokens == 0,
            r.completion_tokens == 0,
            r.total_tokens == 0,
    {
        TokenUsage { prompt_tokens: 0, completion_tokens: 0, total_tokens: 0 }
    }
}

impl TokenUsage {
    /// Adds `other` to this usage, field by field.
    pub fn add(&mut self, other: &TokenUsage)
        requires
            old(self).prompt_tokens + other.prompt_tokens <= u32::MAX,
            old(self).completion_tokens + other.completion_tokens <= u32::MAX,
            old(self).total_tokens + other.total_tokens <= u32::MAX,
        ensures
            final(self).prompt_tokens == old(self).prompt_tokens + other.prompt_tokens,
            final(self).completion_tokens == old(self).completion_tokens
                + other.completion_tokens,
            final(self).total_tokens == old(self).total_tokens + other.total_tokens,
    {
        self.prompt_tokens = self.prompt_tokens + other.prompt_tokens;
        self.completion_tokens = self.completion_tokens + other.completion_tokens;
        self.total_tokens = self.total_tokens + other.total_tokens;
    }
}

/// The result of a run.
#[derive(Debug, Clone)]
pub struct RunResult {
    pub output: String,
    pub session_id: String,
    pub usage: TokenUsage,
}

/// A change the agent made to a file.
#[derive(Debug, Clone)]
pub struct FileChange {
    pub path: String,
    /// "created", "modified" or "deleted".
    pub change_type: String,
    pub diff: Option<String>,
}

impl FileChange {
    /// The change recorded when a file is written: "modified" when it
    /// existed before, "created" otherwise.
    pub fn for_write(path: &str, existed: bool) -> (c: Self)
        ensures
            c.path@ == path@,
            c.change_type@ == (if existed { "modified"@ } else { "created"@ }),
            c.diff is None,
    {
        let change_type = if existed {
            owned("modified")
        } else {
            owned("created")
        };
        FileChange { path: owned(path), change_type, diff: None }
    }
}

/// An event of a run, streamed to the host.
#[derive(Debug, Clone)]
pub enum AgentEvent {
    PlanningStarted,
    PlanGenerated(Plan),
    TaskStarted { id: usize, description: String },
    ThoughtDelta(String),
    /// A tool call; `arguments` is the JSON text of the arguments.
    ToolCall { name: String, arguments: String },
    ToolOutputDelta(String),
    ToolResult { name: String, result: String },
    FileStateChanged(FileChange),
    ReflectionStarted,
    ReflectionResult { passed: bool, reason: String },
    Finished(String),
    Error { code: String, message: String },
}

/// The name of an event's kind, as event envelopes carry it.
pub open spec fn event_type_spec(e: AgentEvent) -> Seq<char> {
    match e {
        AgentEvent::PlanningStarted => "PlanningStarted"@,
        AgentEvent::PlanGenerated(_) => "PlanGenerated"@,
        AgentEvent::TaskStarted { .. } => "TaskStarted"@,
        AgentEvent::ThoughtDelta(_) => "ThoughtDelta"@,
        AgentEvent::ToolCall { .. } => "ToolCall"@,
        AgentEvent::ToolOutputDelta(_) => "ToolOutputDelta"@,
        AgentEvent::ToolResult { .. } => "ToolResult"@,
        AgentEvent::FileStateChanged(_) => "FileStateChanged"@,
        AgentEvent::ReflectionStarted => "ReflectionStarted"@,
        AgentEvent::ReflectionResult { .. } => "ReflectionResult"@,
        AgentEvent::Finished(_) => "Finished"@,
        AgentEvent::Error { .. } => "Error"@,
    }
}

impl AgentEvent {
    /// The name of this event's kind.
    pub fn event_type(&self) -> (s: String)
        ensures
            s@ == event_type_spec(*self),
    {
        match self {
            AgentEvent::PlanningStarted => owned("PlanningStarted"),
            AgentEvent::PlanGenerated(_) => owned("PlanGenerated"),
            AgentEvent::TaskStarted { .. } => owned("TaskStarted"),
            AgentEvent::ThoughtDelta(_) => owned("ThoughtDelta"),
            AgentEvent::ToolCall { .. } => owned("ToolCall"),
            AgentEvent::ToolOutputDelta(_) => owned("ToolOutputDelta"),
            AgentEvent::ToolResult { .. } => owned("ToolResult"),
            AgentEvent::FileStateChanged(_) => owned("FileStateChanged"),
            AgentEvent::ReflectionStarted => owned("ReflectionStarted"),
            AgentEvent::ReflectionResult { .. } => owned("ReflectionResult"),
            AgentEvent::Finished(_) => owned("Finished"),
            AgentEvent::Error { .. } => owned("Error"),
        }
    }
}

/// An event stamped with the run it belongs to and its position in the
/// run's stream (from 1 on); `payload` is the event's JSON text and `ts_ms`
/// the time it was stamped, in milliseconds since the Unix epoch.
#[derive(Debug, Clone)]
pub struct EventEnvelope {
    pub run_id: String,
    pub session_id: String,
    pub seq: u64,
    pub ts_ms: i64,
    pub event_type: String,
    pub payload: String,
}

impl EventEnvelope {
    /// Stamps `event` as the one following the `previous_seq`-th event of the
    /// run.
    pub fn stamp(
        run_id: &str,
        session_id: &str,
        previous_seq: u64,
        ts_ms: i64,
        event: &AgentEvent,
        payload: String,
    ) -> (e: Self)
        requires
            previous_seq < u64::MAX,
        ensures
            e.run_id@ == run_id@,
            e.session_id@ == session_id@,
            e.seq == previous_seq + 1,
            e.ts_ms == ts_ms,
            e.event_type@ == event_type_spec(*event),
            e.payload == payload,
    {
        EventEnvelope {
            run_id: owned(run_id),
            session_id: owned(session_id),
            seq: previous_seq + 1,
            ts_ms,
            event_type: event.event_type(),
            payload,
        }
    }
}

/// Numbers the events of one run's stream: each event it stamps is the one
/// following the last it stamped, starting from 1.
#[derive(Debug)]
pub struct EventStamper {
    pub run_id: String,
    pub session_id: String,
    /// The number of the last event stamped (0 before the first).
    pub last_seq: u64,
}

/// One stamping step: `b` is the stamper `a` after stamping `event` as
/// `e`, the event following `a`'s last one, in `a`'s run and session.
pub open spec fn stamp_step(a: EventStamper, b: EventStamper, event: AgentEvent, e: EventEnvelope) -> bool {
    &&& b.run_id == a.run_id
    &&& b.session_id == a.session_id
    &&& b.last_seq == a.last_seq + 1
    &&& e.run_id@ == a.run_id@
    &&& e.session_id@ == a.session_id@
    &&& e.seq == b.last_seq
    &&& e.event_type@ == event_type_spec(event)
}

impl EventStamper {
    /// The stamper of a new stream of `run_id` in `session_id`.
    pub fn new(run_id: &str, session_id: &str) -> (s: Self)
        ensures
            s.run_id@ == run_id@,
            s.session_id@ == session_id@,
            s.last_seq == 0,
    {
        EventStamper { run_id: owned(run_id), session_id: owned(session_id), last_seq: 0 }
    }

    /// Stamps `event`, whose JSON text is `payload`, at `ts_ms` as the next
    /// event of the stream.
    pub fn next(&mut self, ts_ms: i64, event: &AgentEvent, payload: String) -> (e: EventEnvelope)
        requires
            old(self).last_seq < u64::MAX,
        ensures
            stamp_step(*old(self), *final(self), *event, e),
            e.ts_ms == ts_ms,
            e.payload == payload,
    {
        let e = EventEnvelope::stamp(
            self.run_id.as_str(),
            self.session_id.as_str(),
            self.last_seq,
            ts_ms,
            event,
            payload,
        );
        self.last_seq = self.last_seq + 1;
        e
    }
}

/// Law: a run's stream is numbered 1, 2, 3, ...  When a stamper starts a
/// stream (`states[0]`, nothing stamped yet) and stamps the events
/// `events` one after another as `envelopes` (the stamper going through
/// `states[1]`, `states[2]`, ...), the `i`-th envelope carries the number
/// `i + 1`, the stream's run and session, and the kind of the `i`-th event.
pub proof fn law_stream_numbered(
    states: Seq<EventStamper>,
    events: Seq<AgentEvent>,
    envelopes: Seq<EventEnvelope>,
)
    requires
        states.len() == envelopes.len() + 1,
        events.len() == envelopes.len(),
        states[0].last_seq == 0,
        forall|i: int|
            #![trigger envelopes[i]]
            0 <= i < envelopes.len() ==> stamp_step(states[i], states[i + 1], events[i], envelopes[i]),
    ensures
        forall|i: int|
            #![trigger envelopes[i]]
            0 <= i < envelopes.len() ==> {
                &&& envelopes[i].seq == i + 1
                &&& envelopes[i].run_id@ == states[0].run_id@
                &&& envelopes[i].session_id@ == states[0].session_id@
                &&& envelopes[i].event_type@ == event_type_spec(events[i])
            },
{
    assert forall|i: int| 0 <= i < envelopes.len() implies {
        &&& #[trigger] envelopes[i].seq == i + 1
        &&& envelopes[i].run_id@ == states[0].run_id@
        &&& envelopes[i].session_id@ == states[0].session_id@
        &&& envelopes[i].event_type@ == event_type_spec(events[i])
    } by {
        lemma_stamper_at(states, events, envelopes, i);
        assert(stamp_step(states[i], states[i + 1], events[i], envelopes[i]));
    }
}

/// After `k` steps the stamper has stamped `k` events and still belongs to
/// the stream's run and session.
proof fn lemma_stamper_at(
    states: Seq<EventStamper>,
    events: Seq<AgentEvent>,
    envelopes: Seq<EventEnvelope>,
    k: int,
)
    requires
        states.len() == envelopes.len() + 1,
        events.len() == envelopes.len(),
        states[0].last_seq == 0,
        forall|i: int|
            #![trigger envelopes[i]]
            0 <= i < envelopes.len() ==> stamp_step(states[i], states[i + 1], events[i], envelopes[i]),
        0 <= k < states.len(),
    ensures
        states[k].last_seq == k,
        states[k].run_id == states[0].run_id,
        states[k].session_id == states[0].session_id,
    decreases k,
{
    if k > 0 {
        lemma_stamper_at(states, events, envelopes, k - 1);
        assert(stamp_step(states[k - 1], states[k], events[k - 1], envelopes[k - 1]));
    }
}

} // verus!
