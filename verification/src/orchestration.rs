//! The planned-execution loop of the orchestrator, as a state machine.
//!
//! The host drives the loop: it asks for the next task, has the executor run
//! it, reports the outcome, has the reflector judge it and reports the verdict.
//! This module decides everything in between: which task runs next, how a
//! task's state changes, when a repair task is added, what goes into the
//! session history and what the run finally answers.

use vstd::prelude::*;
use crate::contracts::{AgentEvent, TokenUsage};
use crate::core_plan::{Plan, Task, TaskStatus};
use crate::text::{decimal, owned, take_chars, usize_to_string};

verus! {

/// The reflector's verdict on an executed task.
#[derive(Debug, Clone)]
pub enum ReviewOutcome {
    /// The task passed review.
    Passed { reason: String },
    /// The task failed review; a repair task is scheduled.
    Failed { reason: String, suggestions: Option<String> },
    /// The reflector could not be reached; the task is taken as done.
    Unavailable,
}

/// Text of the history note when the orchestrator switches to a task.
pub open spec fn switch_note_spec(id: nat, description: Seq<char>) -> Seq<char> {
    "Orchestrator: Switching context to Task "@ + decimal(id) + ": "@ + description
}

/// Text of the history note recording a task's output (its first 500
/// characters).
pub open spec fn result_note_spec(description: Seq<char>, output: Seq<char>) -> Seq<char> {
    "Task '"@ + description + "' execution result:\n"@ + (if output.len() <= 500 {
        output
    } else {
        output.take(500)
    })
}

/// Text of the history note recording a task's failure.
pub open spec fn failure_note_spec(description: Seq<char>, error: Seq<char>) -> Seq<char> {
    "Task '"@ + description + "' failed with error: "@ + error
}

/// What a run answers when a task failed to execute.
pub open spec fn halt_output_spec(error: Seq<char>) -> Seq<char> {
    "Execution halted due to task failure: "@ + error
}

/// The summary line of a task that passed.
pub open spec fn completed_line_spec(id: nat) -> Seq<char> {
    "Task "@ + decimal(id) + ": Completed\n"@
}

/// Description of the repair task scheduled after a failed review.
pub open spec fn fix_description_spec(id: nat, reason: Seq<char>, suggestions: Option<Seq<char>>) -> Seq<char> {
    "Fix issues in Task "@ + decimal(id) + ": "@ + reason + ". Suggestion: "@ + match suggestions {
        Some(s) => s,
        None => Seq::empty(),
    }
}

/// What a planned run answers once all tasks are handled.
pub open spec fn final_output_spec(summary: Seq<char>) -> Seq<char> {
    if summary.len() == 0 {
        "Plan completed (or explicit empty plan)."@
    } else {
        summary
    }
}

/// `i` is the first pending task at or after `from`.
pub open spec fn is_next_pending(tasks: Seq<Task>, from: int, i: int) -> bool {
    &&& from <= i < tasks.len()
    &&& tasks[i].status == TaskStatus::Pending
    &&& forall|k: int| from <= k < i ==> (#[trigger] tasks[k]).status != TaskStatus::Pending
}

/// No task at or after `from` is pending.
pub open spec fn none_pending_from(tasks: Seq<Task>, from: int) -> bool {
    forall|k: int| from <= k < tasks.len() ==> (#[trigger] tasks[k]).status != TaskStatus::Pending
}

/// `new` is `old` with task `i`'s status set to `s`.
pub open spec fn status_updated(old: Seq<Task>, new: Seq<Task>, i: int, s: TaskStatus) -> bool {
    &&& new.len() == old.len()
    &&& 0 <= i < old.len()
    &&& forall|k: int| 0 <= k < old.len() && k != i ==> new[k] == old[k]
    &&& new[i].id == old[i].id
    &&& new[i].description == old[i].description
    &&& new[i].result == old[i].result
    &&& new[i].status == s
}

/// `new` is `old` after a failed review of task `i`: task `i` failed and a
/// pending repair task, numbered one past the old task count, follows it.
pub open spec fn repair_scheduled(
    old: Seq<Task>,
    new: Seq<Task>,
    i: int,
    reason: Seq<char>,
    suggestions: Option<Seq<char>>,
) -> bool {
    &&& 0 <= i < old.len()
    &&& new.len() == old.len() + 1
    &&& forall|k: int| 0 <= k < i ==> new[k] == old[k]
    &&& forall|k: int| i + 1 < k < new.len() ==> new[k] == old[k - 1]
    &&& new[i].id == old[i].id
    &&& new[i].description == old[i].description
    &&& new[i].result == old[i].result
    &&& new[i].status == TaskStatus::Failed
    &&& new[i + 1].id == old.len() + 1
    &&& new[i + 1].description@ == fix_description_spec(old[i].id as nat, reason, suggestions)
    &&& new[i + 1].status == TaskStatus::Pending
    &&& new[i + 1].result is None
}

/// The history note when the orchestrator switches to `task`.
pub fn switch_note(task: &Task) -> (s: String)
    ensures
        s@ == switch_note_spec(task.id as nat, task.description@),
{
    let mut s = owned("Orchestrator: Switching context to Task ");
    let id = usize_to_string(task.id);
    s.append(id.as_str());
    s.append(": ");
    s.append(task.description.as_str());
    s
}

/// The final answer of a planned run from the accumulated summary.
pub fn final_output(summary: &str) -> (s: String)
    ensures
        s@ == final_output_spec(summary@),
{
    if summary.unicode_len() == 0 {
        owned("Plan completed (or explicit empty plan).")
    } else {
        owned(summary)
    }
}

/// The event announcing that planning failed with `message`.
pub fn planning_failed_event(message: String) -> (e: AgentEvent)
    ensures
        e matches AgentEvent::Error { code, message: m } && code@ == "PLANNING_FAILED"@ && m
            == message,
{
    AgentEvent::Error { code: owned("PLANNING_FAILED"), message }
}

impl ReviewOutcome {
    /// The event reporting this verdict, if the reflector gave one.
    pub fn event(&self) -> (e: Option<AgentEvent>)
        ensures
            match *self {
                ReviewOutcome::Passed { reason } => e == Some(
                    AgentEvent::ReflectionResult { passed: true, reason },
                ),
                ReviewOutcome::Failed { reason, .. } => e == Some(
                    AgentEvent::ReflectionResult { passed: false, reason },
                ),
                ReviewOutcome::Unavailable => e is None,
            },
    {
        match self {
            ReviewOutcome::Passed { reason } => Some(
                AgentEvent::ReflectionResult { passed: true, reason: reason.clone() },
            ),
            ReviewOutcome::Failed { reason, .. } => Some(
                AgentEvent::ReflectionResult { passed: false, reason: reason.clone() },
            ),
            ReviewOutcome::Unavailable => None,
        }
    }
}

/// Whether the orchestrator must plan before executing: only outside
/// simple mode, and only when the session holds no plan yet.
pub fn needs_planning(simple_mode: bool, has_plan: bool) -> (b: bool)
    ensures
        b == (!simple_mode && !has_plan),
{
    !simple_mode && !has_plan
}

impl Task {
    /// The single task that stands for a whole goal when no plan is used.
    pub fn adhoc(goal: &str) -> (t: Task)
        ensures
            t.id == 0,
            t.description@ == goal@,
            t.status == TaskStatus::Pending,
            t.result is None,
    {
        Task { id: 0, description: owned(goal), status: TaskStatus::Pending, result: None }
    }
}

/// A planned run in progress.
pub struct PlannedRun {
    pub plan: Plan,
    /// Position of the task being handled, or from which the next pending
    /// task is looked for.
    pub index: usize,
    /// Summary lines of the tasks that passed.
    pub summary: String,
    /// Tokens used so far.
    pub usage: TokenUsage,
}

impl PlannedRun {
    /// The run's invariant: the cursor stays within the plan and every task
    /// before it has been handled (is no longer pending).
    pub open spec fn wf(&self) -> bool {
        &&& self.index <= self.plan.tasks@.len()
        &&& forall|k: int|
            0 <= k < self.index ==> (#[trigger] self.plan.tasks@[k]).status
                != TaskStatus::Pending
    }

    /// Starts a run over `plan`.
    pub fn new(plan: Plan) -> (r: Self)
        ensures
            r.wf(),
            r.plan == plan,
            r.index == 0,
            r.summary@.len() == 0,
            r.usage.prompt_tokens == 0 && r.usage.completion_tokens == 0
                && r.usage.total_tokens == 0,
    {
        PlannedRun {
            plan,
            index: 0,
            summary: String::new(),
            usage: TokenUsage { prompt_tokens: 0, completion_tokens: 0, total_tokens: 0 },
        }
    }

    /// Moves to the next pending task, marks it in progress and returns its
    /// position; `None` when no pending task is left, which ends the run.
    pub fn next_task(&mut self) -> (r: Option<usize>)
        requires
            old(self).wf(),
        ensures
            final(self).wf(),
            final(self).summary == old(self).summary,
            final(self).usage == old(self).usage,
            final(self).plan.goal == old(self).plan.goal,
            final(self).plan.current_task_index == old(self).plan.current_task_index,
            match r {
                Some(i) => {
                    &&& is_next_pending(old(self).plan.tasks@, old(self).index as int, i as int)
                    &&& final(self).index == i
                    &&& status_updated(
                        old(self).plan.tasks@,
                        final(self).plan.tasks@,
                        i as int,
                        TaskStatus::InProgress,
                    )
                },
                None => {
                    &&& none_pending_from(old(self).plan.tasks@, old(self).index as int)
                    &&& final(self).plan.tasks@ == old(self).plan.tasks@
                    &&& final(self).index == final(self).plan.tasks@.len()
                    &&& forall|k: int|
                        0 <= k < final(self).plan.tasks@.len() ==> (
                        #[trigger] final(self).plan.tasks@[k]).status != TaskStatus::Pending
                },
            },
    {
        let mut i = self.index;
        while i < self.plan.tasks.len()
            invariant
                old(self).wf(),
                *self == *old(self),
                self.index <= i <= self.plan.tasks.len(),
                forall|k: int|
                    self.index <= k < i ==> (#[trigger] self.plan.tasks@[k]).status
                        != TaskStatus::Pending,
            decreases self.plan.tasks.len() - i,
        {
            if self.plan.tasks[i].status == TaskStatus::Pending {
                let ghost before = self.plan.tasks@;
                self.plan.tasks[i].status = TaskStatus::InProgress;
                self.index = i;
                proof {
                    assert forall|k: int| 0 <= k < self.index implies (
                    #[trigger] self.plan.tasks@[k]).status != TaskStatus::Pending by {
                        assert(self.plan.tasks@[k] == before[k]);
                    }
                }
                return Some(i);
            }
            i = i + 1;
        }
        self.index = i;
        None
    }

    /// Records the output and token usage of the task being handled and
    /// returns the history note for it.
    pub fn task_executed(&mut self, output: &str, usage: &TokenUsage) -> (note: String)
        requires
            old(self).wf(),
            old(self).index < old(self).plan.tasks@.len(),
            old(self).usage.prompt_tokens + usage.prompt_tokens <= u32::MAX,
            old(self).usage.completion_tokens + usage.completion_tokens <= u32::MAX,
            old(self).usage.total_tokens + usage.total_tokens <= u32::MAX,
        ensures
            final(self).wf(),
            final(self).index == old(self).index,
            final(self).summary == old(self).summary,
            final(self).plan.goal == old(self).plan.goal,
            final(self).plan.current_task_index == old(self).plan.current_task_index,
            final(self).plan.tasks@.len() == old(self).plan.tasks@.len(),
            forall|k: int|
                0 <= k < old(self).plan.tasks@.len() && k != old(self).index
                    ==> final(self).plan.tasks@[k] == old(self).plan.tasks@[k],
            ({
                let t = final(self).plan.tasks@[old(self).index as int];
                let o = old(self).plan.tasks@[old(self).index as int];
                &&& t.id == o.id
                &&& t.description == o.description
                &&& t.status == o.status
                &&& t.result matches Some(r) && r@ == output@
            }),
            final(self).usage.prompt_tokens == old(self).usage.prompt_tokens
                + usage.prompt_tokens,
            final(self).usage.completion_tokens == old(self).usage.completion_tokens
                + usage.completion_tokens,
            final(self).usage.total_tokens == old(self).usage.total_tokens + usage.total_tokens,
            note@ == result_note_spec(
                old(self).plan.tasks@[old(self).index as int].description@,
                output@,
            ),
    {
        let i = self.index;
        let ghost before = self.plan.tasks@;
        self.usage.add(usage);
        let mut note = owned("Task '");
        note.append(self.plan.tasks[i].description.as_str());
        note.append("' execution result:\n");
        let head = take_chars(output, 500);
        note.append(head.as_str());
        self.plan.tasks[i].result = Some(owned(output));
        proof {
            assert forall|k: int| 0 <= k < self.index implies (
            #[trigger] self.plan.tasks@[k]).status != TaskStatus::Pending by {
                assert(self.plan.tasks@[k] == before[k]);
            }
        }
        note
    }

    /// Records that the task being handled failed to execute.  Returns the
    /// history note and the run's answer; the run stops there.
    pub fn task_failed(&mut self, error: &str) -> (r: (String, String))
        requires
            old(self).wf(),
            old(self).index < old(self).plan.tasks@.len(),
        ensures
            final(self).wf(),
            final(self).index == old(self).index,
            final(self).summary == old(self).summary,
            final(self).usage == old(self).usage,
            final(self).plan.goal == old(self).plan.goal,
            status_updated(
                old(self).plan.tasks@,
                final(self).plan.tasks@,
                old(self).index as int,
                TaskStatus::Failed,
            ),
            r.0@ == failure_note_spec(
                old(self).plan.tasks@[old(self).index as int].description@,
                error@,
            ),
            r.1@ == halt_output_spec(error@),
    {
        let i = self.index;
        let ghost before = self.plan.tasks@;
        self.plan.tasks[i].status = TaskStatus::Failed;
        let mut note = owned("Task '");
        note.append(self.plan.tasks[i].description.as_str());
        note.append("' failed with error: ");
        note.append(error);
        let mut out = owned("Execution halted due to task failure: ");
        out.append(error);
        proof {
            assert forall|k: int| 0 <= k < self.index implies (
            #[trigger] self.plan.tasks@[k]).status != TaskStatus::Pending by {
                assert(self.plan.tasks@[k] == before[k]);
            }
        }
        (note, out)
    }

    /// Applies the reflector's verdict to the task being handled and moves the
    /// cursor past it.  A pass (or an unreachable reflector) completes the task
    /// and adds its summary line; a failure marks it failed and schedules a
    /// pending repair task right after it, which is the next task to run.
    pub fn task_reviewed(&mut self, review: ReviewOutcome)
        requires
            old(self).wf(),
            old(self).index < old(self).plan.tasks@.len(),
            old(self).plan.tasks@[old(self).index as int].status != TaskStatus::Pending,
            old(self).plan.tasks@.len() + 1 < usize::MAX,
        ensures
            final(self).wf(),
            final(self).index == old(self).index + 1,
            final(self).usage == old(self).usage,
            final(self).plan.goal == old(self).plan.goal,
            match review {
                ReviewOutcome::Failed { reason, suggestions } => {
                    &&& repair_scheduled(
                        old(self).plan.tasks@,
                        final(self).plan.tasks@,
                        old(self).index as int,
                        reason@,
                        match suggestions {
                            Some(s) => Some(s@),
                            None => None,
                        },
                    )
                    &&& final(self).summary == old(self).summary
                    &&& is_next_pending(
                        final(self).plan.tasks@,
                        final(self).index as int,
                        final(self).index as int,
                    )
                },
                _ => {
                    &&& status_updated(
                        old(self).plan.tasks@,
                        final(self).plan.tasks@,
                        old(self).index as int,
                        TaskStatus::Completed,
                    )
                    &&& final(self).summary@ == old(self).summary@ + completed_line_spec(
                        old(self).plan.tasks@[old(self).index as int].id as nat,
                    )
                },
            },
    {
        let i = self.index;
        let ghost before = self.plan.tasks@;
        match review {
            ReviewOutcome::Failed { reason, suggestions } => {
                self.plan.tasks[i].status = TaskStatus::Failed;
                let task_id = self.plan.tasks[i].id;
                let mut desc = owned("Fix issues in Task ");
                let id_text = usize_to_string(task_id);
                desc.append(id_text.as_str());
                desc.append(": ");
                desc.append(reason.as_str());
                desc.append(". Suggestion: ");
                match &suggestions {
                    Some(s) => desc.append(s.as_str()),
                    None => {},
                }
                proof {
                    let sv: Option<Seq<char>> = match suggestions {
                        Some(s) => Some(s@),
                        None => None,
                    };
                    assert(desc@ =~= fix_description_spec(task_id as nat, reason@, sv));
                }
                let fix = Task {
                    id: self.plan.tasks.len() + 1,
                    description: desc,
                    status: TaskStatus::Pending,
                    result: None,
                };
                let ghost mid = self.plan.tasks@;
                self.plan.tasks.insert(i + 1, fix);
                proof {
                    assert(self.plan.tasks@ == mid.insert(i + 1, fix));
                    assert forall|k: int| 0 <= k < i + 1 implies (
                    #[trigger] self.plan.tasks@[k]).status != TaskStatus::Pending by {
                        if k < i {
                            assert(self.plan.tasks@[k] == before[k]);
                        }
                    }
                }
            },
            _ => {
                self.plan.tasks[i].status = TaskStatus::Completed;
                let mut line = owned("Task ");
                let id_text = usize_to_string(self.plan.tasks[i].id);
                line.append(id_text.as_str());
                line.append(": Completed\n");
                self.summary.append(line.as_str());
                proof {
                    assert forall|k: int| 0 <= k < i + 1 implies (
                    #[trigger] self.plan.tasks@[k]).status != TaskStatus::Pending by {
                        if k < i {
                            assert(self.plan.tasks@[k] == before[k]);
                        }
                    }
                }
            },
        }
        self.index = i + 1;
    }

    /// The run's answer once no pending task is left.
    pub fn finish(&self) -> (s: String)
        ensures
            s@ == final_output_spec(self.summary@),
    {
        final_output(self.summary.as_str())
    }
}

} // verus!
