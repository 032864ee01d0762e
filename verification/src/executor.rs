//! Execution of one task: the instruction added to the history, and the
//! bounded loop of model calls.
//!
//! Each iteration the caller asks [`TaskRun::begin_iteration`] whether
//! another model call is allowed, makes the call, and reports the reply with
//! [`TaskRun::record_reply`]; a reply without tool calls ends the task with
//! its text.  When the budget runs out the task ends with
//! [`stopped_output`].  The calls themselves, and the tools, are the
//! caller's.

use vstd::prelude::*;
use crate::contracts::TokenUsage;
use crate::core_plan;
use crate::plan::Task;
use crate::text::{decimal, owned, usize_to_string};

verus! {

/// The default number of model calls one task may make.
pub const DEFAULT_MAX_ITERATIONS: usize = 8;

/// The instruction that starts a task.
pub open spec fn task_prompt_spec(id: Seq<char>, description: Seq<char>) -> Seq<char> {
    "Current Active Task: "@ + id + "\nDescription: "@ + description
        + "\n\nPlease execute this specific task. Use the tools available. If you need to modify files, check if they exist first. When the task is complete, provide a summary of what you did."@
}

/// The result of a task that used up its model calls.
pub open spec fn stopped_output_spec() -> Seq<char> {
    "Task stopped: Max iterations reached without definitive completion."@
}

/// The instruction that starts `task`.
pub fn task_prompt(task: &Task) -> (s: String)
    ensures
        s@ == task_prompt_spec(task.id@, task.description@),
{
    let mut s = owned("Current Active Task: ");
    s.append(task.id.as_str());
    s.append("\nDescription: ");
    s.append(task.description.as_str());
    s.append(
        "\n\nPlease execute this specific task. Use the tools available. If you need to modify files, check if they exist first. When the task is complete, provide a summary of what you did.",
    );
    s
}

/// The instruction that starts a task of the engine's plans, whose ids are
/// numbers.
pub fn core_task_prompt(task: &core_plan::Task) -> (s: String)
    ensures
        s@ == task_prompt_spec(decimal(task.id as nat), task.description@),
{
    let id = usize_to_string(task.id);
    let mut s = owned("Current Active Task: ");
    s.append(id.as_str());
    s.append("\nDescription: ");
    s.append(task.description.as_str());
    s.append(
        "\n\nPlease execute this specific task. Use the tools available. If you need to modify files, check if they exist first. When the task is complete, provide a summary of what you did.",
    );
    s
}

/// The result of a task that used up its model calls.
pub fn stopped_output() -> (s: String)
    ensures
        s@ == stopped_output_spec(),
{
    owned("Task stopped: Max iterations reached without definitive completion.")
}

/// An entry a task adds to the conversation history.
#[derive(Debug)]
pub enum HistoryEntry {
    /// The instruction that starts the task, as the user's message.
    Instruction(String),
    /// The model's reply: its text, unless it is empty, and whether the
    /// reply's tool calls go with it (when it made any).
    Reply { text: Option<String>, with_tool_calls: bool },
    /// The result of the tool call `call_id`.
    ToolResult { call_id: String, content: String },
}

/// The entry that starts `task` in the history: its instruction.
pub fn task_opening(task: &core_plan::Task) -> (e: HistoryEntry)
    ensures
        e matches HistoryEntry::Instruction(s) && s@ == task_prompt_spec(
            decimal(task.id as nat),
            task.description@,
        ),
{
    HistoryEntry::Instruction(core_task_prompt(task))
}

/// The entry of a model reply with text `content` and `tool_calls` tool
/// calls: the text when it is not empty, and the calls when there are any.
pub fn reply_entry(content: &str, tool_calls: usize) -> (e: HistoryEntry)
    ensures
        e matches HistoryEntry::Reply { text, with_tool_calls } && with_tool_calls == (tool_calls
            > 0) && (if content@.len() == 0 {
            text is None
        } else {
            text matches Some(t) && t@ == content@
        }),
{
    let text = if content.unicode_len() == 0 {
        None
    } else {
        Some(owned(content))
    };
    HistoryEntry::Reply { text, with_tool_calls: tool_calls > 0 }
}

/// The entries of the results of a reply's tool calls, in the order of the
/// calls: the `i`-th result answers the call `call_ids[i]`.
pub fn tool_result_entries(call_ids: &Vec<String>, results: &Vec<String>) -> (r: Vec<HistoryEntry>)
    requires
        call_ids@.len() == results@.len(),
    ensures
        r@.len() == results@.len(),
        forall|i: int|
            0 <= i < r@.len() ==> ((#[trigger] r@[i]) matches HistoryEntry::ToolResult { call_id, content }
                && call_id == call_ids@[i] && content == results@[i]),
{
    let mut r: Vec<HistoryEntry> = Vec::new();
    let mut i: usize = 0;
    while i < results.len()
        invariant
            call_ids@.len() == results@.len(),
            i <= results@.len(),
            r@.len() == i,
            forall|j: int|
                0 <= j < i ==> ((#[trigger] r@[j]) matches HistoryEntry::ToolResult { call_id, content }
                    && call_id == call_ids@[j] && content == results@[j]),
        decreases results@.len() - i,
    {
        r.push(HistoryEntry::ToolResult { call_id: call_ids[i].clone(), content: results[i].clone() });
        i = i + 1;
    }
    r
}

/// The state of one task's loop of model calls.
#[derive(Debug, Clone, Copy)]
pub struct TaskRun {
    pub max_iterations: usize,
    /// Model calls made so far.
    pub iteration: usize,
    /// Tokens used by those calls.
    pub usage: TokenUsage,
}

impl TaskRun {
    /// The loop never makes more calls than its budget.
    pub open spec fn wf(&self) -> bool {
        self.iteration <= self.max_iterations
    }

    /// A loop that has made no call yet.
    pub fn new(max_iterations: usize) -> (r: Self)
        ensures
            r.wf(),
            r.max_iterations == max_iterations,
            r.iteration == 0,
            r.usage.prompt_tokens == 0,
            r.usage.completion_tokens == 0,
            r.usage.total_tokens == 0,
    {
        TaskRun { max_iterations, iteration: 0, usage: TokenUsage::default() }
    }

    /// Whether another model call is allowed; if so it is counted.
    pub fn begin_iteration(&mut self) -> (go: bool)
        requires
            old(self).wf(),
        ensures
            final(self).wf(),
            go == (old(self).iteration < old(self).max_iterations),
            go ==> final(self).iteration == old(self).iteration + 1,
            !go ==> final(self).iteration == old(self).iteration,
            final(self).max_iterations == old(self).max_iterations,
            final(self).usage == old(self).usage,
    {
        if self.iteration < self.max_iterations {
            self.iteration = self.iteration + 1;
            true
        } else {
            false
        }
    }

    /// Records a model reply: its token usage, if reported, is added; a
    /// reply without tool calls ends the task with its text.
    pub fn record_reply(&mut self, usage: Option<TokenUsage>, content: &str, tool_calls: usize) -> (done:
        Option<String>)
        requires
            usage matches Some(u) ==> {
                &&& old(self).usage.prompt_tokens + u.prompt_tokens <= u32::MAX
                &&& old(self).usage.completion_tokens + u.completion_tokens <= u32::MAX
                &&& old(self).usage.total_tokens + u.total_tokens <= u32::MAX
            },
        ensures
            final(self).max_iterations == old(self).max_iterations,
            final(self).iteration == old(self).iteration,
            match usage {
                Some(u) => {
                    &&& final(self).usage.prompt_tokens == old(self).usage.prompt_tokens + u.prompt_tokens
                    &&& final(self).usage.completion_tokens == old(self).usage.completion_tokens
                        + u.completion_tokens
                    &&& final(self).usage.total_tokens == old(self).usage.total_tokens + u.total_tokens
                },
                None => final(self).usage == old(self).usage,
            },
            tool_calls == 0 ==> (done matches Some(s) && s@ == content@),
            tool_calls > 0 ==> done is None,
    {
        if let Some(u) = usage {
            self.usage.add(&u);
        }
        if tool_calls == 0 {
            Some(owned(content))
        } else {
            None
        }
    }
}

} // verus!
