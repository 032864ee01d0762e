//! Planning: the prompt that asks a model for a task list, the extraction of
//! the JSON object from its answer, and the plan built from the parsed list.
//!
//! The model call and the JSON parse of `{"tasks": [...]}` are the caller's;
//! what they produce is handed to [`plan_outcome`].

use vstd::prelude::*;
use crate::core_plan;
use crate::plan::{Plan, Task, TaskStatus};
use crate::text::{
    chars_of, contains_seq, decimal, find_first, find_last, first_index, is_last_index_of,
    last_index_of, owned, slice_range, string_from_chars, trim, trimmed, usize_to_string,
    occurs_at, is_first_occurrence, lemma_first_occurrence_unique, lemma_last_index_unique,
};

verus! {

/// The planner's instructions to the model.
pub const PLANNER_SYSTEM_PROMPT: &'static str = r#"You are a Senior Software Architect and Project Planner.
Your goal is to break down a complex user request into a series of clear, sequential, and actionable tasks for a coding agent.

**Guidelines:**
1. **Understand the Goal**: Read the user's request carefully.
2. **Analyze Context**: Use the provided project structure to understand existing files.
3. **Break Down**: Split the work into logical steps (e.g., "Analyze X", "Implement Y", "Refactor Z", "Verify").
4. **Be Specific**: Each task should be a clear instruction (e.g., "Create file src/foo.rs with basic struct" rather than "Do coding").
5. **Dependencies**: Ensure tasks are in the correct execution order.
6. **Verification**: Include a final task to verify the implementation (e.g., "Run tests" or "Check compilation").

**Output Format:**
Return ONLY a JSON object with a single field `tasks`, which is an array of strings.
Example:
{
  "tasks": [
    "Scan src/main.rs to understand current logic",
    "Create src/utils.rs with helper functions",
    "Update src/main.rs to import utils",
    "Run cargo test to verify"
  ]
}
"#;

/// The full planning request sent to the model.
pub open spec fn planner_prompt_spec(goal: Seq<char>, project_context: Seq<char>) -> Seq<char> {
    PLANNER_SYSTEM_PROMPT@ + "\n\n"@ + "Goal: "@ + goal + "\n\nProject Structure Context:\n"@
        + project_context
}

/// The text after the first `fence`, up to the next closing fence if there
/// is one.
pub open spec fn fenced_body(r: Seq<char>, fence: Seq<char>) -> Seq<char> {
    let after = r.skip(first_index(r, fence) + fence.len());
    if contains_seq(after, "```"@) {
        after.take(first_index(after, "```"@))
    } else {
        after
    }
}

/// From the first `{` to the last `}`, or to the end when there is no `}`;
/// the whole text when the last `}` comes before the first `{`.
pub open spec fn brace_span(r: Seq<char>) -> Seq<char> {
    let start = first_index(r, "{"@);
    let end = if exists|i: int| is_last_index_of(r, '}', i) {
        last_index_of(r, '}') + 1
    } else {
        r.len() as int
    };
    if end > start {
        r.subrange(start, end)
    } else {
        r
    }
}

/// The JSON text taken from a planning answer: a ```` ```json ```` block,
/// else a ```` ``` ```` block, else the outermost braces, else the whole
/// answer; then trimmed.
pub open spec fn plan_json_spec(r: Seq<char>) -> Seq<char> {
    trim(
        if contains_seq(r, "```json"@) {
            fenced_body(r, "```json"@)
        } else if contains_seq(r, "```"@) {
            fenced_body(r, "```"@)
        } else if contains_seq(r, "{"@) {
            brace_span(r)
        } else {
            r
        },
    )
}

/// Law: without code fences, the JSON of a planning answer runs from its
/// first `{` to its last `}`.  When the answer holds no fence, its first
/// `{` is at `a` and its last `}` at `b` after it, the text taken is
/// `answer[a..=b]`, trimmed; any `}` before the last one (inside strings or
/// nested objects) does not end it.
pub proof fn law_plan_json_outer_braces(r: Seq<char>, a: int, b: int)
    requires
        !contains_seq(r, "```"@),
        0 <= a < b < r.len(),
        r[a] == '{',
        forall|k: int| 0 <= k < a ==> r[k] != '{',
        r[b] == '}',
        forall|k: int| b < k < r.len() ==> r[k] != '}',
    ensures
        plan_json_spec(r) == trim(r.subrange(a, b + 1)),
{
    reveal_strlit("```json");
    reveal_strlit("```");
    reveal_strlit("{");
    if contains_seq(r, "```json"@) {
        let i = choose|i: int| occurs_at(r, "```json"@, i);
        assert(r.subrange(i, i + 3) =~= "```"@) by {
            assert forall|k: int| 0 <= k < 3 implies r.subrange(i, i + 3)[k] == "```"@[k] by {
                assert(r.subrange(i, i + 7)[k] == "```json"@[k]);
            }
        }
        assert(occurs_at(r, "```"@, i));
    }
    assert(r.subrange(a, a + 1) =~= "{"@);
    assert(occurs_at(r, "{"@, a));
    assert forall|j: int| 0 <= j < a implies !occurs_at(r, "{"@, j) by {
        if occurs_at(r, "{"@, j) {
            assert(r.subrange(j, j + 1)[0] == r[j]);
        }
    }
    assert(is_first_occurrence(r, "{"@, a));
    lemma_first_occurrence_unique(r, "{"@, a);
    assert(is_last_index_of(r, '}', b));
    lemma_last_index_unique(r, '}', b);
}

/// Law: without code fences and without any `}`, the JSON of a planning
/// answer runs from its first `{` to the end; and when every `}` comes
/// before the first `{`, the whole answer is taken.  Both are trimmed.
pub proof fn law_plan_json_unclosed(r: Seq<char>, a: int)
    requires
        !contains_seq(r, "```"@),
        0 <= a < r.len(),
        r[a] == '{',
        forall|k: int| 0 <= k < a ==> r[k] != '{',
    ensures
        (forall|k: int| 0 <= k < r.len() ==> r[k] != '}') ==> plan_json_spec(r) == trim(
            r.subrange(a, r.len() as int),
        ),
        (forall|k: int| a < k < r.len() ==> r[k] != '}') && (exists|k: int| 0 <= k < a && r[k] == '}')
            ==> plan_json_spec(r) == trim(r),
{
    reveal_strlit("```json");
    reveal_strlit("```");
    reveal_strlit("{");
    if contains_seq(r, "```json"@) {
        let i = choose|i: int| occurs_at(r, "```json"@, i);
        assert(r.subrange(i, i + 3) =~= "```"@) by {
            assert forall|k: int| 0 <= k < 3 implies r.subrange(i, i + 3)[k] == "```"@[k] by {
                assert(r.subrange(i, i + 7)[k] == "```json"@[k]);
            }
        }
        assert(occurs_at(r, "```"@, i));
    }
    assert(r.subrange(a, a + 1) =~= "{"@);
    assert(occurs_at(r, "{"@, a));
    assert forall|j: int| 0 <= j < a implies !occurs_at(r, "{"@, j) by {
        if occurs_at(r, "{"@, j) {
            assert(r.subrange(j, j + 1)[0] == r[j]);
        }
    }
    assert(is_first_occurrence(r, "{"@, a));
    lemma_first_occurrence_unique(r, "{"@, a);
    if (forall|k: int| a < k < r.len() ==> r[k] != '}') && (exists|k: int| 0 <= k < a && r[k] == '}') {
        let k0 = choose|k: int| 0 <= k < a && r[k] == '}';
        assert(exists|b: int| is_last_index_of(r, '}', b)) by {
            lemma_some_last_index(r, '}', k0);
        }
        let l = last_index_of(r, '}');
        assert(is_last_index_of(r, '}', l));
        assert(l < a);
    }
}

/// When `c` occurs at `k`, it has a last position, at or after `k`.
proof fn lemma_some_last_index(s: Seq<char>, c: char, k: int)
    requires
        0 <= k < s.len(),
        s[k] == c,
    ensures
        exists|b: int| is_last_index_of(s, c, b) && k <= b,
    decreases s.len() - k,
{
    if forall|j: int| k < j < s.len() ==> s[j] != c {
        assert(is_last_index_of(s, c, k));
    } else {
        let j = choose|j: int| k < j < s.len() && s[j] == c;
        lemma_some_last_index(s, c, j);
    }
}

/// Law: a planning answer that is a bare JSON object (it starts with `{`,
/// ends with `}`, has no surrounding whitespace and no code fence) is
/// taken whole.
pub proof fn law_plan_json_whole_object(r: Seq<char>)
    requires
        !contains_seq(r, "```"@),
        r.len() >= 2,
        r[0] == '{',
        r.last() == '}',
        trim(r) == r,
    ensures
        plan_json_spec(r) == r,
{
    law_plan_json_outer_braces(r, 0, r.len() - 1);
    assert(r.subrange(0, r.len() as int) =~= r);
}

/// The message of an answer whose JSON could not be parsed.
pub open spec fn plan_error_spec(detail: Seq<char>, response: Seq<char>) -> Seq<char> {
    "Failed to parse plan JSON: "@ + detail + ". Raw: "@ + response
}

/// Task `i` (from zero) of a plan made of `descriptions`.
pub open spec fn is_planned_task(t: Task, descriptions: Seq<String>, i: int) -> bool {
    &&& t.id@ == decimal((i + 1) as nat)
    &&& t.description == descriptions[i]
    &&& t.status == TaskStatus::Pending
    &&& if i == 0 {
        t.dependencies@.len() == 0
    } else {
        t.dependencies@.len() == 1 && t.dependencies@[0]@ == decimal(i as nat)
    }
}

/// `p` is the plan for `goal` made of `descriptions`, in order.
pub open spec fn is_plan_of(p: Plan, goal: Seq<char>, descriptions: Seq<String>) -> bool {
    &&& p.goal@ == goal
    &&& p.tasks@.len() == descriptions.len()
    &&& forall|i: int| 0 <= i < descriptions.len() ==> is_planned_task(#[trigger] p.tasks@[i], descriptions, i)
    &&& p.current_task_index is None
}

/// The planning request for `goal` in a project described by
/// `project_context`.
pub fn planner_prompt(goal: &str, project_context: &str) -> (s: String)
    ensures
        s@ == planner_prompt_spec(goal@, project_context@),
{
    let mut s = owned(PLANNER_SYSTEM_PROMPT);
    s.append("\n\n");
    s.append("Goal: ");
    s.append(goal);
    s.append("\n\nProject Structure Context:\n");
    s.append(project_context);
    s
}

/// The text after the first `fence` of `v` (which occurs), up to the next
/// closing fence.
fn fenced(v: &Vec<char>, start: usize, fence: &Vec<char>) -> (r: Vec<char>)
    requires
        contains_seq(v@, fence@),
        start == first_index(v@, fence@),
        start + fence@.len() <= v@.len(),
    ensures
        r@ == fenced_body(v@, fence@),
{
    let n = v.len();
    let after = slice_range(v, start + fence.len(), n);
    assert(after@ =~= v@.skip(start + fence@.len()));
    let close = chars_of("```");
    match find_first(&after, &close) {
        Some(end) => slice_range(&after, 0, end),
        None => after,
    }
}

/// The JSON text of a planning answer, as [`plan_json_spec`] says.
pub fn extract_plan_json(response: &str) -> (s: String)
    ensures
        s@ == plan_json_spec(response@),
{
    let v = chars_of(response);
    let n = v.len();
    let json_fence = chars_of("```json");
    let plain_fence = chars_of("```");
    let open = chars_of("{");
    let body: Vec<char> = match find_first(&v, &json_fence) {
        Some(start) => {
            fenced(&v, start, &json_fence)
        },
        None => match find_first(&v, &plain_fence) {
            Some(start) => {
                fenced(&v, start, &plain_fence)
            },
            None => match find_first(&v, &open) {
                Some(start) => {
                    let end = match find_last(&v, '}') {
                        Some(i) => i + 1,
                        None => n,
                    };
                    if end > start {
                        slice_range(&v, start, end)
                    } else {
                        v
                    }
                },
                None => v,
            },
        },
    };
    let text = string_from_chars(body.as_slice());
    trimmed(text.as_str())
}

/// The message of a planning answer whose JSON could not be parsed.
pub fn plan_parse_error(detail: &str, response: &str) -> (s: String)
    ensures
        s@ == plan_error_spec(detail@, response@),
{
    let mut s = owned("Failed to parse plan JSON: ");
    s.append(detail);
    s.append(". Raw: ");
    s.append(response);
    s
}

/// The plan for `goal` made of the task `descriptions`: task `i` gets the id
/// `i + 1`, is pending, and depends on the task before it.
pub fn plan_from_tasks(goal: &str, descriptions: Vec<String>) -> (p: Plan)
    requires
        descriptions@.len() < usize::MAX,
    ensures
        is_plan_of(p, goal@, descriptions@),
{
    let mut tasks: Vec<Task> = Vec::new();
    let mut i: usize = 0;
    while i < descriptions.len()
        invariant
            i <= descriptions@.len() < usize::MAX,
            tasks@.len() == i,
            forall|k: int| 0 <= k < i ==> is_planned_task(#[trigger] tasks@[k], descriptions@, k),
        decreases descriptions@.len() - i,
    {
        let dependencies: Vec<String> = if i > 0 {
            vec![usize_to_string(i)]
        } else {
            Vec::new()
        };
        let t = Task {
            id: usize_to_string(i + 1),
            description: descriptions[i].clone(),
            status: TaskStatus::Pending,
            dependencies,
        };
        tasks.push(t);
        i = i + 1;
    }
    Plan { goal: owned(goal), tasks, current_task_index: None }
}

/// `p` is the engine's plan for `goal` made of `descriptions`: task `i`
/// (from zero) has the id `i + 1`, is pending and has no result yet.
pub open spec fn is_core_plan_of(p: core_plan::Plan, goal: Seq<char>, descriptions: Seq<String>) -> bool {
    &&& p.goal@ == goal
    &&& p.tasks@.len() == descriptions.len()
    &&& forall|i: int|
        0 <= i < descriptions.len() ==> {
            &&& (#[trigger] p.tasks@[i]).id == i + 1
            &&& p.tasks@[i].description == descriptions[i]
            &&& p.tasks@[i].status == core_plan::TaskStatus::Pending
            &&& p.tasks@[i].result is None
        }
    &&& p.current_task_index is None
}

/// The engine's plan for `goal` made of the task `descriptions`, numbered
/// from one.
pub fn core_plan_from_tasks(goal: &str, descriptions: Vec<String>) -> (p: core_plan::Plan)
    requires
        descriptions@.len() < usize::MAX,
    ensures
        is_core_plan_of(p, goal@, descriptions@),
{
    let mut tasks: Vec<core_plan::Task> = Vec::new();
    let mut i: usize = 0;
    while i < descriptions.len()
        invariant
            i <= descriptions@.len() < usize::MAX,
            tasks@.len() == i,
            forall|k: int|
                0 <= k < i ==> {
                    &&& (#[trigger] tasks@[k]).id == k + 1
                    &&& tasks@[k].description == descriptions@[k]
                    &&& tasks@[k].status == core_plan::TaskStatus::Pending
                    &&& tasks@[k].result is None
                },
        decreases descriptions@.len() - i,
    {
        tasks.push(
            core_plan::Task {
                id: i + 1,
                description: descriptions[i].clone(),
                status: core_plan::TaskStatus::Pending,
                result: None,
            },
        );
        i = i + 1;
    }
    core_plan::Plan { goal: owned(goal), tasks, current_task_index: None }
}

/// The outcome of planning, given what the JSON parse of the extracted text
/// gave: the task list, or the parser's message.
pub fn plan_outcome(goal: &str, response: &str, parsed: Result<Vec<String>, String>) -> (r: Result<
    Plan,
    String,
>)
    requires
        parsed matches Ok(d) ==> d@.len() < usize::MAX,
    ensures
        match parsed {
            Ok(d) => r matches Ok(p) && is_plan_of(p, goal@, d@),
            Err(e) => r matches Err(m) && m@ == plan_error_spec(e@, response@),
        },
{
    match parsed {
        Ok(d) => Ok(plan_from_tasks(goal, d)),
        Err(e) => Err(plan_parse_error(e.as_str(), response)),
    }
}

} // verus!
