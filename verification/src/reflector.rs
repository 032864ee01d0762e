//! Review of executed tasks: the request sent to the reviewing model, the
//! clean-up of its answer before the JSON parse, and the verdict when the
//! answer cannot be parsed.
//!
//! The model call and the JSON parse are the caller's; a parse that fails
//! is handed over as `None`.

use vstd::prelude::*;
use crate::orchestration::ReviewOutcome;
use crate::text::{
    chars_of, owned, slice_range, string_from_chars, strip_prefixes, strip_prefixes_bounds,
    strip_suffixes, strip_suffixes_bounds, trim, trim_bounds, trimmed,
};

verus! {

/// The reflector's verdict as the model states it.
#[derive(Debug, Clone)]
pub struct ReflectionResult {
    pub passed: bool,
    pub reason: String,
    pub suggestions: Option<String>,
}

/// The review request for a task and what its execution reported.
pub open spec fn review_prompt_spec(description: Seq<char>, output: Seq<char>) -> Seq<char> {
    "You are an expert Code Inspector and QA Lead.\nYour goal is to review the following task execution.\n\nTask Description: "@
        + description + "\n\nExecution Output/Summary:\n"@ + output + REVIEW_INSTRUCTIONS@
}

/// What the review request asks for, after the task's output.
pub const REVIEW_INSTRUCTIONS: &'static str = "\n\nPlease evaluate if the task was completed successfully and if the code/changes are correct.\nCheck for common issues like:\n- Syntax errors or compilation failures mentioned in output\n- Missing files or imports\n- Logic errors or hallucinations (e.g. using non-existent libraries/assets)\n\nReturn your review in strict JSON format:\n{\n\"passed\": true/false,\n\"reason\": \"Brief explanation of your decision\",\n\"suggestions\": \"Optional suggestions for fixing issues (if failed)\"\n}\nDo not include markdown code blocks, just the raw JSON string.";

/// A review answer without surrounding whitespace and code fences: trimmed,
/// leading ```` ```json ```` and then ```` ``` ```` fences removed, trailing
/// fences removed, trimmed again.
pub open spec fn clean_review_spec(r: Seq<char>) -> Seq<char> {
    trim(strip_suffixes(strip_prefixes(strip_prefixes(trim(r), "```json"@), "```"@), "```"@))
}

/// The verdict used when the answer is not valid JSON: the task passes.
pub open spec fn is_fallback_review(r: ReflectionResult) -> bool {
    &&& r.passed
    &&& r.reason@ == "Review format error, assuming pass."@
    &&& r.suggestions is None
}

/// The review request for a task with `description` whose execution
/// reported `output`.
pub fn review_prompt(description: &str, output: &str) -> (s: String)
    ensures
        s@ == review_prompt_spec(description@, output@),
{
    let mut s = owned(
        "You are an expert Code Inspector and QA Lead.\nYour goal is to review the following task execution.\n\nTask Description: ",
    );
    s.append(description);
    s.append("\n\nExecution Output/Summary:\n");
    s.append(output);
    s.append(REVIEW_INSTRUCTIONS);
    s
}

/// The JSON text of a review answer, as [`clean_review_spec`] says.
pub fn clean_review_json(response: &str) -> (s: String)
    ensures
        s@ == clean_review_spec(response@),
{
    let v = chars_of(response);
    let n = v.len();
    let (a, b) = trim_bounds(&v, 0, n);
    assert(v@.subrange(0, n as int) =~= v@);
    let json_fence = chars_of("```json");
    let fence = chars_of("```");
    let a1 = strip_prefixes_bounds(&v, a, b, &json_fence);
    let a2 = strip_prefixes_bounds(&v, a1, b, &fence);
    let b1 = strip_suffixes_bounds(&v, a2, b, &fence);
    assert(v@.subrange(a2 as int, b as int) == strip_prefixes(
        strip_prefixes(trim(response@), "```json"@),
        "```"@,
    ));
    let (c, d) = trim_bounds(&v, a2, b1);
    string_from_chars(slice_range(&v, c, d).as_slice())
}

/// The verdict of a review: the parsed answer, or the passing fallback when
/// the answer could not be parsed.
pub fn review_result(parsed: Option<ReflectionResult>) -> (r: ReflectionResult)
    ensures
        match parsed {
            Some(p) => r == p,
            None => is_fallback_review(r),
        },
{
    match parsed {
        Some(p) => p,
        None => ReflectionResult {
            passed: true,
            reason: owned("Review format error, assuming pass."),
            suggestions: None,
        },
    }
}

impl ReflectionResult {
    /// The outcome this verdict has on the plan.
    pub fn outcome(&self) -> (o: ReviewOutcome)
        ensures
            self.passed ==> (o matches ReviewOutcome::Passed { reason } && reason == self.reason),
            !self.passed ==> (o matches ReviewOutcome::Failed { reason, suggestions } && reason
                == self.reason && suggestions == self.suggestions),
    {
        if self.passed {
            ReviewOutcome::Passed { reason: self.reason.clone() }
        } else {
            let suggestions = match &self.suggestions {
                Some(s) => Some(s.clone()),
                None => None,
            };
            ReviewOutcome::Failed { reason: self.reason.clone(), suggestions }
        }
    }
}

} // verus!
