//! Asking the user before a tool runs.
//!
//! The terminal interface prompts on standard error and reads the answer
//! from standard input: `y`/`yes` approves once, `a`/`all` approves this and
//! every later request of the session, anything else (or a failed read)
//! refuses.  The automatic interface approves everything.

use vstd::prelude::*;
use std::sync::atomic::{AtomicBool, Ordering};
use crate::text::{lowercase_of, owned, str_eq, to_lowercase, trim, trimmed};

verus! {

/// Something that decides whether a tool call may run.
pub trait UserInterface: Send + Sync {
    /// Asks for confirmation before executing a tool; `true` approves.
    fn confirm_execution(&self, tool_name: &str, args: &str) -> bool;
}

/// The user's answer to a confirmation prompt.
#[derive(Debug, Clone, Copy, PartialEq, Eq, Structural)]
pub enum Answer {
    /// Approve this call.
    Approve,
    /// Approve this call and all later ones of the session.
    ApproveAll,
    /// Refuse this call.
    Deny,
}

/// What an answer line means: it is trimmed and lower-cased first.
pub open spec fn answer_of(line: Seq<char>) -> Answer {
    let a = lowercase_of(trim(line));
    if a == "y"@ || a == "yes"@ {
        Answer::Approve
    } else if a == "a"@ || a == "all"@ {
        Answer::ApproveAll
    } else {
        Answer::Deny
    }
}

/// The prompt shown before a tool call.
pub open spec fn confirmation_prompt_spec(tool_name: Seq<char>, args: Seq<char>) -> Seq<char> {
    "\n[CONFIRMATION REQUIRED]\nThe agent wants to execute the following tool:\nTool: "@ + tool_name
        + "\nArgs: "@ + args + "\nDo you approve this execution? (y/N/a [approve all]): "@
}

/// What an answer line means, as [`answer_of`] says.
pub fn classify_answer(line: &str) -> (a: Answer)
    ensures
        a == answer_of(line@),
{
    let t = trimmed(line);
    let lowered = to_lowercase(t.as_str());
    let s = lowered.as_str();
    if str_eq(s, "y") || str_eq(s, "yes") {
        Answer::Approve
    } else if str_eq(s, "a") || str_eq(s, "all") {
        Answer::ApproveAll
    } else {
        Answer::Deny
    }
}

/// The prompt shown before calling `tool_name` with `args`.
pub fn confirmation_prompt(tool_name: &str, args: &str) -> (s: String)
    ensures
        s@ == confirmation_prompt_spec(tool_name@, args@),
{
    let mut s = owned(
        "\n[CONFIRMATION REQUIRED]\nThe agent wants to execute the following tool:\nTool: ",
    );
    s.append(tool_name);
    s.append("\nArgs: ");
    s.append(args);
    s.append("\nDo you approve this execution? (y/N/a [approve all]): ");
    s
}

/// Writes `text` to standard error (`Write::write_all` on `std::io::stderr()`).
/// A failed write is ignored.
#[verifier::external_body]
fn write_stderr(text: &str) {
    let _ = std::io::Write::write_all(&mut std::io::stderr(), text.as_bytes());
}

/// Reads one line from standard input (`Stdin::read_line`); `None` when the
/// read fails.  What the user types is not stated.
#[verifier::external_body]
fn read_stdin_line() -> (r: Option<String>) {
    let mut line = String::new();
    match std::io::stdin().read_line(&mut line) {
        Ok(_) => Some(line),
        Err(_) => None,
    }
}

/// The terminal interface.  Once the user answers "all", later calls of
/// the session are approved without asking.
pub struct CliUserInterface {
    auto_approve: AtomicBool,
}

impl CliUserInterface {
    /// An interface that asks before every call.
    pub fn new() -> (ui: Self) {
        CliUserInterface { auto_approve: AtomicBool::new(false) }
    }

    /// Decides on an answer: `None` stands for a failed read.  Returns the
    /// decision and whether later calls are to be approved without asking.
    pub fn decide(answer: Option<&str>) -> (r: (bool, bool))
        ensures
            match answer {
                None => r == (false, false),
                Some(line) => match answer_of(line@) {
                    Answer::Approve => r == (true, false),
                    Answer::ApproveAll => r == (true, true),
                    Answer::Deny => r == (false, false),
                },
            },
    {
        match answer {
            None => (false, false),
            Some(line) => match classify_answer(line) {
                Answer::Approve => (true, false),
                Answer::ApproveAll => (true, true),
                Answer::Deny => (false, false),
            },
        }
    }
}

impl UserInterface for CliUserInterface {
    fn confirm_execution(&self, tool_name: &str, args: &str) -> bool {
        if self.auto_approve.load(Ordering::Relaxed) {
            return true;
        }
        write_stderr(confirmation_prompt(tool_name, args).as_str());
        let line = read_stdin_line();
        let answer: Option<&str> = match &line {
            Some(l) => Some(l.as_str()),
            None => None,
        };
        let (approved, approve_all) = Self::decide(answer);
        if approve_all {
            self.auto_approve.store(true, Ordering::Relaxed);
            write_stderr("Auto-approve enabled for this session.\n");
        }
        approved
    }
}

/// An interface that approves every call.
pub struct AutoUserInterface;

impl UserInterface for AutoUserInterface {
    fn confirm_execution(&self, tool_name: &str, args: &str) -> (b: bool)
        ensures
            b,
    {
        true
    }
}

} // verus!
