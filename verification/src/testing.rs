//! A user interface for tests: it approves every tool call and records the
//! messages and errors shown to it.

use vstd::prelude::*;
use crate::text::owned;
use crate::ui::UserInterface;

verus! {

/// The record of a shown message.
pub open spec fn message_line(message: Seq<char>) -> Seq<char> {
    "MSG: "@ + message
}

/// The record of a shown error.
pub open spec fn error_line(error: Seq<char>) -> Seq<char> {
    "ERR: "@ + error
}

/// The views of recorded lines.
pub open spec fn line_views(lines: Seq<String>) -> Seq<Seq<char>> {
    lines.map_values(|l: String| l@)
}

/// A user interface that approves everything and records what it is shown.
pub struct MockUserInterface {
    pub messages: Vec<String>,
}

impl MockUserInterface {
    /// An interface with nothing recorded.
    pub fn new() -> (ui: Self)
        ensures
            ui.messages@.len() == 0,
    {
        MockUserInterface { messages: Vec::new() }
    }

    /// A copy of the recorded lines, oldest first.
    pub fn get_messages(&self) -> (r: Vec<String>)
        ensures
            r@ == self.messages@,
    {
        let mut r: Vec<String> = Vec::new();
        let mut i: usize = 0;
        while i < self.messages.len()
            invariant
                i <= self.messages@.len(),
                r@ == self.messages@.take(i as int),
            decreases self.messages@.len() - i,
        {
            r.push(self.messages[i].clone());
            i = i + 1;
            assert(r@ =~= self.messages@.take(i as int));
        }
        assert(self.messages@.take(self.messages@.len() as int) =~= self.messages@);
        r
    }

    /// Records a message.
    pub fn show_message(&mut self, message: &str)
        ensures
            line_views(final(self).messages@) == line_views(old(self).messages@).push(
                message_line(message@),
            ),
    {
        let mut line = owned("MSG: ");
        line.append(message);
        self.messages.push(line);
        assert(line_views(self.messages@) =~= line_views(old(self).messages@).push(
            message_line(message@),
        ));
    }

    /// Records an error.
    pub fn show_error(&mut self, error: &str)
        ensures
            line_views(final(self).messages@) == line_views(old(self).messages@).push(
                error_line(error@),
            ),
    {
        let mut line = owned("ERR: ");
        line.append(error);
        self.messages.push(line);
        assert(line_views(self.messages@) =~= line_views(old(self).messages@).push(
            error_line(error@),
        ));
    }
}

impl UserInterface for MockUserInterface {
    fn confirm_execution(&self, tool_name: &str, args: &str) -> (b: bool)
        ensures
            b,
    {
        true
    }
}

} // verus!
