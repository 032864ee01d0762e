//! Compaction of a session's message history.
//!
//! When the history grows past a threshold, everything between the first
//! message (usually the system prompt) and the most recent messages is
//! summarised by a model and replaced by one summary message.  The model call
//! is the host's; this module decides whether and what to compact, writes the
//! prompt and the summary message, and splices the history.

use vstd::prelude::*;
use crate::text::owned;

verus! {

/// Compaction settings.
#[derive(Debug, Clone, Copy)]
pub struct SessionCompactor {
    /// Histories up to this length are left alone.
    pub threshold: usize,
    /// How many of the most recent messages are kept verbatim.
    pub keep_recent: usize,
}

/// The range `[1, end)` of messages to summarise for a history of `len`
/// messages, if any.
pub open spec fn compaction_range_spec(threshold: nat, keep_recent: nat, len: nat) -> Option<
    (nat, nat),
> {
    if len <= threshold {
        None
    } else {
        let end: nat = if len >= keep_recent { (len - keep_recent) as nat } else { 0 };
        if 1 >= end {
            None
        } else {
            Some((1, end))
        }
    }
}

/// `s` joined by `sep`.
pub open spec fn join(parts: Seq<Seq<char>>, sep: Seq<char>) -> Seq<char>
    decreases parts.len(),
{
    if parts.len() == 0 {
        Seq::empty()
    } else if parts.len() == 1 {
        parts[0]
    } else {
        join(parts.drop_last(), sep) + sep + parts.last()
    }
}

/// The text of a message block: its text, or a marker for other content.
pub open spec fn block_text(b: Option<Seq<char>>) -> Seq<char> {
    match b {
        Some(t) => t,
        None => "[Non-text content]"@,
    }
}

/// The views of optional texts.
pub open spec fn opt_views(bs: Seq<Option<String>>) -> Seq<Option<Seq<char>>> {
    Seq::new(
        bs.len(),
        |i: int|
            match bs[i] {
                Some(s) => Some(s@),
                None => None,
            },
    )
}

/// The views of strings.
pub open spec fn string_views(ss: Seq<String>) -> Seq<Seq<char>> {
    Seq::new(ss.len(), |i: int| ss[i]@)
}

/// How one message is rendered in the summary prompt: its role, a colon,
/// and its blocks joined by spaces.
pub open spec fn render_entry_spec(role: Seq<char>, blocks: Seq<Option<Seq<char>>>) -> Seq<char> {
    role + ": "@ + join(Seq::new(blocks.len(), |i: int| block_text(blocks[i])), " "@)
}

/// The opening of the summary prompt.
pub open spec fn summary_prompt_head() -> Seq<char> {
    "Please summarize the following conversation history concisely. Focus on key decisions, code changes, and user requirements. Ignore minor chit-chat. History:\n\n"@
}

proof fn lemma_join_push(parts: Seq<Seq<char>>, sep: Seq<char>, p: Seq<char>)
    requires
        parts.len() > 0,
    ensures
        join(parts.push(p), sep) == join(parts, sep) + sep + p,
{
    let q = parts.push(p);
    assert(q.drop_last() =~= parts);
}

/// Joins `parts` with `sep`.
pub fn join_strings(parts: &Vec<String>, sep: &str) -> (s: String)
    ensures
        s@ == join(string_views(parts@), sep@),
{
    let ghost pv = string_views(parts@);
    let mut s = String::new();
    let mut k: usize = 0;
    assert(pv.take(0) =~= Seq::<Seq<char>>::empty());
    while k < parts.len()
        invariant
            k <= parts.len(),
            pv == string_views(parts@),
            s@ == join(pv.take(k as int), sep@),
        decreases parts.len() - k,
    {
        if k > 0 {
            s.append(sep);
        }
        s.append(parts[k].as_str());
        proof {
            if k == 0 {
                assert(pv.take(1) =~= seq![pv[0]]);
                assert(s@ =~= pv[0]);
            } else {
                assert(pv.take(k + 1) =~= pv.take(k as int).push(pv[k as int]));
                lemma_join_push(pv.take(k as int), sep@, pv[k as int]);
            }
        }
        k = k + 1;
    }
    assert(pv.take(parts.len() as int) =~= pv);
    s
}

/// Renders one message for the summary prompt; a block is `None` when it
/// holds something other than text.
pub fn render_entry(role: &str, blocks: &Vec<Option<String>>) -> (s: String)
    ensures
        s@ == render_entry_spec(role@, opt_views(blocks@)),
{
    let mut texts: Vec<String> = Vec::new();
    let mut k: usize = 0;
    while k < blocks.len()
        invariant
            k <= blocks.len(),
            texts.len() == k,
            forall|m: int|
                0 <= m < k ==> (#[trigger] texts@[m])@ == block_text(opt_views(blocks@)[m]),
        decreases blocks.len() - k,
    {
        let t = match &blocks[k] {
            Some(b) => b.clone(),
            None => owned("[Non-text content]"),
        };
        texts.push(t);
        k = k + 1;
    }
    let joined = join_strings(&texts, " ");
    let ghost bv = opt_views(blocks@);
    assert(string_views(texts@) =~= Seq::new(bv.len(), |i: int| block_text(bv[i])));
    let mut s = owned(role);
    s.append(": ");
    s.append(joined.as_str());
    s
}

/// The prompt asking a model to summarise the rendered messages.
pub fn summary_prompt(entries: &Vec<String>) -> (s: String)
    ensures
        s@ == summary_prompt_head() + join(string_views(entries@), "\n\n"@),
{
    let mut s = owned(
        "Please summarize the following conversation history concisely. Focus on key decisions, code changes, and user requirements. Ignore minor chit-chat. History:\n\n",
    );
    let body = join_strings(entries, "\n\n");
    s.append(body.as_str());
    s
}

/// The text of the message that replaces the summarised part.
pub fn summary_note(summary: &str) -> (s: String)
    ensures
        s@ == "Older conversation summary: "@ + summary@,
{
    let mut s = owned("Older conversation summary: ");
    s.append(summary);
    s
}

impl SessionCompactor {
    /// The default settings: compact past 20 messages, keep the last 10.
    pub fn new() -> (c: Self)
        ensures
            c.threshold == 20,
            c.keep_recent == 10,
    {
        SessionCompactor { threshold: 20, keep_recent: 10 }
    }

    /// The range of messages to summarise in a history of `len` messages:
    /// from the second message up to (excluding) the first kept recent one;
    /// `None` when the history is short enough or that range is empty.
    pub fn compaction_range(&self, len: usize) -> (r: Option<(usize, usize)>)
        ensures
            match r {
                Some((a, b)) => compaction_range_spec(
                    self.threshold as nat,
                    self.keep_recent as nat,
                    len as nat,
                ) == Some((a as nat, b as nat)),
                None => compaction_range_spec(
                    self.threshold as nat,
                    self.keep_recent as nat,
                    len as nat,
                ) is None,
            },
    {
        if len <= self.threshold {
            return None;
        }
        let end = if len >= self.keep_recent {
            len - self.keep_recent
        } else {
            0
        };
        if 1 >= end {
            return None;
        }
        Some((1, end))
    }

    /// Replaces messages `1..end` of the history by `summary`.
    pub fn splice<T>(history: &mut Vec<T>, end: usize, summary: T)
        requires
            1 < end <= old(history)@.len(),
        ensures
            final(history)@ == seq![old(history)@[0], summary] + old(history)@.skip(end as int),
    {
        let mut rest: Vec<T> = history.split_off(end);
        history.truncate(1);
        history.push(summary);
        history.append(&mut rest);
        assert(history@ =~= seq![old(history)@[0], summary] + old(history)@.skip(end as int));
    }
}

/// Law: once compacted, a history that was past the threshold holds the
/// first message, the summary and exactly the `keep_recent` most recent
/// messages, in their order.
pub proof fn law_compaction_keeps_recent<T>(
    threshold: nat,
    keep_recent: nat,
    old_history: Seq<T>,
    new_history: Seq<T>,
    summary: T,
)
    requires
        compaction_range_spec(threshold, keep_recent, old_history.len()) matches Some((a, end)) && new_history
            == seq![old_history[0], summary] + old_history.skip(end as int),
    ensures
        new_history.len() == keep_recent + 2,
        new_history[0] == old_history[0],
        new_history[1] == summary,
        new_history.skip(2) == old_history.skip(old_history.len() - keep_recent),
        new_history.len() <= old_history.len(),
{
    let end = (old_history.len() - keep_recent) as int;
    assert(new_history.skip(2) =~= old_history.skip(end));
}

} // verus!
