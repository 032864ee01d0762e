//! Semantic memory bookkeeping: which project files are indexed, the
//! documents kept beside the vector index, and their ids.  The embedding
//! model and the vector index themselves are outside this library.

use vstd::prelude::*;
use crate::strmap::StrMap;
use crate::text::{decimal, lowercase_of, owned, str_eq, to_lowercase, usize_to_string};

verus! {

/// The dimension of the embeddings the index holds.
pub const EMBEDDING_DIM: usize = 384;

/// Files of at least this many bytes are not indexed.
pub const MAX_INDEXED_BYTES: usize = 102400;

/// A document stored beside the vector index.
#[derive(Debug, Clone)]
pub struct Document {
    pub id: u64,
    pub path: String,
    pub content: String,
    pub metadata: StrMap<String>,
}

/// The file extensions (in lower case) whose files are indexed.
pub open spec fn indexed_extension(e: Seq<char>) -> bool {
    e == "rs"@ || e == "md"@ || e == "toml"@ || e == "json"@ || e == "py"@ || e == "js"@ || e
        == "ts"@ || e == "sh"@ || e == "html"@ || e == "css"@
}

/// A file is indexed when its extension, lower-cased, is one of the indexed
/// ones and its content is non-empty and under the size limit.
pub open spec fn should_index_spec(ext: Option<Seq<char>>, content_bytes: nat) -> bool {
    match ext {
        Some(e) => indexed_extension(lowercase_of(e)) && 0 < content_bytes < MAX_INDEXED_BYTES,
        None => false,
    }
}

/// Whether a file with extension `ext` and `content_bytes` bytes of content
/// is indexed.
pub fn should_index(ext: Option<&str>, content_bytes: usize) -> (b: bool)
    ensures
        b == should_index_spec(
            match ext {
                Some(e) => Some(e@),
                None => None,
            },
            content_bytes as nat,
        ),
{
    match ext {
        Some(e) => {
            let lowered = to_lowercase(e);
            let l = lowered.as_str();
            let known = str_eq(l, "rs") || str_eq(l, "md") || str_eq(l, "toml") || str_eq(l, "json")
                || str_eq(l, "py") || str_eq(l, "js") || str_eq(l, "ts") || str_eq(l, "sh")
                || str_eq(l, "html") || str_eq(l, "css");
            known && 0 < content_bytes && content_bytes < MAX_INDEXED_BYTES
        },
        None => false,
    }
}

/// The error of an embedding of the wrong dimension.
pub open spec fn dimension_error_spec(len: nat) -> Seq<char> {
    "Embedding dimension mismatch: expected 384, got "@ + decimal(len)
}

/// Checks an embedding's dimension.
pub fn check_embedding_dim(len: usize) -> (r: Result<(), String>)
    ensures
        len == EMBEDDING_DIM ==> r is Ok,
        len != EMBEDDING_DIM ==> (r matches Err(m) && m@ == dimension_error_spec(len as nat)),
{
    if len == EMBEDDING_DIM {
        Ok(())
    } else {
        let mut m = owned("Embedding dimension mismatch: expected 384, got ");
        m.append(usize_to_string(len).as_str());
        Err(m)
    }
}

/// The id the next document gets: one more than the largest id in use, or
/// one when there is none.
pub open spec fn next_id_spec(ids: Seq<u64>) -> int
    decreases ids.len(),
{
    if ids.len() == 0 {
        1
    } else {
        let rest = next_id_spec(ids.drop_last());
        if ids.last() + 1 > rest {
            ids.last() + 1
        } else {
            rest
        }
    }
}

/// The id the next document gets, given the ids in use.
pub fn next_document_id(ids: &Vec<u64>) -> (n: u64)
    requires
        forall|i: int| 0 <= i < ids@.len() ==> ids@[i] < u64::MAX,
    ensures
        n == next_id_spec(ids@),
        forall|i: int| 0 <= i < ids@.len() ==> ids@[i] < n,
{
    let mut n: u64 = 1;
    let mut i: usize = 0;
    while i < ids.len()
        invariant
            i <= ids@.len(),
            forall|k: int| 0 <= k < ids@.len() ==> ids@[k] < u64::MAX,
            n == next_id_spec(ids@.take(i as int)),
            forall|k: int| 0 <= k < i ==> ids@[k] < n,
        decreases ids@.len() - i,
    {
        assert(ids@.take(i + 1).drop_last() =~= ids@.take(i as int));
        if ids[i] + 1 > n {
            n = ids[i] + 1;
        }
        i = i + 1;
    }
    assert(ids@.take(ids@.len() as int) =~= ids@);
    n
}

/// The report of an indexing pass.
pub open spec fn index_summary_spec(count: nat) -> Seq<char> {
    "Indexed "@ + decimal(count) + " files."@
}

/// The report of an indexing pass that indexed `count` files.
pub fn index_summary(count: usize) -> (s: String)
    ensures
        s@ == index_summary_spec(count as nat),
{
    let mut s = owned("Indexed ");
    s.append(usize_to_string(count).as_str());
    s.append(" files.");
    s
}

} // verus!
