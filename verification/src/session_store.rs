//! Where sessions live on disk: each session is `<dir>/<id>.json` and its
//! event log `<dir>/<id>_events.jsonl`; a directory entry is a session file
//! when its extension is `json`.  Reading and writing the files, and the
//! JSON encoding, are the caller's part.

use vstd::prelude::*;
use crate::python_env::{join_path, path_join};
use crate::text::{chars_of, find_last, is_last_index_of, last_index_of, owned, slice_range, string_from_chars};

verus! {

/// The extension of a file name (`Path::extension`): what follows the last
/// `.`, unless there is none or the only one starts the name.
pub open spec fn extension_spec(name: Seq<char>) -> Option<Seq<char>> {
    if exists|i: int| is_last_index_of(name, '.', i) {
        let d = last_index_of(name, '.');
        if d == 0 {
            None
        } else {
            Some(name.skip(d + 1))
        }
    } else {
        None
    }
}

/// The extension of the file name `name`, as [`extension_spec`] says.
pub fn extension_of(name: &str) -> (r: Option<String>)
    ensures
        match r {
            Some(e) => extension_spec(name@) == Some(e@),
            None => extension_spec(name@) is None,
        },
{
    let v = chars_of(name);
    let n = v.len();
    match find_last(&v, '.') {
        Some(d) => {
            if d == 0 {
                None
            } else {
                let e = slice_range(&v, d + 1, n);
                assert(e@ =~= v@.skip(d + 1));
                Some(string_from_chars(e.as_slice()))
            }
        },
        None => None,
    }
}

/// Whether the file named `name` holds a session (its extension is `json`).
pub fn is_session_file(name: &str) -> (b: bool)
    ensures
        b == (extension_spec(name@) == Some("json"@)),
{
    match extension_of(name) {
        Some(e) => crate::text::str_eq(e.as_str(), "json"),
        None => false,
    }
}

/// Sessions stored as JSON files in a directory.
#[derive(Debug, Clone)]
pub struct FileSessionStore {
    storage_dir: String,
}

impl FileSessionStore {
    /// The directory.
    pub closed spec fn dir(&self) -> Seq<char> {
        self.storage_dir@
    }

    /// A store in `storage_dir` (which the caller creates when missing).
    pub fn new(storage_dir: String) -> (s: Self)
        ensures
            s.dir() == storage_dir@,
    {
        FileSessionStore { storage_dir }
    }

    /// The directory.
    pub fn storage_dir(&self) -> (r: &str)
        ensures
            r@ == self.dir(),
    {
        self.storage_dir.as_str()
    }

    /// The file of session `id`: `<dir>/<id>.json`.
    pub fn session_path(&self, id: &str) -> (p: String)
        ensures
            p@ == path_join(self.dir(), id@ + ".json"@),
    {
        let mut name = owned(id);
        name.append(".json");
        join_path(self.storage_dir.as_str(), name.as_str())
    }

    /// The event log of session `id`: `<dir>/<id>_events.jsonl`.
    pub fn events_path(&self, id: &str) -> (p: String)
        ensures
            p@ == path_join(self.dir(), id@ + "_events.jsonl"@),
    {
        let mut name = owned(id);
        name.append("_events.jsonl");
        join_path(self.storage_dir.as_str(), name.as_str())
    }
}

} // verus!
