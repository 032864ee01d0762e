//! The agent's tools: their definitions, how a tool call is turned into an
//! action (or answered at once), and how outcomes are reported back to the
//! model.  The host performs the actions (files, processes, network).

use vstd::prelude::*;
use crate::strmap::StrMap;
use crate::ui::UserInterface;
use crate::text::{
    str_eq, chars_of, occurs_at, find_chars, is_first_occurrence, contains_seq, owned, slice_range, string_from_chars,
    decimal, trim, trimmed, u64_to_string,
};
use crate::compactor::{join, join_strings, string_views};

verus! {

/// The JSON type of a tool parameter.
#[derive(Debug, Clone, Copy, PartialEq, Eq, Structural)]
pub enum ParamKind {
    String,
    Integer,
    /// An array of strings.
    StringArray,
}

/// A tool parameter.
#[derive(Debug, Clone)]
pub struct ParamSpec {
    pub name: String,
    pub kind: ParamKind,
    pub description: String,
    pub required: bool,
}

/// The view of a tool parameter.
pub struct ParamView {
    pub name: Seq<char>,
    pub kind: ParamKind,
    pub description: Seq<char>,
    pub required: bool,
}

impl ParamSpec {
    pub open spec fn view(&self) -> ParamView {
        ParamView {
            name: self.name@,
            kind: self.kind,
            description: self.description@,
            required: self.required,
        }
    }
}

/// A tool as the model sees it.
#[derive(Debug, Clone)]
pub struct ToolSpec {
    pub name: String,
    pub description: String,
    pub params: Vec<ParamSpec>,
}

/// The view of a tool.
pub struct ToolSpecView {
    pub name: Seq<char>,
    pub description: Seq<char>,
    pub params: Seq<ParamView>,
}

impl ToolSpec {
    pub open spec fn view(&self) -> ToolSpecView {
        ToolSpecView {
            name: self.name@,
            description: self.description@,
            params: Seq::new(self.params@.len(), |i: int| self.params@[i].view()),
        }
    }
}

/// The views of tools.
pub open spec fn tool_views(ts: Seq<ToolSpec>) -> Seq<ToolSpecView> {
    Seq::new(ts.len(), |i: int| ts[i].view())
}

/// The built-in tools, in the order the model sees them: each tool's
/// name, description and parameters.
pub open spec fn builtin_tools_spec() -> Seq<ToolSpecView> {
    seq![
        ToolSpecView { name: "read_file"@, description: "Read the complete contents of a file. CRITICAL: You MUST provide the 'path' parameter!"@, params: seq![ParamView { name: "path"@, kind: ParamKind::String, description: "Relative path to the file"@, required: true }] },
        ToolSpecView { name: "write_file"@, description: "Overwrite a file with new content"@, params: seq![ParamView { name: "path"@, kind: ParamKind::String, description: "Relative path to the file"@, required: true }, ParamView { name: "content"@, kind: ParamKind::String, description: "New content for the file"@, required: true }] },
        ToolSpecView { name: "fetch_url"@, description: "Fetch content from a URL (HTTP/HTTPS)"@, params: seq![ParamView { name: "url"@, kind: ParamKind::String, description: "The URL to fetch"@, required: true }] },
        ToolSpecView { name: "run_command"@, description: "Execute a shell command"@, params: seq![ParamView { name: "command"@, kind: ParamKind::String, description: "The shell command to execute"@, required: true }] },
        ToolSpecView { name: "search_code"@, description: "Search for a pattern in the codebase using ripgrep. CRITICAL: You MUST provide the 'pattern' parameter!"@, params: seq![ParamView { name: "pattern"@, kind: ParamKind::String, description: "The regex pattern to search for"@, required: true }] },
        ToolSpecView { name: "list_files"@, description: "List files and directories"@, params: seq![ParamView { name: "path"@, kind: ParamKind::String, description: "Directory to list (defaults to current dir)"@, required: false }, ParamView { name: "depth"@, kind: ParamKind::Integer, description: "Depth limit (optional)"@, required: false }] },
        ToolSpecView { name: "apply_patch"@, description: "Apply a partial update to a file using search and replace blocks"@, params: seq![ParamView { name: "path"@, kind: ParamKind::String, description: "Path to the file to modify"@, required: true }, ParamView { name: "original_snippet"@, kind: ParamKind::String, description: "The exact block of code to be replaced"@, required: true }, ParamView { name: "new_snippet"@, kind: ParamKind::String, description: "The new block of code to insert"@, required: true }, ParamView { name: "start_line"@, kind: ParamKind::Integer, description: "Optional: approximate start line number to help disambiguate matches"@, required: false }] },
        ToolSpecView { name: "set_env"@, description: "Set an environment variable for the session"@, params: seq![ParamView { name: "key"@, kind: ParamKind::String, description: "Environment variable name"@, required: true }, ParamView { name: "value"@, kind: ParamKind::String, description: "Value to set"@, required: true }] },
        ToolSpecView { name: "get_env"@, description: "Get the value of an environment variable"@, params: seq![ParamView { name: "key"@, kind: ParamKind::String, description: "Environment variable name"@, required: true }] },
        ToolSpecView { name: "run_python"@, description: "Execute a Python script in a dedicated virtual environment"@, params: seq![ParamView { name: "script_path"@, kind: ParamKind::String, description: "Path to the .py file"@, required: true }, ParamView { name: "args"@, kind: ParamKind::StringArray, description: "Arguments to pass to the script"@, required: false }] },
    ]
}

fn param(name: &str, kind: ParamKind, description: &str, required: bool) -> (p: ParamSpec)
    ensures
        p.view() == (ParamView { name: name@, kind, description: description@, required }),
{
    ParamSpec { name: owned(name), kind, description: owned(description), required }
}

fn tool_0() -> (t: ToolSpec)
    ensures
        t.view() == builtin_tools_spec()[0],
{
    let mut params: Vec<ParamSpec> = Vec::new();
    params.push(param("path", ParamKind::String, "Relative path to the file", true));
    let t = ToolSpec { name: owned("read_file"), description: owned("Read the complete contents of a file. CRITICAL: You MUST provide the 'path' parameter!"), params };
    assert(t.view().params =~= builtin_tools_spec()[0].params);
    t
}

fn tool_1() -> (t: ToolSpec)
    ensures
        t.view() == builtin_tools_spec()[1],
{
    let mut params: Vec<ParamSpec> = Vec::new();
    params.push(param("path", ParamKind::String, "Relative path to the file", true));
    params.push(param("content", ParamKind::String, "New content for the file", true));
    let t = ToolSpec { name: owned("write_file"), description: owned("Overwrite a file with new content"), params };
    assert(t.view().params =~= builtin_tools_spec()[1].params);
    t
}

fn tool_2() -> (t: ToolSpec)
    ensures
        t.view() == builtin_tools_spec()[2],
{
    let mut params: Vec<ParamSpec> = Vec::new();
    params.push(param("url", ParamKind::String, "The URL to fetch", true));
    let t = ToolSpec { name: owned("fetch_url"), description: owned("Fetch content from a URL (HTTP/HTTPS)"), params };
    assert(t.view().params =~= builtin_tools_spec()[2].params);
    t
}

fn tool_3() -> (t: ToolSpec)
    ensures
        t.view() == builtin_tools_spec()[3],
{
    let mut params: Vec<ParamSpec> = Vec::new();
    params.push(param("command", ParamKind::String, "The shell command to execute", true));
    let t = ToolSpec { name: owned("run_command"), description: owned("Execute a shell command"), params };
    assert(t.view().params =~= builtin_tools_spec()[3].params);
    t
}

fn tool_4() -> (t: ToolSpec)
    ensures
        t.view() == builtin_tools_spec()[4],
{
    let mut params: Vec<ParamSpec> = Vec::new();
    params.push(param("pattern", ParamKind::String, "The regex pattern to search for", true));
    let t = ToolSpec { name: owned("search_code"), description: owned("Search for a pattern in the codebase using ripgrep. CRITICAL: You MUST provide the 'pattern' parameter!"), params };
    assert(t.view().params =~= builtin_tools_spec()[4].params);
    t
}

fn tool_5() -> (t: ToolSpec)
    ensures
        t.view() == builtin_tools_spec()[5],
{
    let mut params: Vec<ParamSpec> = Vec::new();
    params.push(param("path", ParamKind::String, "Directory to list (defaults to current dir)", false));
    params.push(param("depth", ParamKind::Integer, "Depth limit (optional)", false));
    let t = ToolSpec { name: owned("list_files"), description: owned("List files and directories"), params };
    assert(t.view().params =~= builtin_tools_spec()[5].params);
    t
}

fn tool_6() -> (t: ToolSpec)
    ensures
        t.view() == builtin_tools_spec()[6],
{
    let mut params: Vec<ParamSpec> = Vec::new();
    params.push(param("path", ParamKind::String, "Path to the file to modify", true));
    params.push(param("original_snippet", ParamKind::String, "The exact block of code to be replaced", true));
    params.push(param("new_snippet", ParamKind::String, "The new block of code to insert", true));
    params.push(param("start_line", ParamKind::Integer, "Optional: approximate start line number to help disambiguate matches", false));
    let t = ToolSpec { name: owned("apply_patch"), description: owned("Apply a partial update to a file using search and replace blocks"), params };
    assert(t.view().params =~= builtin_tools_spec()[6].params);
    t
}

fn tool_7() -> (t: ToolSpec)
    ensures
        t.view() == builtin_tools_spec()[7],
{
    let mut params: Vec<ParamSpec> = Vec::new();
    params.push(param("key", ParamKind::String, "Environment variable name", true));
    params.push(param("value", ParamKind::String, "Value to set", true));
    let t = ToolSpec { name: owned("set_env"), description: owned("Set an environment variable for the session"), params };
    assert(t.view().params =~= builtin_tools_spec()[7].params);
    t
}

fn tool_8() -> (t: ToolSpec)
    ensures
        t.view() == builtin_tools_spec()[8],
{
    let mut params: Vec<ParamSpec> = Vec::new();
    params.push(param("key", ParamKind::String, "Environment variable name", true));
    let t = ToolSpec { name: owned("get_env"), description: owned("Get the value of an environment variable"), params };
    assert(t.view().params =~= builtin_tools_spec()[8].params);
    t
}

fn tool_9() -> (t: ToolSpec)
    ensures
        t.view() == builtin_tools_spec()[9],
{
    let mut params: Vec<ParamSpec> = Vec::new();
    params.push(param("script_path", ParamKind::String, "Path to the .py file", true));
    params.push(param("args", ParamKind::StringArray, "Arguments to pass to the script", false));
    let t = ToolSpec { name: owned("run_python"), description: owned("Execute a Python script in a dedicated virtual environment"), params };
    assert(t.view().params =~= builtin_tools_spec()[9].params);
    t
}

/// The built-in tools (see `builtin_tools_spec`).
pub fn builtin_tools() -> (ts: Vec<ToolSpec>)
    ensures
        tool_views(ts@) == builtin_tools_spec(),
{
    let mut ts: Vec<ToolSpec> = Vec::new();
    ts.push(tool_0());
    ts.push(tool_1());
    ts.push(tool_2());
    ts.push(tool_3());
    ts.push(tool_4());
    ts.push(tool_5());
    ts.push(tool_6());
    ts.push(tool_7());
    ts.push(tool_8());
    ts.push(tool_9());
    assert(tool_views(ts@) =~= builtin_tools_spec());
    ts
}

// ---------------------------------------------------------------------------
// Tool calls
// ---------------------------------------------------------------------------

/// The arguments of a tool call, by name, as decoded from its JSON: a field
/// is set when the JSON has that key with a value of the expected type
/// (`args` keeps the string elements of the array).
#[derive(Debug, Clone)]
pub struct ToolArgs {
    pub path: Option<String>,
    pub content: Option<String>,
    pub url: Option<String>,
    pub command: Option<String>,
    pub script_path: Option<String>,
    pub args: Option<Vec<String>>,
    pub key: Option<String>,
    pub value: Option<String>,
    pub pattern: Option<String>,
    pub depth: Option<i64>,
    pub original_snippet: Option<String>,
    pub new_snippet: Option<String>,
    pub start_line: Option<i64>,
}

/// What to do for a tool call.
#[derive(Debug, Clone)]
pub enum ToolAction {
    /// Answer the model at once with this text.
    Reply(String),
    ReadFile { path: String },
    WriteFile { path: String, content: String },
    FetchUrl { url: String },
    RunCommand { command: String },
    RunPython { script_path: String, args: Vec<String> },
    SearchCode { pattern: String },
    ListFiles { path: Option<String>, depth: Option<i64> },
    ApplyPatch { path: String, original: String, new: String, start_line: Option<i64> },
}

/// Tools that change the machine and need the user's approval.
pub open spec fn needs_confirmation_spec(name: Seq<char>) -> bool {
    name == "run_command"@ || name == "write_file"@ || name == "apply_patch"@
}

/// Whether the tool `name` needs the user's approval before it runs.
pub fn needs_confirmation(name: &str) -> (b: bool)
    ensures
        b == needs_confirmation_spec(name@),
{
    str_eq(name, "run_command") || str_eq(name, "write_file")
        || str_eq(name, "apply_patch")
}

/// The number of bytes UTF-8 uses for `c`.
pub open spec fn utf8_width(c: char) -> nat {
    let u = c as u32;
    if u < 0x80 {
        1
    } else if u < 0x800 {
        2
    } else if u < 0x10000 {
        3
    } else {
        4
    }
}

/// The length of a text in UTF-8 bytes (`str::len`).
pub open spec fn byte_len(s: Seq<char>) -> nat
    decreases s.len(),
{
    if s.len() == 0 {
        0
    } else {
        byte_len(s.drop_last()) + utf8_width(s.last())
    }
}

/// Whether `s` takes more than `limit` bytes in UTF-8.
pub fn byte_len_exceeds(s: &str, limit: usize) -> (b: bool)
    ensures
        b == (byte_len(s@) > limit),
{
    let v = chars_of(s);
    let mut total: usize = 0;
    let mut k: usize = 0;
    assert(v@.take(0) =~= Seq::<char>::empty());
    while k < v.len()
        invariant
            k <= v.len(),
            v@ == s@,
            total == byte_len(v@.take(k as int)),
            total <= limit,
        decreases v.len() - k,
    {
        let u = v[k] as u32;
        let w: usize = if u < 0x80 {
            1
        } else if u < 0x800 {
            2
        } else if u < 0x10000 {
            3
        } else {
            4
        };
        proof {
            assert(v@.take(k + 1).drop_last() =~= v@.take(k as int));
            assert(v@.take(k + 1).last() == v@[k as int]);
        }
        if w > limit - total {
            proof {
                lemma_byte_len_prefix(v@, k + 1);
            }
            return true;
        }
        total = total + w;
        k = k + 1;
    }
    assert(v@.take(v.len() as int) =~= v@);
    false
}

proof fn lemma_byte_len_prefix(s: Seq<char>, n: int)
    requires
        0 <= n <= s.len(),
    ensures
        byte_len(s.take(n)) <= byte_len(s),
    decreases s.len() - n,
{
    if n < s.len() {
        lemma_byte_len_prefix(s, n + 1);
        assert(s.take(n + 1).drop_last() =~= s.take(n));
    } else {
        assert(s.take(n) =~= s);
    }
}

/// The longest environment variable name `set_env` accepts, in bytes.
pub const MAX_ENV_KEY_BYTES: usize = 100;

/// The longest environment variable value `set_env` accepts, in bytes.
pub const MAX_ENV_VALUE_BYTES: usize = 5000;

/// A `set_env` call is refused when its key is over 100 bytes or its value
/// over 5000 bytes (in UTF-8).
pub open spec fn env_set_too_large(key: Seq<char>, value: Seq<char>) -> bool {
    byte_len(key) > MAX_ENV_KEY_BYTES || byte_len(value) > MAX_ENV_VALUE_BYTES
}

/// The session's variables after `set_env(key, value)`.
pub open spec fn env_after_set(env: Map<Seq<char>, String>, key: Seq<char>, value: String) -> Map<
    Seq<char>,
    String,
> {
    if env_set_too_large(key, value@) {
        env
    } else {
        env.insert(key, value)
    }
}

/// What `get_env(key)` answers with the session's variables `env`.
pub open spec fn get_env_reply(env: Map<Seq<char>, String>, key: Seq<char>) -> Seq<char> {
    if env.dom().contains(key) {
        env[key]@
    } else {
        "Environment variable not set"@
    }
}

/// Law: session variables read back what was set.  After a `set_env` of a
/// key and value within the size limits, `get_env` of that key answers the
/// value, and other keys answer as before; an oversized `set_env` changes
/// nothing.
pub proof fn law_env_get_after_set(
    env: Map<Seq<char>, String>,
    key: Seq<char>,
    value: String,
    other: Seq<char>,
)
    ensures
        !env_set_too_large(key, value@) ==> get_env_reply(env_after_set(env, key, value), key)
            == value@,
        other != key ==> get_env_reply(env_after_set(env, key, value), other) == get_env_reply(
            env,
            other,
        ),
        env_set_too_large(key, value@) ==> env_after_set(env, key, value) == env,
{
}

/// The reply to a tool call with `text`.
pub open spec fn replies(a: ToolAction, text: Seq<char>) -> bool {
    a matches ToolAction::Reply(t) && t@ == text
}

/// Dispatches the model's tool calls: asks for approval where a tool needs
/// it, and turns each call into an action.
pub struct ToolHandler;

impl ToolHandler {
    /// Whether the call may run: a tool that needs approval asks `ui`, whose
    /// answer is the result; any other tool is approved without asking.
    pub fn approval<U: UserInterface + ?Sized>(ui: &U, name: &str, args_text: &str) -> (approved: bool)
        ensures
            !needs_confirmation_spec(name@) ==> approved,
            needs_confirmation_spec(name@) ==> call_ensures(
                U::confirm_execution,
                (ui, name, args_text),
                approved,
            ),
    {
        if needs_confirmation(name) {
            ui.confirm_execution(name, args_text)
        } else {
            true
        }
    }

    /// Turns a tool call into an action.  `approved` is the user's answer for a
    /// tool that needs approval.  The session's environment variables are read
    /// and set here, by `get_env` and `set_env`; everything else is an action
    /// for the host, or a reply when an argument is missing.
    pub fn plan_call(name: &str, args: &ToolArgs, approved: bool, env: &mut StrMap<String>) -> (a:
        ToolAction)
        requires
            old(env).wf(),
        ensures
            final(env).wf(),
            needs_confirmation_spec(name@) && !approved ==> replies(a, "User denied execution"@),
            !(name@ == "set_env"@ && !(needs_confirmation_spec(name@) && !approved)) ==> final(env).map()
                == old(env).map(),
            !(needs_confirmation_spec(name@) && !approved) ==> {
                if name@ == "read_file"@ {
                    match args.path {
                        Some(p) => a == ToolAction::ReadFile { path: p },
                        None => replies(a, "Error: Missing path argument"@),
                    }
                } else if name@ == "write_file"@ {
                    match (args.path, args.content) {
                        (Some(p), Some(c)) => a == ToolAction::WriteFile { path: p, content: c },
                        _ => replies(a, "Error: Missing path or content argument"@),
                    }
                } else if name@ == "fetch_url"@ {
                    match args.url {
                        Some(u) => a == ToolAction::FetchUrl { url: u },
                        None => replies(a, "Error: Missing url argument"@),
                    }
                } else if name@ == "run_command"@ {
                    match args.command {
                        Some(c) => a == ToolAction::RunCommand { command: c },
                        None => replies(a, "Error: Missing command argument"@),
                    }
                } else if name@ == "run_python"@ {
                    match args.script_path {
                        Some(p) => a matches ToolAction::RunPython { script_path, args: xs } && script_path
                            == p && xs@ == match args.args {
                            Some(v) => v@,
                            None => Seq::<String>::empty(),
                        },
                        None => replies(a, "Error: Missing script_path argument"@),
                    }
                } else if name@ == "set_env"@ {
                    match (args.key, args.value) {
                        (Some(k), Some(v)) => {
                            &&& final(env).map() == env_after_set(old(env).map(), k@, v)
                            &&& if env_set_too_large(k@, v@) {
                                replies(a, "Error: key or value too large"@)
                            } else {
                                replies(a, "Environment variable '"@ + k@ + "' set."@)
                            }
                        },
                        _ => replies(a, "Error: Missing key or value"@) && final(env).map() == old(
                            env,
                        ).map(),
                    }
                } else if name@ == "get_env"@ {
                    match args.key {
                        Some(k) => replies(a, get_env_reply(old(env).map(), k@)),
                        None => replies(a, "Error: Missing key"@),
                    }
                } else if name@ == "search_code"@ {
                    match args.pattern {
                        Some(p) => a == ToolAction::SearchCode { pattern: p },
                        None => replies(a, "Error: Missing pattern argument"@),
                    }
                } else if name@ == "list_files"@ {
                    a == ToolAction::ListFiles { path: args.path, depth: args.depth }
                } else if name@ == "apply_patch"@ {
                    match (args.path, args.original_snippet, args.new_snippet) {
                        (Some(p), Some(o), Some(n)) => a == ToolAction::ApplyPatch {
                            path: p,
                            original: o,
                            new: n,
                            start_line: args.start_line,
                        },
                        _ => replies(a, "Error: Missing arguments (path, original_snippet, new_snippet)"@),
                    }
                } else {
                    replies(a, "Error: Unknown tool "@ + name@)
                }
            },
    {
        if needs_confirmation(name) && !approved {
            return ToolAction::Reply(owned("User denied execution"));
        }
        if str_eq(name, "read_file") {
            match &args.path {
                Some(p) => ToolAction::ReadFile { path: p.clone() },
                None => ToolAction::Reply(owned("Error: Missing path argument")),
            }
        } else if str_eq(name, "write_file") {
            match (&args.path, &args.content) {
                (Some(p), Some(c)) => ToolAction::WriteFile { path: p.clone(), content: c.clone() },
                _ => ToolAction::Reply(owned("Error: Missing path or content argument")),
            }
        } else if str_eq(name, "fetch_url") {
            match &args.url {
                Some(u) => ToolAction::FetchUrl { url: u.clone() },
                None => ToolAction::Reply(owned("Error: Missing url argument")),
            }
        } else if str_eq(name, "run_command") {
            match &args.command {
                Some(c) => ToolAction::RunCommand { command: c.clone() },
                None => ToolAction::Reply(owned("Error: Missing command argument")),
            }
        } else if str_eq(name, "run_python") {
            match &args.script_path {
                Some(p) => {
                    let xs = match &args.args {
                        Some(v) => copy_strings(v),
                        None => Vec::new(),
                    };
                    ToolAction::RunPython { script_path: p.clone(), args: xs }
                },
                None => ToolAction::Reply(owned("Error: Missing script_path argument")),
            }
        } else if str_eq(name, "set_env") {
            match (&args.key, &args.value) {
                (Some(k), Some(v)) => {
                    if byte_len_exceeds(k.as_str(), MAX_ENV_KEY_BYTES) || byte_len_exceeds(v.as_str(), MAX_ENV_VALUE_BYTES) {
                        ToolAction::Reply(owned("Error: key or value too large"))
                    } else {
                        env.insert(k.as_str(), v.clone());
                        let mut t = owned("Environment variable '");
                        t.append(k.as_str());
                        t.append("' set.");
                        ToolAction::Reply(t)
                    }
                },
                _ => ToolAction::Reply(owned("Error: Missing key or value")),
            }
        } else if str_eq(name, "get_env") {
            match &args.key {
                Some(k) => match env.get(k.as_str()) {
                    Some(v) => ToolAction::Reply(v.clone()),
                    None => ToolAction::Reply(owned("Environment variable not set")),
                },
                None => ToolAction::Reply(owned("Error: Missing key")),
            }
        } else if str_eq(name, "search_code") {
            match &args.pattern {
                Some(p) => ToolAction::SearchCode { pattern: p.clone() },
                None => ToolAction::Reply(owned("Error: Missing pattern argument")),
            }
        } else if str_eq(name, "list_files") {
            ToolAction::ListFiles { path: args.path.clone(), depth: args.depth }
        } else if str_eq(name, "apply_patch") {
            match (&args.path, &args.original_snippet, &args.new_snippet) {
                (Some(p), Some(o), Some(n)) => ToolAction::ApplyPatch {
                    path: p.clone(),
                    original: o.clone(),
                    new: n.clone(),
                    start_line: args.start_line,
                },
                _ => ToolAction::Reply(
                    owned("Error: Missing arguments (path, original_snippet, new_snippet)"),
                ),
            }
        } else {
            let mut t = owned("Error: Unknown tool ");
            t.append(name);
            ToolAction::Reply(t)
        }
    }
}

/// A copy of a list of strings.
pub fn copy_strings(v: &Vec<String>) -> (r: Vec<String>)
    ensures
        r@ == v@,
{
    let mut r: Vec<String> = Vec::new();
    let mut k: usize = 0;
    while k < v.len()
        invariant
            k <= v.len(),
            r@ == v@.take(k as int),
        decreases v.len() - k,
    {
        r.push(v[k].clone());
        k = k + 1;
        assert(r@ =~= v@.take(k as int));
    }
    assert(v@.take(v.len() as int) =~= v@);
    r
}

/// How the host's work on an action turned out.
#[derive(Debug, Clone)]
pub enum ToolOutcome {
    /// The action produced this text (file content, page, command output).
    Text(String),
    /// The action produced these lines (matches, file names).
    Lines(Vec<String>),
    /// The action succeeded without output.
    Done,
    /// The action failed with this message.
    Failed(String),
}

/// What the model is told of an outcome: the text it produced, or a fixed
/// success message, or `prefix` and the error.
pub open spec fn report_spec(
    outcome: ToolOutcome,
    success: Option<Seq<char>>,
    lines_prefix: Seq<char>,
    error_prefix: Seq<char>,
) -> Seq<char> {
    match outcome {
        ToolOutcome::Text(t) => match success {
            Some(s) => s,
            None => t@,
        },
        ToolOutcome::Lines(ls) => lines_prefix + join(string_views(ls@), "\n"@),
        ToolOutcome::Done => match success {
            Some(s) => s,
            None => Seq::empty(),
        },
        ToolOutcome::Failed(e) => error_prefix + e@,
    }
}

fn report_with(outcome: &ToolOutcome, success: Option<&str>, lines_prefix: &str, error_prefix: &str) -> (s: String)
    ensures
        s@ == report_spec(
            *outcome,
            match success {
                Some(x) => Some(x@),
                None => None,
            },
            lines_prefix@,
            error_prefix@,
        ),
{
    match outcome {
        ToolOutcome::Text(t) => match success {
            Some(x) => owned(x),
            None => t.clone(),
        },
        ToolOutcome::Lines(ls) => {
            let mut s = owned(lines_prefix);
            let body = join_strings(ls, "\n");
            s.append(body.as_str());
            s
        },
        ToolOutcome::Done => match success {
            Some(x) => owned(x),
            None => String::new(),
        },
        ToolOutcome::Failed(e) => {
            let mut s = owned(error_prefix);
            s.append(e.as_str());
            s
        },
    }
}

impl ToolAction {
    /// What the model is told once the host carried out this action.
    pub fn report(&self, outcome: &ToolOutcome) -> (s: String)
        ensures
            match *self {
                ToolAction::Reply(t) => s@ == t@,
                ToolAction::ReadFile { .. } => s@ == report_spec(*outcome, None, Seq::empty(), "Error reading file: "@),
                ToolAction::WriteFile { .. } => s@ == report_spec(*outcome, Some("File written successfully"@), Seq::empty(), "Error writing file: "@),
                ToolAction::FetchUrl { .. } => s@ == report_spec(*outcome, None, Seq::empty(), "Error fetching URL: "@),
                ToolAction::RunCommand { .. } => s@ == report_spec(*outcome, None, Seq::empty(), "Error running command: "@),
                ToolAction::RunPython { .. } => s@ == report_spec(*outcome, None, Seq::empty(), "Error running python: "@),
                ToolAction::SearchCode { .. } => s@ == report_spec(*outcome, None, Seq::empty(), "Error searching code: "@),
                ToolAction::ListFiles { .. } => s@ == report_spec(*outcome, None, "Files:\n"@, "Error listing files: "@),
                ToolAction::ApplyPatch { .. } => s@ == report_spec(*outcome, Some("Patch applied successfully"@), Seq::empty(), "Error applying patch: "@),
            },
    {
        proof {
            reveal_strlit("");
        }
        match self {
            ToolAction::Reply(t) => t.clone(),
            ToolAction::ReadFile { .. } => report_with(outcome, None, "", "Error reading file: "),
            ToolAction::WriteFile { .. } => report_with(outcome, Some("File written successfully"), "", "Error writing file: "),
            ToolAction::FetchUrl { .. } => report_with(outcome, None, "", "Error fetching URL: "),
            ToolAction::RunCommand { .. } => report_with(outcome, None, "", "Error running command: "),
            ToolAction::RunPython { .. } => report_with(outcome, None, "", "Error running python: "),
            ToolAction::SearchCode { .. } => report_with(outcome, None, "", "Error searching code: "),
            ToolAction::ListFiles { .. } => report_with(outcome, None, "Files:\n", "Error listing files: "),
            ToolAction::ApplyPatch { .. } => report_with(outcome, Some("Patch applied successfully"), "", "Error applying patch: "),
        }
    }
}

// ---------------------------------------------------------------------------
// Commands
// ---------------------------------------------------------------------------

/// The script arguments, each quoted and preceded by a space.
pub open spec fn quoted_args(args: Seq<Seq<char>>) -> Seq<char>
    decreases args.len(),
{
    if args.len() == 0 {
        Seq::empty()
    } else {
        quoted_args(args.drop_last()) + " '"@ + args.last() + "'"@
    }
}

/// The shell command that runs a Python script with the virtual
/// environment's interpreter: the interpreter, the script, then each
/// argument in single quotes.
pub fn python_command(python_bin: &str, script_path: &str, args: &Vec<String>) -> (c: String)
    ensures
        c@ == python_bin@ + " "@ + script_path@ + quoted_args(string_views(args@)),
{
    let mut c = owned(python_bin);
    c.append(" ");
    c.append(script_path);
    let ghost base = c@;
    let mut k: usize = 0;
    assert(string_views(args@).take(0) =~= Seq::<Seq<char>>::empty());
    while k < args.len()
        invariant
            k <= args.len(),
            c@ == base + quoted_args(string_views(args@).take(k as int)),
        decreases args.len() - k,
    {
        c.append(" '");
        c.append(args[k].as_str());
        c.append("'");
        proof {
            let sv = string_views(args@);
            assert(sv.take(k + 1).drop_last() =~= sv.take(k as int));
            assert(sv.take(k + 1).last() == args@[k as int]@);
        }
        k = k + 1;
    }
    assert(string_views(args@).take(args.len() as int) =~= string_views(args@));
    c
}

/// What a finished command reports: its standard output when it
/// succeeded; otherwise its exit status and both outputs.
pub fn command_report(success: bool, status: &str, stdout: &str, stderr: &str) -> (s: String)
    ensures
        success ==> s@ == stdout@,
        !success ==> s@ == "Command failed with status "@ + status@ + ":\nStdout: "@ + stdout@
            + "\nStderr: "@ + stderr@,
{
    if success {
        return owned(stdout);
    }
    let mut s = owned("Command failed with status ");
    s.append(status);
    s.append(":\nStdout: ");
    s.append(stdout);
    s.append("\nStderr: ");
    s.append(stderr);
    s
}

/// A line of a directory listing: the path, with a trailing `/` for a
/// directory.
pub fn listing_entry(path: &str, is_dir: bool) -> (s: String)
    ensures
        is_dir ==> s@ == path@ + "/"@,
        !is_dir ==> s@ == path@,
{
    let mut s = owned(path);
    if is_dir {
        s.append("/");
    }
    s
}

/// A code search stops once it holds more than this many matches.
pub const MAX_SEARCH_MATCHES: usize = 100;

/// After each searched file: when the matches found so far exceed the
/// limit, the marker line is added and the search stops.
pub fn close_search_if_full(matches: &mut Vec<String>) -> (stop: bool)
    ensures
        stop == (old(matches)@.len() > MAX_SEARCH_MATCHES),
        stop ==> final(matches)@.len() == old(matches)@.len() + 1 && final(matches)@.take(
            old(matches)@.len() as int,
        ) == old(matches)@ && final(matches)@.last()@ == "... (too many matches, truncated)"@,
        !stop ==> final(matches)@ == old(matches)@,
{
    if matches.len() > MAX_SEARCH_MATCHES {
        matches.push(owned("... (too many matches, truncated)"));
        proof {
            assert(matches@.take(old(matches)@.len() as int) =~= old(matches)@);
        }
        true
    } else {
        false
    }
}

/// One match of a code search: the file's path relative to the searched
/// root, the line's number and the line without its surrounding whitespace
/// (`"{path}:{lnum}: {line.trim()}"`).
pub fn search_match_line(path: &str, lnum: u64, line: &str) -> (r: String)
    ensures
        r@ == path@ + ":"@ + decimal(lnum as nat) + ": "@ + trim(line@),
{
    let mut r = owned(path);
    r.append(":");
    let n = u64_to_string(lnum);
    r.append(n.as_str());
    r.append(": ");
    let t = trimmed(line);
    r.append(t.as_str());
    r
}

/// The answer of a code search: the matches, or a single line saying there
/// were none.
pub fn search_answer(matches: Vec<String>) -> (r: Vec<String>)
    ensures
        matches@.len() > 0 ==> r@ == matches@,
        matches@.len() == 0 ==> r@.len() == 1 && r@[0]@ == "No matches found."@,
{
    if matches.len() == 0 {
        let mut r: Vec<String> = Vec::new();
        r.push(owned("No matches found."));
        r
    } else {
        matches
    }
}

// ---------------------------------------------------------------------------
// Tools of MCP servers
// ---------------------------------------------------------------------------

/// The name under which a server's tool is offered: `server__tool`.
pub fn namespaced_tool_name(server: &str, tool: &str) -> (n: String)
    ensures
        n@ == server@ + "__"@ + tool@,
{
    let mut n = owned(server);
    n.append("__");
    n.append(tool);
    n
}

/// The description offered for a server's tool.
pub fn mcp_tool_description(description: Option<String>) -> (d: String)
    ensures
        d@ == match description {
            Some(s) => s@,
            None => "No description"@,
        },
{
    match description {
        Some(s) => s,
        None => owned("No description"),
    }
}

/// Splits a namespaced tool name at its first `__` into the server and the
/// tool; a name without `__` is refused with a message.
pub fn split_tool_name(name: &str) -> (r: Result<(String, String), String>)
    ensures
        match r {
            Ok((server, tool)) => exists|i: int|
                is_first_occurrence(name@, "__"@, i) && server@ == name@.take(i) && tool@
                    == name@.skip(i + 2),
            Err(m) => !contains_seq(name@, "__"@) && m@ == "Invalid MCP tool name: "@ + name@
                + ". Expected format: server__tool"@,
        },
{
    let v = chars_of(name);
    let sep = chars_of("__");
    proof {
        reveal_strlit("__");
        assert("__"@.len() == 2);
        assert(sep@.len() == 2);
    }
    let found = find_chars(&v, &sep);
    match found {
        Some(i) => {
            assert(occurs_at(v@, sep@, i as int));
            let n = v.len();
            let a = slice_range(&v, 0, i);
            let b = slice_range(&v, i + 2, n);
            proof {
                assert(v@.subrange(0, i as int) =~= name@.take(i as int));
                assert(v@.subrange(i + 2, v@.len() as int) =~= name@.skip(i + 2));
            }
            Ok((string_from_chars(a.as_slice()), string_from_chars(b.as_slice())))
        },
        None => {
            let mut m = owned("Invalid MCP tool name: ");
            m.append(name);
            m.append(". Expected format: server__tool");
            Err(m)
        },
    }
}

} // verus!
