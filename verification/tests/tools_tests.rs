use zene::strmap::StrMap;
use zene::tools::{
    builtin_tools, byte_len_exceeds, command_report, listing_entry, mcp_tool_description,
    namespaced_tool_name, needs_confirmation, python_command, search_answer, search_match_line, split_tool_name,
    ToolAction, ToolArgs, ToolHandler, ToolOutcome,
};
use zene::ui::{AutoUserInterface, UserInterface};
use zene::testing::MockUserInterface;

fn no_args() -> ToolArgs {
    ToolArgs {
        path: None,
        content: None,
        url: None,
        command: None,
        script_path: None,
        args: None,
        key: None,
        value: None,
        pattern: None,
        depth: None,
        original_snippet: None,
        new_snippet: None,
        start_line: None,
    }
}

fn reply(a: &ToolAction) -> String {
    match a {
        ToolAction::Reply(t) => t.clone(),
        other => panic!("expected a reply, got {:?}", other),
    }
}

struct Refuser;
impl UserInterface for Refuser {
    fn confirm_execution(&self, _tool_name: &str, _args: &str) -> bool {
        false
    }
}

#[test]
fn builtin_tool_list() {
    let tools = builtin_tools();
    assert_eq!(tools.len(), 10);
    assert_eq!(tools[0].name, "read_file");
    let names: Vec<&str> = tools.iter().map(|t| t.name.as_str()).collect();
    assert!(names.contains(&"apply_patch"));
    assert!(names.contains(&"set_env"));
}

#[test]
fn sensitive_tools_need_confirmation() {
    assert!(needs_confirmation("run_command"));
    assert!(needs_confirmation("write_file"));
    assert!(needs_confirmation("apply_patch"));
    assert!(!needs_confirmation("read_file"));
    assert!(ToolHandler::approval(&AutoUserInterface, "run_command", "{}"));
    assert!(!ToolHandler::approval(&Refuser, "run_command", "{}"));
    assert!(ToolHandler::approval(&Refuser, "read_file", "{}"));
    let ui: &dyn UserInterface = &MockUserInterface::new();
    assert!(ToolHandler::approval(ui, "write_file", "{}"));
}

#[test]
fn denied_call_replies() {
    let mut env = StrMap::new();
    let a = ToolHandler::plan_call("run_command", &no_args(), false, &mut env);
    assert_eq!(reply(&a), "User denied execution");
}

#[test]
fn missing_arguments_reply() {
    let mut env = StrMap::new();
    assert_eq!(reply(&ToolHandler::plan_call("read_file", &no_args(), true, &mut env)), "Error: Missing path argument");
    assert_eq!(
        reply(&ToolHandler::plan_call("write_file", &no_args(), true, &mut env)),
        "Error: Missing path or content argument"
    );
    assert_eq!(reply(&ToolHandler::plan_call("fetch_url", &no_args(), true, &mut env)), "Error: Missing url argument");
    assert_eq!(reply(&ToolHandler::plan_call("get_env", &no_args(), true, &mut env)), "Error: Missing key");
    assert_eq!(reply(&ToolHandler::plan_call("nope", &no_args(), true, &mut env)), "Error: Unknown tool nope");
}

#[test]
fn read_file_action() {
    let mut env = StrMap::new();
    let mut args = no_args();
    args.path = Some("src/main.rs".to_string());
    match ToolHandler::plan_call("read_file", &args, true, &mut env) {
        ToolAction::ReadFile { path } => assert_eq!(path, "src/main.rs"),
        other => panic!("unexpected {:?}", other),
    }
}

#[test]
fn env_set_then_get() {
    let mut env = StrMap::new();
    let mut args = no_args();
    args.key = Some("API".to_string());
    args.value = Some("v1".to_string());
    assert_eq!(reply(&ToolHandler::plan_call("set_env", &args, true, &mut env)), "Environment variable 'API' set.");
    let mut get = no_args();
    get.key = Some("API".to_string());
    assert_eq!(reply(&ToolHandler::plan_call("get_env", &get, true, &mut env)), "v1");
    get.key = Some("OTHER".to_string());
    assert_eq!(reply(&ToolHandler::plan_call("get_env", &get, true, &mut env)), "Environment variable not set");
}

#[test]
fn env_limits_in_bytes() {
    let mut env = StrMap::new();
    let mut args = no_args();
    args.key = Some("k".repeat(101));
    args.value = Some("v".to_string());
    assert_eq!(reply(&ToolHandler::plan_call("set_env", &args, true, &mut env)), "Error: key or value too large");
    assert_eq!(env.len(), 0);
    // 2 500 two-byte characters are 5 000 bytes: allowed.
    args.key = Some("k".to_string());
    args.value = Some("é".repeat(2500));
    assert_eq!(reply(&ToolHandler::plan_call("set_env", &args, true, &mut env)), "Environment variable 'k' set.");
    args.value = Some("é".repeat(2501));
    assert_eq!(reply(&ToolHandler::plan_call("set_env", &args, true, &mut env)), "Error: key or value too large");
    assert!(byte_len_exceeds("ééé", 5));
    assert!(!byte_len_exceeds("ééé", 6));
}

#[test]
fn reports() {
    let read = ToolAction::ReadFile { path: "p".to_string() };
    assert_eq!(read.report(&ToolOutcome::Text("body".to_string())), "body");
    assert_eq!(read.report(&ToolOutcome::Failed("gone".to_string())), "Error reading file: gone");
    let write = ToolAction::WriteFile { path: "p".to_string(), content: "c".to_string() };
    assert_eq!(write.report(&ToolOutcome::Done), "File written successfully");
    let list = ToolAction::ListFiles { path: None, depth: None };
    assert_eq!(
        list.report(&ToolOutcome::Lines(vec!["a".to_string(), "b/".to_string()])),
        "Files:\na\nb/"
    );
    let search = ToolAction::SearchCode { pattern: "x".to_string() };
    assert_eq!(search.report(&ToolOutcome::Lines(vec!["m1".to_string(), "m2".to_string()])), "m1\nm2");
}

#[test]
fn command_helpers() {
    assert_eq!(
        python_command("/p/.venv/bin/python", "s.py", &vec!["a".to_string(), "b c".to_string()]),
        "/p/.venv/bin/python s.py 'a' 'b c'"
    );
    assert_eq!(command_report(true, "0", "out", "err"), "out");
    assert_eq!(
        command_report(false, "exit status: 1", "o", "e"),
        "Command failed with status exit status: 1:\nStdout: o\nStderr: e"
    );
    assert_eq!(listing_entry("src", true), "src/");
    assert_eq!(listing_entry("a.rs", false), "a.rs");
    assert_eq!(search_answer(vec![]), vec!["No matches found.".to_string()]);
    assert_eq!(search_answer(vec!["x".to_string()]), vec!["x".to_string()]);
}

#[test]
fn mcp_names() {
    assert_eq!(namespaced_tool_name("git", "status"), "git__status");
    assert_eq!(split_tool_name("git__status").unwrap(), ("git".to_string(), "status".to_string()));
    assert!(split_tool_name("plain").is_err());
    assert_eq!(mcp_tool_description(Some("d".to_string())), "d");
}

#[test]
fn search_match_lines() {
    assert_eq!(search_match_line("src/lib.rs", 42, "   fn main() {\t\n"), "src/lib.rs:42: fn main() {");
    assert_eq!(search_match_line("a.txt", 1, "x"), "a.txt:1: x");
    assert_eq!(search_match_line("b", 1000, "   "), "b:1000: ");
    assert_eq!(search_match_line("c", 0, " y z "), "c:0: y z");
}
