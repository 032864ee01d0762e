use serde_json::Value;
use zene::contracts::{ExecutionStrategy, TokenUsage};
use zene::core_plan::TaskStatus;
use zene::error::{ensure_not_cancelled, ZeneError};
use zene::executor::{stopped_output, TaskRun, DEFAULT_MAX_ITERATIONS};
use zene::orchestration::PlannedRun;
use zene::planner::{core_plan_from_tasks, extract_plan_json};
use zene::reflector::{clean_review_json, review_result, ReflectionResult};
use zene::runtime::CancellationToken;
use zene::strategy::resolve_strategy;
use zene::strmap::StrMap;
use zene::testing::MockUserInterface;
use zene::tools::{ToolAction, ToolArgs, ToolHandler};

/// The task list of a planning answer, as the JSON parse gives it.
fn planned_tasks(answer: &str) -> Vec<String> {
    let v: Value = serde_json::from_str(&extract_plan_json(answer)).unwrap();
    v["tasks"].as_array().unwrap().iter().map(|t| t.as_str().unwrap().to_string()).collect()
}

/// The verdict of a review answer, as the JSON parse gives it.
fn verdict(answer: &str) -> ReflectionResult {
    let parsed = serde_json::from_str::<Value>(&clean_review_json(answer)).ok().and_then(|v| {
        Some(ReflectionResult {
            passed: v.get("passed")?.as_bool()?,
            reason: v.get("reason")?.as_str()?.to_string(),
            suggestions: v.get("suggestions").and_then(|s| s.as_str()).map(|s| s.to_string()),
        })
    });
    review_result(parsed)
}

fn run_plan(goal: &str, planner_answer: &str, executor_answer: &str, reflector_answer: &str) -> (String, PlannedRun) {
    let plan = core_plan_from_tasks(goal, planned_tasks(planner_answer));
    let mut run = PlannedRun::new(plan);
    while let Some(_) = run.next_task() {
        run.task_executed(executor_answer, &TokenUsage::default());
        run.task_reviewed(verdict(reflector_answer).outcome());
    }
    (run.finish(), run)
}

#[test]
fn test_orchestrator_simple_plan() {
    let (result, run) = run_plan(
        "Test Task",
        "```json\n{\n    \"tasks\": [\"Say hello\"]\n}\n```",
        "Hello World",
        "{\"passed\": true, \"reason\": \"Good\", \"suggestions\": null}",
    );
    assert!(result.contains("Task 1: Completed"));
    assert_eq!(run.plan.tasks.len(), 1);
    assert_eq!(run.plan.tasks[0].status, TaskStatus::Completed);
    assert_eq!(run.plan.tasks[0].description, "Say hello");
}

#[test]
fn orchestrator_test_orchestrator_simple_plan() {
    let (result, run) = run_plan(
        "Do something",
        "```json\n{\n    \"tasks\": [\"Say hello\"]\n}\n```",
        "Hello World",
        "{\"passed\": true, \"reason\": \"Good\", \"suggestions\": null}",
    );
    assert!(result.contains("Task 1: Completed"));
    assert_eq!(run.plan.tasks.len(), 1);
}

#[test]
fn test_agent_integration_flow() {
    let (result, run) = run_plan(
        "Integration Test Task",
        "{ \"tasks\": [\"Task A\"] }",
        "Execution Result A",
        "{ \"passed\": true, \"reason\": \"OK\", \"suggestions\": null }",
    );
    assert!(result.contains("Task 1: Completed"));
    assert_eq!(run.plan.tasks[0].result.as_deref(), Some("Execution Result A"));
}

#[test]
fn unparsable_review_counts_as_pass() {
    let (result, _) = run_plan("g", "{\"tasks\": [\"A\", \"B\"]}", "out", "not json at all");
    assert_eq!(result, "Task 1: Completed\nTask 2: Completed\n");
}

#[test]
fn test_orchestrator_cancellation_before_start() {
    let token = CancellationToken::default();
    token.cancel();
    let err = ensure_not_cancelled(token.is_cancelled()).unwrap_err();
    assert!(matches!(err, ZeneError::Cancelled(_)));
}

#[test]
fn test_orchestrator_direct_strategy_skips_plan() {
    assert!(!resolve_strategy(ExecutionStrategy::Direct).plans_first());
    let mut run = TaskRun::new(DEFAULT_MAX_ITERATIONS);
    assert!(run.begin_iteration());
    let result = run.record_reply(None, "", 0).unwrap();
    assert!(result.is_empty() || result == stopped_output());
}

#[test]
fn test_executor_simple_tool_flow() {
    let ui = MockUserInterface::new();
    let mut env = StrMap::new();
    let mut run = TaskRun::new(DEFAULT_MAX_ITERATIONS);
    assert!(run.begin_iteration());
    assert!(run.record_reply(None, "", 1).is_none());
    let args: Value = serde_json::from_str("{\"command\": \"echo hello\"}").unwrap();
    let tool_args = ToolArgs {
        path: None,
        content: None,
        url: None,
        command: args["command"].as_str().map(|s| s.to_string()),
        script_path: None,
        args: None,
        key: None,
        value: None,
        pattern: None,
        depth: None,
        original_snippet: None,
        new_snippet: None,
        start_line: None,
    };
    let approved = ToolHandler::approval(&ui, "run_command", "{\"command\": \"echo hello\"}");
    match ToolHandler::plan_call("run_command", &tool_args, approved, &mut env) {
        ToolAction::RunCommand { command } => assert_eq!(command, "echo hello"),
        other => panic!("unexpected {:?}", other),
    }
    assert!(run.begin_iteration());
    let done = run.record_reply(None, "Done", 0);
    assert_eq!(done.as_deref(), Some("Done"));
    assert!(run.usage.total_tokens == 0);
}
