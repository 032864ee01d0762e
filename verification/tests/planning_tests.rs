use zene::contracts::AgentEvent;
use zene::orchestration::planning_failed_event;
use zene::core_plan;
use zene::executor::{stopped_output, task_prompt, TaskRun, DEFAULT_MAX_ITERATIONS};
use zene::contracts::TokenUsage;
use zene::orchestration::{final_output, needs_planning, switch_note, PlannedRun, ReviewOutcome};
use zene::plan::{Plan, Task, TaskStatus};
use zene::planner::{
    core_plan_from_tasks, extract_plan_json, plan_from_tasks, plan_outcome, plan_parse_error,
    planner_prompt, PLANNER_SYSTEM_PROMPT,
};
use zene::reflector::{clean_review_json, review_prompt, review_result, ReflectionResult};

#[test]
fn plan_next_task_starts_first_pending() {
    let mut plan = Plan::new("goal");
    for (id, status) in [("1", TaskStatus::Completed), ("2", TaskStatus::Pending), ("3", TaskStatus::Pending)] {
        plan.tasks.push(Task {
            id: id.to_string(),
            description: format!("task {}", id),
            status,
            dependencies: vec![],
        });
    }
    {
        let t = plan.next_task().unwrap();
        assert_eq!(t.id, "2");
        assert_eq!(t.status, TaskStatus::InProgress);
    }
    assert_eq!(plan.current_task_index, Some(1));
    assert_eq!(plan.tasks[1].status, TaskStatus::InProgress);
    plan.next_task();
    plan.tasks[2].status = TaskStatus::Completed;
    assert!(plan.next_task().is_none());
}

#[test]
fn extract_json_from_fenced_block() {
    let r = "Here:\n```json\n{\n    \"tasks\": [\"Say hello\"]\n}\n```\nthanks";
    assert_eq!(extract_plan_json(r), "{\n    \"tasks\": [\"Say hello\"]\n}");
}

#[test]
fn extract_json_from_plain_fence_and_braces() {
    assert_eq!(extract_plan_json("```\n{\"tasks\":[]}\n```"), "{\"tasks\":[]}");
    assert_eq!(extract_plan_json("{ \"tasks\": [\"Task A\"] }"), "{ \"tasks\": [\"Task A\"] }");
    assert_eq!(extract_plan_json("noise {\"a\":1} tail"), "{\"a\":1}");
    assert_eq!(extract_plan_json("x { no close"), "{ no close");
    assert_eq!(extract_plan_json("} then {"), "} then {");
    assert_eq!(extract_plan_json("  plain  "), "plain");
    assert_eq!(extract_plan_json("```json\nopen"), "open");
}

#[test]
fn plan_from_descriptions_numbers_and_chains() {
    let p = plan_from_tasks("g", vec!["a".to_string(), "b".to_string(), "c".to_string()]);
    assert_eq!(p.goal, "g");
    assert_eq!(p.tasks.len(), 3);
    assert_eq!(p.tasks[0].id, "1");
    assert!(p.tasks[0].dependencies.is_empty());
    assert_eq!(p.tasks[2].id, "3");
    assert_eq!(p.tasks[2].dependencies, vec!["2".to_string()]);
    assert_eq!(p.tasks[1].status, TaskStatus::Pending);
    assert!(p.current_task_index.is_none());
}

#[test]
fn core_plan_numbers_from_one() {
    let p = core_plan_from_tasks("g", vec!["Say hello".to_string()]);
    assert_eq!(p.tasks.len(), 1);
    assert_eq!(p.tasks[0].id, 1);
    assert_eq!(p.tasks[0].status, core_plan::TaskStatus::Pending);
}

#[test]
fn plan_errors_carry_raw_answer() {
    assert_eq!(
        plan_parse_error("expected value", "oops"),
        "Failed to parse plan JSON: expected value. Raw: oops"
    );
    let r = plan_outcome("g", "oops", Err("bad".to_string()));
    assert_eq!(r.unwrap_err(), "Failed to parse plan JSON: bad. Raw: oops");
    let ok = plan_outcome("g", "x", Ok(vec!["t".to_string()])).unwrap();
    assert_eq!(ok.tasks[0].description, "t");
}

#[test]
fn planner_prompt_shape() {
    let p = planner_prompt("Build it", "[\"src\"]");
    assert!(p.starts_with(PLANNER_SYSTEM_PROMPT));
    assert!(p.ends_with("\n\nGoal: Build it\n\nProject Structure Context:\n[\"src\"]"));
}

#[test]
fn review_json_cleanup() {
    assert_eq!(clean_review_json("  ```json\n{\"passed\": true}\n```  "), "{\"passed\": true}");
    assert_eq!(clean_review_json("``````json{}``````"), "json{}");
    assert_eq!(clean_review_json("{\"passed\": true, \"reason\": \"Good\", \"suggestions\": null}"),
        "{\"passed\": true, \"reason\": \"Good\", \"suggestions\": null}");
}

#[test]
fn review_fallback_passes() {
    let r = review_result(None);
    assert!(r.passed);
    assert_eq!(r.reason, "Review format error, assuming pass.");
    assert!(r.suggestions.is_none());
    let given = ReflectionResult { passed: false, reason: "bad".to_string(), suggestions: Some("fix".to_string()) };
    let r2 = review_result(Some(given));
    assert!(!r2.passed);
    match r2.outcome() {
        ReviewOutcome::Failed { reason, suggestions } => {
            assert_eq!(reason, "bad");
            assert_eq!(suggestions.as_deref(), Some("fix"));
        }
        _ => panic!("expected a failed review"),
    }
}

#[test]
fn review_prompt_mentions_task_and_output() {
    let p = review_prompt("Echo hello", "hello");
    assert!(p.starts_with("You are an expert Code Inspector and QA Lead.\n"));
    assert!(p.contains("Task Description: Echo hello\n\nExecution Output/Summary:\nhello\n\n"));
    assert!(p.contains("{\n\"passed\": true/false,\n"));
    assert!(p.ends_with("just the raw JSON string."));
}

#[test]
fn executor_prompt_and_budget() {
    let task = Task {
        id: "7".to_string(),
        description: "Echo hello".to_string(),
        status: TaskStatus::InProgress,
        dependencies: vec![],
    };
    let p = task_prompt(&task);
    assert!(p.starts_with("Current Active Task: 7\nDescription: Echo hello\n\nPlease execute"));
    let mut run = TaskRun::new(DEFAULT_MAX_ITERATIONS);
    let mut calls = 0;
    while run.begin_iteration() {
        calls += 1;
        let usage = TokenUsage { prompt_tokens: 1, completion_tokens: 2, total_tokens: 3 };
        assert!(run.record_reply(Some(usage), "", 1).is_none());
    }
    assert_eq!(calls, 8);
    assert_eq!(run.usage.total_tokens, 24);
    assert_eq!(stopped_output(), "Task stopped: Max iterations reached without definitive completion.");
}

#[test]
fn executor_reply_without_tools_finishes() {
    let mut run = TaskRun::new(3);
    assert!(run.begin_iteration());
    assert_eq!(run.record_reply(None, "Done", 0).as_deref(), Some("Done"));
    assert_eq!(run.iteration, 1);
}

fn core_task(id: usize, desc: &str) -> core_plan::Task {
    core_plan::Task { id, description: desc.to_string(), status: core_plan::TaskStatus::Pending, result: None }
}

#[test]
fn planned_run_passes_review() {
    let mut plan = core_plan::Plan::new("Test Task");
    plan.tasks.push(core_task(1, "Say hello"));
    let mut run = PlannedRun::new(plan);
    let i = run.next_task().unwrap();
    assert_eq!(i, 0);
    assert_eq!(switch_note(&run.plan.tasks[i]), "Orchestrator: Switching context to Task 1: Say hello");
    let note = run.task_executed("Hello World", &TokenUsage::default());
    assert_eq!(note, "Task 'Say hello' execution result:\nHello World");
    run.task_reviewed(ReviewOutcome::Passed { reason: "Good".to_string() });
    assert!(run.next_task().is_none());
    assert_eq!(run.finish(), "Task 1: Completed\n");
}

#[test]
fn planned_run_failed_review_schedules_fix() {
    let mut plan = core_plan::Plan::new("g");
    plan.tasks.push(core_task(1, "A"));
    plan.tasks.push(core_task(2, "B"));
    let mut run = PlannedRun::new(plan);
    run.next_task();
    run.task_executed("out", &TokenUsage::default());
    run.task_reviewed(ReviewOutcome::Failed { reason: "broken".to_string(), suggestions: Some("retry".to_string()) });
    assert_eq!(run.plan.tasks.len(), 3);
    assert_eq!(run.plan.tasks[0].status, core_plan::TaskStatus::Failed);
    assert_eq!(run.plan.tasks[1].id, 3);
    assert_eq!(run.plan.tasks[1].description, "Fix issues in Task 1: broken. Suggestion: retry");
    assert_eq!(run.next_task(), Some(1));
}

#[test]
fn planned_run_task_failure_halts() {
    let mut plan = core_plan::Plan::new("g");
    plan.tasks.push(core_task(1, "A"));
    let mut run = PlannedRun::new(plan);
    run.next_task();
    let (note, out) = run.task_failed("boom");
    assert_eq!(note, "Task 'A' failed with error: boom");
    assert_eq!(out, "Execution halted due to task failure: boom");
    assert_eq!(run.plan.tasks[0].status, core_plan::TaskStatus::Failed);
}

#[test]
fn long_output_is_cut_in_the_note() {
    let mut plan = core_plan::Plan::new("g");
    plan.tasks.push(core_task(1, "A"));
    let mut run = PlannedRun::new(plan);
    run.next_task();
    let long = "x".repeat(600);
    let note = run.task_executed(&long, &TokenUsage::default());
    assert_eq!(note.len(), "Task 'A' execution result:\n".len() + 500);
}

#[test]
fn empty_plan_output_and_planning_decision() {
    assert_eq!(final_output(""), "Plan completed (or explicit empty plan).");
    assert_eq!(final_output("s"), "s");
    assert!(needs_planning(false, false));
    assert!(!needs_planning(true, false));
    assert!(!needs_planning(false, true));
    let t = core_plan::Task::adhoc("Do it");
    assert_eq!(t.id, 0);
    assert_eq!(t.description, "Do it");
}

#[test]
fn tasks_are_started_in_plan_order() {
    let mut plan = plan_from_tasks("g", vec!["a".to_string(), "b".to_string(), "c".to_string()]);
    let first = plan.next_task().unwrap().id.clone();
    let second = plan.next_task().unwrap().id.clone();
    let third = plan.next_task().unwrap().id.clone();
    assert_eq!((first.as_str(), second.as_str(), third.as_str()), ("1", "2", "3"));
    assert!(plan.next_task().is_none());
}

#[test]
fn review_and_planning_events() {
    match planning_failed_event("bad json".to_string()) {
        AgentEvent::Error { code, message } => {
            assert_eq!(code, "PLANNING_FAILED");
            assert_eq!(message, "bad json");
        }
        other => panic!("unexpected {:?}", other),
    }
    let passed = ReviewOutcome::Passed { reason: "Good".to_string() }.event();
    assert!(matches!(passed, Some(AgentEvent::ReflectionResult { passed: true, .. })));
    let failed = ReviewOutcome::Failed { reason: "Bad".to_string(), suggestions: None }.event();
    assert!(matches!(failed, Some(AgentEvent::ReflectionResult { passed: false, .. })));
    assert!(ReviewOutcome::Unavailable.event().is_none());
}
