//! Plans of the execution kernel: tasks numbered from 1 that record their
//! output.

use vstd::prelude::*;
use crate::text::owned;

verus! {

/// The life-cycle state of a task.
#[derive(Debug, Clone, Copy, PartialEq, Eq, Structural)]
pub enum TaskStatus {
    Pending,
    InProgress,
    Completed,
    Failed,
}

/// One step of a plan.
#[derive(Debug, Clone)]
pub struct Task {
    pub id: usize,
    pub description: String,
    pub status: TaskStatus,
    /// What executing the task produced.
    pub result: Option<String>,
}

/// A goal broken into tasks.
#[derive(Debug, Clone)]
pub struct Plan {
    pub goal: String,
    pub tasks: Vec<Task>,
    pub current_task_index: Option<usize>,
}

impl Plan {
    /// An empty plan for `goal`.
    pub fn new(goal: &str) -> (p: Self)
        ensures
            p.goal@ == goal@,
            p.tasks@.len() == 0,
            p.current_task_index is None,
    {
        Plan { goal: owned(goal), tasks: Vec::new(), current_task_index: None }
    }
}

} // verus!
