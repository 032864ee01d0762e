//! Plans whose tasks carry textual ids and dependencies.

use vstd::prelude::*;
use crate::text::owned;

verus! {

/// The life-cycle state of a task.
#[derive(Debug, Clone, Copy, PartialEq, Eq, Structural)]
pub enum TaskStatus {
    Pending,
    InProgress,
    Completed,
    Failed,
    Skipped,
}

/// One step of a plan.
#[derive(Debug, Clone)]
pub struct Task {
    pub id: String,
    pub description: String,
    pub status: TaskStatus,
    /// Ids of the tasks this one depends on.
    pub dependencies: Vec<String>,
}

/// A goal broken into tasks.
#[derive(Debug, Clone)]
pub struct Plan {
    pub goal: String,
    pub tasks: Vec<Task>,
    pub current_task_index: Option<usize>,
}

/// No task before index `i` is pending.
pub open spec fn none_pending_before(tasks: Seq<Task>, i: int) -> bool {
    forall|k: int| 0 <= k < i ==> (#[trigger] tasks[k]).status != TaskStatus::Pending
}

/// Law: tasks are started in plan order.  When `next_task` has started task
/// `i` (the first pending one) and a second `next_task` then starts task
/// `j`, task `j` comes after task `i`: no task is started twice and none is
/// skipped over.
pub proof fn law_tasks_started_in_order(
    tasks0: Seq<Task>,
    i: int,
    started: Task,
    j: int,
)
    requires
        0 <= i < tasks0.len(),
        tasks0[i].status == TaskStatus::Pending,
        none_pending_before(tasks0, i),
        started.status == TaskStatus::InProgress,
        0 <= j < tasks0.len(),
        tasks0.update(i, started)[j].status == TaskStatus::Pending,
        none_pending_before(tasks0.update(i, started), j),
    ensures
        i < j,
{
    if j <= i {
        if j < i {
            assert(tasks0.update(i, started)[j] == tasks0[j]);
        }
    }
}

impl Plan {
    /// An empty plan for `goal`.
    pub fn new(goal: &str) -> (p: Self)
        ensures
            p.goal@ == goal@,
            p.tasks@.len() == 0,
            p.current_task_index is None,
    {
        Plan { goal: owned(goal), tasks: Vec::new(), current_task_index: None }
    }

    /// Starts the first pending task: marks it in progress, makes it the
    /// current task and hands it out.  `None` when no task is pending; the
    /// plan is then unchanged.
    pub fn next_task(&mut self) -> (r: Option<&mut Task>)
        ensures
            match r {
                None => {
                    &&& none_pending_before(old(self).tasks@, old(self).tasks@.len() as int)
                    &&& *final(self) == *old(self)
                },
                Some(t) => exists|i: int|
                    {
                        &&& 0 <= i < old(self).tasks@.len()
                        &&& old(self).tasks@[i].status == TaskStatus::Pending
                        &&& none_pending_before(old(self).tasks@, i)
                        &&& t.id == old(self).tasks@[i].id
                        &&& t.description == old(self).tasks@[i].description
                        &&& t.dependencies == old(self).tasks@[i].dependencies
                        &&& t.status == TaskStatus::InProgress
                        &&& final(self).tasks@ == old(self).tasks@.update(i, *final(t))
                        &&& final(self).current_task_index == Some(i as usize)
                        &&& final(self).goal == old(self).goal
                    },
            },
    {
        let mut i: usize = 0;
        while i < self.tasks.len()
            invariant
                i <= self.tasks.len(),
                *self == *old(self),
                none_pending_before(self.tasks@, i as int),
            decreases self.tasks.len() - i,
        {
            if self.tasks[i].status == TaskStatus::Pending {
                self.current_task_index = Some(i);
                let t = &mut self.tasks[i];
                t.status = TaskStatus::InProgress;
                return Some(t);
            }
            i = i + 1;
        }
        None
    }
}

} // verus!
