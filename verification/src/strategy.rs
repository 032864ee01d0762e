//! The two ways of running a goal: planned (plan, then execute and review
//! task by task) or direct (execute the goal as one task).

use vstd::prelude::*;
use crate::contracts::ExecutionStrategy;

verus! {

/// Plan first, then execute and review each task.
#[derive(Debug, Clone, Copy)]
pub struct PlannedStrategy;

/// Execute the goal as a single task.
#[derive(Debug, Clone, Copy)]
pub struct DirectStrategy;

/// The strategy that runs a goal.
#[derive(Debug, Clone, Copy)]
pub enum AgentStrategy {
    Planned(PlannedStrategy),
    Direct(DirectStrategy),
}

impl AgentStrategy {
    /// Whether the strategy makes a plan before executing.
    pub fn plans_first(&self) -> (b: bool)
        ensures
            b == (*self is Planned),
    {
        match self {
            AgentStrategy::Planned(_) => true,
            AgentStrategy::Direct(_) => false,
        }
    }
}

/// The strategy for an execution mode.
pub fn resolve_strategy(strategy: ExecutionStrategy) -> (s: AgentStrategy)
    ensures
        (strategy == ExecutionStrategy::Planned) == (s is Planned),
        (strategy == ExecutionStrategy::Direct) == (s is Direct),
{
    match strategy {
        ExecutionStrategy::Planned => AgentStrategy::Planned(PlannedStrategy),
        ExecutionStrategy::Direct => AgentStrategy::Direct(DirectStrategy),
    }
}

} // verus!
