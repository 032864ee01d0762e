//! Zene: the decision-making core of an embeddable coding-agent engine.
//!
//! Everything here is plain computation on plain values, verified with Verus:
//! configuration from environment variables, the choice of model backend,
//! plans and their task life cycle, the planning, execution and reflection
//! steps (prompts, answer clean-up, the bounded tool loop), history
//! compaction, the patch algorithm used by the editing tool, the tool
//! dispatcher, run snapshots and the run table, sessions, and the host and
//! worker protocols' decisions.  The I/O around it (model providers, files,
//! processes, stdin/stdout) lives in the `app/` crate.

pub mod text;
pub mod strmap;
pub mod error;
pub mod contracts;
pub mod runtime;
pub mod plan;
pub mod core_plan;
pub mod patch;
pub mod config;
pub mod core_config;
pub mod client;
pub mod planner;
pub mod reflector;
pub mod executor;
pub mod orchestration;
pub mod compactor;
pub mod strategy;
pub mod engine_runs;
pub mod session;
pub mod session_store;
pub mod ui;
pub mod testing;
pub mod tools;
pub mod python_env;
pub mod memory;
pub mod host;
pub mod host_registry;
pub mod worker;
pub mod selftest;
