//! Orchestration logic of a small programming agent: from a task (a
//! language and a goal) it derives a source file, drives the language's
//! toolchain, and on failure walks a bounded repair loop.
//!
//! All decisions are pure functions with contracts; whoever embeds the
//! library touches the file system, spawns the processes and reads the
//! terminal, and reports back what happened.

pub mod controller;
pub mod repair;
pub mod task;
pub mod text;
pub mod toolchain;
pub mod workspace;
