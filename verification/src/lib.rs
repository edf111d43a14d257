//! Verified core of a project-lifecycle orchestrator for multi-unit
//! deployments: a project aggregate persisted as a declarative config
//! plus a derived state document, per-unit build/deploy pipelines that
//! drive external toolchains, an edge-triggered file-watcher latch, and
//! the development-mode watch/rebuild state machine.
//!
//! All file, network and subprocess work is performed by an unverified
//! shell around this crate; the functions here compute commands, plans
//! and state transitions, and their contracts pin down exactly what
//! each operation does to the project.

pub mod backends;
pub mod dev;
pub mod errors;
pub mod project;
pub mod util;
