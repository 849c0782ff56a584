//! Execution engine for running build scripts in one of several isolated
//! environments — directly on the host, under a sandboxing tool, or inside a
//! container — with shared command construction, output redaction, and a
//! streaming drain state machine.
//!
//! A caller picks a [`runner::RunnerConfiguration`] once per build and
//! prepares it into a [`runner::Runner`]; per invocation the backend builds a
//! [`command::CommandSpec`] from an [`command::ExecutionContext`], and the
//! streaming engine spawns it and drains its output through
//! [`drain::DrainState`], redacting each line with [`redact::redact_line`].

pub mod command;
pub mod decimal;
pub mod docker;
pub mod drain;
pub mod host;
pub mod mounts;
pub mod redact;
pub mod runner;
pub mod sandbox;
pub mod skip;
pub mod tools;
