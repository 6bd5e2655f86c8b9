//! Startup supervision for a desktop shell that runs a local backend server.
//!
//! The crate holds the decisions of the supervisor as plain functions: which
//! command clears leftover backends, how the backend is started, how its output
//! is labelled, when it counts as ready, and what the shell does once the
//! readiness probe has reached a terminal state. The program around it performs
//! the effects (processes, sockets, windows) and reports back what happened.

pub mod config;
pub mod coordinator;
pub mod drain;
pub mod probe;
pub mod reaper;
pub mod supervisor;
