//! Decisions of a launcher that starts a packaged backend executable.
//!
//! The launcher finds the backend in the application bundle, prepares a logs
//! directory beside its own executable, starts the backend as a child process
//! with its output going to two log files, and waits a moment for it to come
//! up. This library holds the decisions of that procedure and none of its
//! effects: `supervisor` says what to do next and what to tell the user,
//! `model` is the state machine that it follows, `laws` proves what holds of
//! every attempt, and `protocol`, `messages`, `paths`, `trace` and `stage` hold
//! the values that pass between the supervisor and the host that acts for it.

pub mod laws;
pub mod messages;
pub mod model;
pub mod paths;
pub mod protocol;
pub mod stage;
pub mod supervisor;
pub mod trace;
