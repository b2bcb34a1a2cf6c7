//! The steps of a launch attempt at which it can fail.

use vstd::prelude::*;

verus! {

/// The step of a launch attempt that failed. Each stage stands for one kind
/// of error; none of them is retried.
#[derive(Clone, Copy, Debug, PartialEq, Eq, Structural)]
pub enum Stage {
    /// A path resolution error: the bundle does not resolve the backend, or
    /// the resource directory cannot be found.
    PathResolution,
    /// A backend missing error: the resolved backend is not on disk.
    ExistenceCheck,
    /// A log file creation error: the logs directory or one of the two output
    /// files could not be prepared.
    LogFileCreation,
    /// A spawn error: the platform did not create the child process.
    Spawn,
}

} // verus!
