//! Paths as text: where the logs of a launch live, and how a path is shown in a message.
//!
//! The launcher handles paths as strings. What the platform's path rules decide
//! (how two parts are joined, what the parent of a path is, how a path is quoted
//! for display) is left to `std::path` and appears in contracts under a name.

use vstd::prelude::*;
use vstd::string::*;

verus! {

/// The path that `std::path::Path::join` makes of `base` and `name`, under the
/// path rules of the platform the library is built for.
pub uninterp spec fn joined_path(base: Seq<char>, name: Seq<char>) -> Seq<char>;

/// The path without its last component, as `std::path::Path::parent` gives it
/// under the same rules; `None` where there is no such component to take away.
pub uninterp spec fn parent_path(path: Seq<char>) -> Option<Seq<char>>;

/// The text that the `Debug` formatting of `std::path::Path` writes for `path`
/// under the same rules: the path between double quotes, with escapes.
pub uninterp spec fn quoted_path(path: Seq<char>) -> Seq<char>;

/// The name of the directory, beside the host executable, that holds the logs.
pub open spec fn logs_dir_name() -> Seq<char> {
    "logs"@
}

/// The name of the file that receives the backend's standard output.
pub open spec fn stdout_log_name() -> Seq<char> {
    "backend.log"@
}

/// The name of the file that receives the backend's standard error.
pub open spec fn stderr_log_name() -> Seq<char> {
    "backend_error.log"@
}

/// The name of the file that records the progress of each launch attempt.
pub open spec fn trace_log_name() -> Seq<char> {
    "tauri_startup.log"@
}

/// The packaged resource that is the backend executable.
pub open spec fn backend_resource() -> Seq<char> {
    "_up_/backend/dist/backend.exe"@
}

/// The logs directory that belongs to a host executable at `host_exe`: the
/// directory `logs` beside it, or `None` where the executable's path has no parent.
pub open spec fn logs_dir_of(host_exe: Seq<char>) -> Option<Seq<char>> {
    match parent_path(host_exe) {
        Some(dir) => Some(joined_path(dir, logs_dir_name())),
        None => None,
    }
}

/// Calls `std::path::Path::join` on `base` with `name`. The result is not
/// computed here: the contract only gives it its name.
#[verifier::external_body]
pub(crate) fn join_path(base: &str, name: &str) -> (joined: String)
    ensures
        joined@ == joined_path(base@, name@),
{
    std::path::Path::new(base).join(name).to_string_lossy().into_owned()
}

/// Calls `std::path::Path::parent` on `path`. The result is not computed here:
/// the contract only gives it its name.
#[verifier::external_body]
pub(crate) fn parent_of(path: &str) -> (parent: Option<String>)
    ensures
        parent is Some <==> parent_path(path@) is Some,
        parent matches Some(dir) ==> parent_path(path@) == Some(dir@),
{
    match std::path::Path::new(path).parent() {
        Some(dir) => Some(dir.to_string_lossy().into_owned()),
        None => None,
    }
}

/// Formats `path` with the `Debug` impl of `std::path::Path`. The result is not
/// computed here: the contract only gives it its name.
#[verifier::external_body]
pub(crate) fn quote_path(path: &str) -> (shown: String)
    ensures
        shown@ == quoted_path(path@),
{
    format!("{:?}", std::path::Path::new(path))
}

/// The logs directory for a host executable found at `host_exe`.
pub fn logs_dir_beside(host_exe: &str) -> (logs_dir: Option<String>)
    ensures
        logs_dir is Some <==> logs_dir_of(host_exe@) is Some,
        logs_dir matches Some(dir) ==> logs_dir_of(host_exe@) == Some(dir@),
{
    match parent_of(host_exe) {
        Some(dir) => Some(join_path(dir.as_str(), "logs")),
        None => None,
    }
}

/// The file under `logs_dir` that receives the backend's standard output.
pub fn stdout_log_path(logs_dir: &str) -> (path: String)
    ensures
        path@ == joined_path(logs_dir@, stdout_log_name()),
{
    join_path(logs_dir, "backend.log")
}

/// The file under `logs_dir` that receives the backend's standard error.
pub fn stderr_log_path(logs_dir: &str) -> (path: String)
    ensures
        path@ == joined_path(logs_dir@, stderr_log_name()),
{
    join_path(logs_dir, "backend_error.log")
}

/// The file under `logs_dir` that records the progress of each launch attempt.
pub fn trace_log_path(logs_dir: &str) -> (path: String)
    ensures
        path@ == joined_path(logs_dir@, trace_log_name()),
{
    join_path(logs_dir, "tauri_startup.log")
}

} // verus!
