//! The texts of a launch attempt: trace log entries, dialog messages, and the
//! replies handed back to the caller.
//!
//! Each text is given twice: as a spec function on sequences of characters, and
//! as the executable function that builds it. Paths arrive already quoted for
//! display (see `paths::quoted_path`); platform error texts arrive as they are.

use vstd::prelude::*;
use vstd::string::*;

verus! {

// Titles of the dialogs.

/// Title of the dialog for a logs directory that could not be prepared.
pub open spec fn startup_error_title() -> Seq<char> {
    "Backend Startup Error"@
}

/// Title of the dialog for a backend that the bundle does not resolve.
pub open spec fn not_found_title() -> Seq<char> {
    "Backend Not Found"@
}

/// Title of the dialog for a backend that is not on disk.
pub open spec fn missing_title() -> Seq<char> {
    "Backend Missing"@
}

/// Title of the dialog for a resource directory that cannot be resolved.
pub open spec fn resolution_error_title() -> Seq<char> {
    "Path Resolution Error"@
}

/// Title of the dialog for an output file that could not be created.
pub open spec fn log_file_error_title() -> Seq<char> {
    "Log File Error"@
}

/// Title of the dialog for a child process that could not be created.
pub open spec fn spawn_failed_title() -> Seq<char> {
    "Backend Spawn Failed"@
}

/// Title of the dialog that announces a started backend.
pub open spec fn starting_title() -> Seq<char> {
    "Backend Starting"@
}

// Trace log entries without a parameter.

/// First entry of every attempt that has a logs directory.
pub open spec fn attempt_entry() -> Seq<char> {
    "=== Backend Startup Attempt ==="@
}

/// Entry for a backend that is not on disk.
pub open spec fn missing_entry() -> Seq<char> {
    "Backend.exe does not exist"@
}

/// Entry for a backend that is on disk.
pub open spec fn present_entry() -> Seq<char> {
    "Backend.exe exists, attempting to spawn..."@
}

/// Entry written once both output files exist.
pub open spec fn files_ready_entry() -> Seq<char> {
    "Log files created, spawning process..."@
}

/// Entry written after the attempt to mark the backend executable.
pub open spec fn marked_entry() -> Seq<char> {
    "Made backend executable (chmod +x)"@
}

/// Entry for a child process that was created.
pub open spec fn spawned_entry() -> Seq<char> {
    "Process spawned successfully"@
}

/// Last entry of a successful attempt.
pub open spec fn complete_entry() -> Seq<char> {
    "Startup complete"@
}

/// Reply and detail for a host executable whose path has no parent.
pub open spec fn host_dir_failure() -> Seq<char> {
    "Failed to get exe directory"@
}

// Texts with parameters.

/// Reply for a host executable that the platform could not locate.
pub open spec fn host_path_failure_text(reason: Seq<char>) -> Seq<char> {
    "Failed to get exe path: "@ + reason
}

/// Reply for a logs directory that could not be created.
pub open spec fn logs_dir_failure_text(reason: Seq<char>) -> Seq<char> {
    "Failed to create logs directory: "@ + reason
}

/// Dialog message for a logs directory that could not be prepared; `detail` is
/// the reply of the step that failed.
pub open spec fn logs_dir_notice_text(detail: Seq<char>) -> Seq<char> {
    "Failed to create logs directory:\n"@ + detail
}

/// Trace entry and reply for a backend that the bundle does not resolve.
pub open spec fn resolve_failure_text(reason: Seq<char>) -> Seq<char> {
    "Failed to resolve backend.exe: "@ + reason
}

/// Dialog message for a backend that the bundle does not resolve.
pub open spec fn resolve_notice_text(reason: Seq<char>, shown_logs: Seq<char>) -> Seq<char> {
    "Failed to find backend.exe in bundle:\n"@ + reason + "\n\nLogs location: "@ + shown_logs
}

/// Trace entry that records the resolved backend path.
pub open spec fn backend_path_entry_text(shown_backend: Seq<char>) -> Seq<char> {
    "Backend path: "@ + shown_backend
}

/// Dialog message for a backend that is not on disk.
pub open spec fn missing_notice_text(shown_backend: Seq<char>, shown_logs: Seq<char>) -> Seq<char> {
    "Backend.exe does not exist at:\n"@ + shown_backend
        + "\n\nPlease rebuild the application.\n\nLogs location: "@ + shown_logs
}

/// Reply for a backend that is not on disk.
pub open spec fn missing_reply_text(shown_backend: Seq<char>) -> Seq<char> {
    "Backend.exe does not exist at path: "@ + shown_backend
}

/// Trace entry and reply for a resource directory that cannot be resolved.
pub open spec fn resource_failure_text(reason: Seq<char>) -> Seq<char> {
    "Failed to get resource directory: "@ + reason
}

/// Dialog message for a resource directory that cannot be resolved.
pub open spec fn resource_notice_text(reason: Seq<char>, shown_logs: Seq<char>) -> Seq<char> {
    "Failed to get resource directory:\n"@ + reason + "\n\nLogs location: "@ + shown_logs
}

/// Trace entry that records the resource directory.
pub open spec fn resource_entry_text(shown_resources: Seq<char>) -> Seq<char> {
    "Resource directory: "@ + shown_resources
}

/// Trace entry that records the file for the backend's standard output.
pub open spec fn backend_log_entry_text(shown_log: Seq<char>) -> Seq<char> {
    "Backend log: "@ + shown_log
}

/// Trace entry and reply for the output file `name` that could not be created.
pub open spec fn log_file_failure_text(name: Seq<char>, reason: Seq<char>) -> Seq<char> {
    "Failed to create "@ + name + ": "@ + reason
}

/// Dialog message for the output file `name` that could not be created.
pub open spec fn log_file_notice_text(
    name: Seq<char>,
    reason: Seq<char>,
    shown_logs: Seq<char>,
) -> Seq<char> {
    "Failed to create "@ + name + ":\n"@ + reason + "\n\nLogs location: "@ + shown_logs
}

/// Trace entry for a child process that could not be created.
pub open spec fn spawn_failure_entry_text(reason: Seq<char>) -> Seq<char> {
    "Failed to spawn: "@ + reason
}

/// Dialog message for a child process that could not be created.
pub open spec fn spawn_failure_notice_text(
    reason: Seq<char>,
    shown_backend: Seq<char>,
    shown_logs: Seq<char>,
) -> Seq<char> {
    "Failed to spawn backend process:\n"@ + reason + "\n\nBackend path: "@ + shown_backend
        + "\nLogs location: "@ + shown_logs + "\n\nCheck backend_error.log for details."@
}

/// Reply for a child process that could not be created.
pub open spec fn spawn_failure_reply_text(reason: Seq<char>) -> Seq<char> {
    "Failed to spawn backend: "@ + reason
}

/// Dialog message that announces a started backend.
pub open spec fn spawned_notice_text(shown_backend: Seq<char>, shown_logs: Seq<char>) -> Seq<char> {
    "Backend process started successfully!\n\nBackend path: "@ + shown_backend
        + "\nLogs location: "@ + shown_logs + "\n\nWaiting 3 seconds for initialization..."@
}

/// Reply of a successful attempt.
pub open spec fn started_reply_text(shown_backend: Seq<char>, shown_logs: Seq<char>) -> Seq<char> {
    "Backend started from: "@ + shown_backend + "\nLogs: "@ + shown_logs
}

// The executable builders.

/// Builds the reply for a host executable that the platform could not locate.
pub fn host_path_failure(reason: &str) -> (text: String)
    ensures
        text@ == host_path_failure_text(reason@),
{
    String::from_str("Failed to get exe path: ").concat(reason)
}

/// Builds the reply for a logs directory that could not be created.
pub fn logs_dir_failure(reason: &str) -> (text: String)
    ensures
        text@ == logs_dir_failure_text(reason@),
{
    String::from_str("Failed to create logs directory: ").concat(reason)
}

/// Builds the dialog message for a logs directory that could not be prepared.
pub fn logs_dir_notice(detail: &str) -> (text: String)
    ensures
        text@ == logs_dir_notice_text(detail@),
{
    String::from_str("Failed to create logs directory:\n").concat(detail)
}

/// Builds the trace entry and reply for a backend that the bundle does not resolve.
pub fn resolve_failure(reason: &str) -> (text: String)
    ensures
        text@ == resolve_failure_text(reason@),
{
    String::from_str("Failed to resolve backend.exe: ").concat(reason)
}

/// Builds the dialog message for a backend that the bundle does not resolve.
pub fn resolve_notice(reason: &str, shown_logs: &str) -> (text: String)
    ensures
        text@ == resolve_notice_text(reason@, shown_logs@),
{
    let mut text = String::from_str("Failed to find backend.exe in bundle:\n");
    text.append(reason);
    text.append("\n\nLogs location: ");
    text.append(shown_logs);
    text
}

/// Builds the trace entry that records the resolved backend path.
pub fn backend_path_entry(shown_backend: &str) -> (text: String)
    ensures
        text@ == backend_path_entry_text(shown_backend@),
{
    String::from_str("Backend path: ").concat(shown_backend)
}

/// Builds the dialog message for a backend that is not on disk.
pub fn missing_notice(shown_backend: &str, shown_logs: &str) -> (text: String)
    ensures
        text@ == missing_notice_text(shown_backend@, shown_logs@),
{
    let mut text = String::from_str("Backend.exe does not exist at:\n");
    text.append(shown_backend);
    text.append("\n\nPlease rebuild the application.\n\nLogs location: ");
    text.append(shown_logs);
    text
}

/// Builds the reply for a backend that is not on disk.
pub fn missing_reply(shown_backend: &str) -> (text: String)
    ensures
        text@ == missing_reply_text(shown_backend@),
{
    String::from_str("Backend.exe does not exist at path: ").concat(shown_backend)
}

/// Builds the trace entry and reply for a resource directory that cannot be resolved.
pub fn resource_failure(reason: &str) -> (text: String)
    ensures
        text@ == resource_failure_text(reason@),
{
    String::from_str("Failed to get resource directory: ").concat(reason)
}

/// Builds the dialog message for a resource directory that cannot be resolved.
pub fn resource_notice(reason: &str, shown_logs: &str) -> (text: String)
    ensures
        text@ == resource_notice_text(reason@, shown_logs@),
{
    let mut text = String::from_str("Failed to get resource directory:\n");
    text.append(reason);
    text.append("\n\nLogs location: ");
    text.append(shown_logs);
    text
}

/// Builds the trace entry that records the resource directory.
pub fn resource_entry(shown_resources: &str) -> (text: String)
    ensures
        text@ == resource_entry_text(shown_resources@),
{
    String::from_str("Resource directory: ").concat(shown_resources)
}

/// Builds the trace entry that records the file for the backend's standard output.
pub fn backend_log_entry(shown_log: &str) -> (text: String)
    ensures
        text@ == backend_log_entry_text(shown_log@),
{
    String::from_str("Backend log: ").concat(shown_log)
}

/// Builds the trace entry and reply for the output file `name` that could not be created.
pub fn log_file_failure(name: &str, reason: &str) -> (text: String)
    ensures
        text@ == log_file_failure_text(name@, reason@),
{
    let mut text = String::from_str("Failed to create ");
    text.append(name);
    text.append(": ");
    text.append(reason);
    text
}

/// Builds the dialog message for the output file `name` that could not be created.
pub fn log_file_notice(name: &str, reason: &str, shown_logs: &str) -> (text: String)
    ensures
        text@ == log_file_notice_text(name@, reason@, shown_logs@),
{
    let mut text = String::from_str("Failed to create ");
    text.append(name);
    text.append(":\n");
    text.append(reason);
    text.append("\n\nLogs location: ");
    text.append(shown_logs);
    text
}

/// Builds the trace entry for a child process that could not be created.
pub fn spawn_failure_entry(reason: &str) -> (text: String)
    ensures
        text@ == spawn_failure_entry_text(reason@),
{
    String::from_str("Failed to spawn: ").concat(reason)
}

/// Builds the dialog message for a child process that could not be created.
pub fn spawn_failure_notice(reason: &str, shown_backend: &str, shown_logs: &str) -> (text: String)
    ensures
        text@ == spawn_failure_notice_text(reason@, shown_backend@, shown_logs@),
{
    let mut text = String::from_str("Failed to spawn backend process:\n");
    text.append(reason);
    text.append("\n\nBackend path: ");
    text.append(shown_backend);
    text.append("\nLogs location: ");
    text.append(shown_logs);
    text.append("\n\nCheck backend_error.log for details.");
    text
}

/// Builds the reply for a child process that could not be created.
pub fn spawn_failure_reply(reason: &str) -> (text: String)
    ensures
        text@ == spawn_failure_reply_text(reason@),
{
    String::from_str("Failed to spawn backend: ").concat(reason)
}

/// Builds the dialog message that announces a started backend.
pub fn spawned_notice(shown_backend: &str, shown_logs: &str) -> (text: String)
    ensures
        text@ == spawned_notice_text(shown_backend@, shown_logs@),
{
    let mut text = String::from_str("Backend process started successfully!\n\nBackend path: ");
    text.append(shown_backend);
    text.append("\nLogs location: ");
    text.append(shown_logs);
    text.append("\n\nWaiting 3 seconds for initialization...");
    text
}

/// Builds the reply of a successful attempt.
pub fn started_reply(shown_backend: &str, shown_logs: &str) -> (text: String)
    ensures
        text@ == started_reply_text(shown_backend@, shown_logs@),
{
    let mut text = String::from_str("Backend started from: ");
    text.append(shown_backend);
    text.append("\nLogs: ");
    text.append(shown_logs);
    text
}

} // verus!
