//! What passes between the supervisor and its host.
//!
//! The supervisor decides; the host acts. A `Directive` tells the host what to
//! write to the trace log, what to show, and what to do next (a `Request`). The
//! host answers each request with an `Event`. The attempt ends with a
//! `LaunchResult`.

use vstd::prelude::*;
use vstd::string::*;
use crate::messages::{started_reply, started_reply_text};
use crate::paths::{quote_path, quoted_path};
use crate::stage::Stage;

verus! {

/// Which of the child's two output streams a log file receives.
#[derive(Clone, Copy, Debug, PartialEq, Eq, Structural)]
pub enum Sink {
    /// Standard output.
    Stdout,
    /// Standard error.
    Stderr,
}

/// How a dialog presents its message.
#[derive(Clone, Copy, Debug, PartialEq, Eq, Structural)]
pub enum NoticeKind {
    /// Something went well.
    Info,
    /// Something failed.
    Error,
}

/// A modal dialog for the user.
#[derive(Clone, Debug, PartialEq, Eq)]
pub struct Notice {
    pub kind: NoticeKind,
    pub title: String,
    pub message: String,
}

/// A `Notice` as a mathematical value.
pub struct NoticeView {
    pub kind: NoticeKind,
    pub title: Seq<char>,
    pub message: Seq<char>,
}

impl View for Notice {
    type V = NoticeView;

    open spec fn view(&self) -> NoticeView {
        NoticeView { kind: self.kind, title: self.title@, message: self.message@ }
    }
}

/// What a spawn needs: the backend to run and the two directories that the
/// child is told about.
#[derive(Clone, Debug, PartialEq, Eq)]
pub struct LaunchRequest {
    pub backend_path: String,
    pub resource_dir: String,
    pub logs_dir: String,
}

/// A `LaunchRequest` as a mathematical value.
pub struct LaunchRequestView {
    pub backend_path: Seq<char>,
    pub resource_dir: Seq<char>,
    pub logs_dir: Seq<char>,
}

impl View for LaunchRequest {
    type V = LaunchRequestView;

    open spec fn view(&self) -> LaunchRequestView {
        LaunchRequestView {
            backend_path: self.backend_path@,
            resource_dir: self.resource_dir@,
            logs_dir: self.logs_dir@,
        }
    }
}

/// One variable of the child's environment.
#[derive(Clone, Debug, PartialEq, Eq)]
pub struct Variable {
    pub name: String,
    pub value: String,
}

/// A `Variable` as a mathematical value.
pub struct VariableView {
    pub name: Seq<char>,
    pub value: Seq<char>,
}

impl DeepView for Variable {
    type V = VariableView;

    open spec fn deep_view(&self) -> VariableView {
        VariableView { name: self.name@, value: self.value@ }
    }
}

/// The variables that tell the child where the packaged resources and the logs
/// are: the resource directory first, the logs directory second.
pub open spec fn environment_of(launch: LaunchRequestView) -> Seq<VariableView> {
    seq![
        VariableView { name: "TAURI_RESOURCE_DIR"@, value: launch.resource_dir },
        VariableView { name: "TAURI_LOGS_DIR"@, value: launch.logs_dir },
    ]
}

impl LaunchRequest {
    /// The variables to add to the child's environment.
    pub fn environment(&self) -> (vars: Vec<Variable>)
        ensures
            vars.deep_view() == environment_of(self@),
    {
        let mut vars: Vec<Variable> = Vec::new();
        vars.push(
            Variable {
                name: String::from_str("TAURI_RESOURCE_DIR"),
                value: self.resource_dir.clone(),
            },
        );
        vars.push(
            Variable { name: String::from_str("TAURI_LOGS_DIR"), value: self.logs_dir.clone() },
        );
        assert(vars.deep_view() =~= environment_of(self@));
        vars
    }
}

/// How a launch attempt ended.
#[derive(Clone, Debug, PartialEq, Eq)]
pub enum LaunchResult {
    /// The child runs.
    Success { pid: u32, backend_path: String, logs_dir: String },
    /// The attempt stopped at `stage`; `underlying_error` describes why, with
    /// the platform's error text where there is one.
    Failure { stage: Stage, underlying_error: String },
}

/// A `LaunchResult` as a mathematical value.
pub enum LaunchResultView {
    Success { pid: u32, backend_path: Seq<char>, logs_dir: Seq<char> },
    Failure { stage: Stage, underlying_error: Seq<char> },
}

impl View for LaunchResult {
    type V = LaunchResultView;

    open spec fn view(&self) -> LaunchResultView {
        match self {
            LaunchResult::Success { pid, backend_path, logs_dir } => LaunchResultView::Success {
                pid: *pid,
                backend_path: backend_path@,
                logs_dir: logs_dir@,
            },
            LaunchResult::Failure { stage, underlying_error } => LaunchResultView::Failure {
                stage: *stage,
                underlying_error: underlying_error@,
            },
        }
    }
}

/// What the caller of a launch is told: the status text of a success, or the
/// description of the failure.
pub open spec fn reply_of(result: LaunchResultView) -> Result<Seq<char>, Seq<char>> {
    match result {
        LaunchResultView::Success { pid, backend_path, logs_dir } => Ok(
            started_reply_text(quoted_path(backend_path), quoted_path(logs_dir)),
        ),
        LaunchResultView::Failure { stage, underlying_error } => Err(underlying_error),
    }
}

impl LaunchResult {
    /// The text handed back to the caller of the launch.
    pub fn reply(&self) -> (reply: Result<String, String>)
        ensures
            reply is Ok <==> reply_of(self@) is Ok,
            reply matches Ok(text) ==> reply_of(self@) == Ok::<Seq<char>, Seq<char>>(text@),
            reply matches Err(text) ==> reply_of(self@) == Err::<Seq<char>, Seq<char>>(text@),
    {
        match self {
            LaunchResult::Success { pid, backend_path, logs_dir } => {
                let shown_backend = quote_path(backend_path.as_str());
                let shown_logs = quote_path(logs_dir.as_str());
                Ok(started_reply(shown_backend.as_str(), shown_logs.as_str()))
            },
            LaunchResult::Failure { stage, underlying_error } => Err(underlying_error.clone()),
        }
    }
}

/// What the host is asked to do next.
#[derive(Clone, Debug, PartialEq, Eq)]
pub enum Request {
    /// Find the path of the host executable.
    LocateHost,
    /// Create the directory `path`, with its parents, unless it exists.
    CreateLogsDir { path: String },
    /// Resolve the packaged resource `resource` to a path.
    ResolveBackend { resource: String },
    /// Test whether `path` exists on disk.
    ProbeBackend { path: String },
    /// Resolve the directory of the packaged resources.
    ResolveResourceDir,
    /// Create the file `path`, or empty it if it exists, and keep it open for `sink`.
    CreateLogFile { sink: Sink, path: String },
    /// Mark the file `path` executable.
    MarkExecutable { path: String },
    /// Start the backend as a child process, its output going to the two log files.
    Spawn { launch: LaunchRequest },
    /// Wait for `seconds` seconds.
    WarmUp { seconds: u64 },
    /// Hand `result` back: the attempt is over.
    Finish { result: LaunchResult },
}

/// A `Request` as a mathematical value.
pub enum RequestView {
    LocateHost,
    CreateLogsDir { path: Seq<char> },
    ResolveBackend { resource: Seq<char> },
    ProbeBackend { path: Seq<char> },
    ResolveResourceDir,
    CreateLogFile { sink: Sink, path: Seq<char> },
    MarkExecutable { path: Seq<char> },
    Spawn { launch: LaunchRequestView },
    WarmUp { seconds: u64 },
    Finish { result: LaunchResultView },
}

impl View for Request {
    type V = RequestView;

    open spec fn view(&self) -> RequestView {
        match self {
            Request::LocateHost => RequestView::LocateHost,
            Request::CreateLogsDir { path } => RequestView::CreateLogsDir { path: path@ },
            Request::ResolveBackend { resource } => RequestView::ResolveBackend {
                resource: resource@,
            },
            Request::ProbeBackend { path } => RequestView::ProbeBackend { path: path@ },
            Request::ResolveResourceDir => RequestView::ResolveResourceDir,
            Request::CreateLogFile { sink, path } => RequestView::CreateLogFile {
                sink: *sink,
                path: path@,
            },
            Request::MarkExecutable { path } => RequestView::MarkExecutable { path: path@ },
            Request::Spawn { launch } => RequestView::Spawn { launch: launch@ },
            Request::WarmUp { seconds } => RequestView::WarmUp { seconds: *seconds },
            Request::Finish { result } => RequestView::Finish { result: result@ },
        }
    }
}

/// What the host reports of the request it was given.
#[derive(Clone, Debug, PartialEq, Eq)]
pub enum Event {
    /// The path that was asked for.
    Found { path: String },
    /// Whether the probed path exists.
    Probed { present: bool },
    /// The request was carried out and has nothing to report.
    Completed,
    /// The child process was created, with this process id.
    Spawned { pid: u32 },
    /// The request failed; `reason` is the platform's error text.
    Failed { reason: String },
}

/// An `Event` as a mathematical value.
pub enum EventView {
    Found { path: Seq<char> },
    Probed { present: bool },
    Completed,
    Spawned { pid: u32 },
    Failed { reason: Seq<char> },
}

impl View for Event {
    type V = EventView;

    open spec fn view(&self) -> EventView {
        match self {
            Event::Found { path } => EventView::Found { path: path@ },
            Event::Probed { present } => EventView::Probed { present: *present },
            Event::Completed => EventView::Completed,
            Event::Spawned { pid } => EventView::Spawned { pid: *pid },
            Event::Failed { reason } => EventView::Failed { reason: reason@ },
        }
    }
}

/// One decision of the supervisor. The host appends the entries of `trace` to
/// the trace log, in order, then shows `notice` if there is one, then carries
/// out `request`.
#[derive(Clone, Debug, PartialEq, Eq)]
pub struct Directive {
    pub trace: Vec<String>,
    pub notice: Option<Notice>,
    pub request: Request,
}

/// A `Directive` as a mathematical value.
pub struct DirectiveView {
    pub trace: Seq<Seq<char>>,
    pub notice: Option<NoticeView>,
    pub request: RequestView,
}

impl View for Directive {
    type V = DirectiveView;

    open spec fn view(&self) -> DirectiveView {
        DirectiveView {
            trace: self.trace.deep_view(),
            notice: match self.notice {
                Some(notice) => Some(notice@),
                None => None,
            },
            request: self.request@,
        }
    }
}

} // verus!
