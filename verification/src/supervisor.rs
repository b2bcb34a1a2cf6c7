//! The supervisor: the decisions of one launch attempt after another.
//!
//! A host creates a `Supervisor`, carries out the request that is `pending`, and
//! reports the outcome with `advance`, which answers with the next directive.
//! The supervisor touches neither disk nor processes; it only decides. What it
//! decides is the state machine of `model`, step for step.

use vstd::prelude::*;
use vstd::string::*;
use crate::messages::{
    backend_log_entry, backend_path_entry, host_path_failure, log_file_failure, log_file_notice,
    logs_dir_failure, logs_dir_notice, missing_notice, missing_reply, resolve_failure,
    resolve_notice, resource_entry, resource_failure, resource_notice, spawn_failure_entry,
    spawn_failure_notice, spawn_failure_reply, spawned_notice,
};
use crate::model;
use crate::model::{Phase, SupervisorView};
use crate::paths::{
    joined_path, logs_dir_beside, quote_path, stderr_log_path, stdout_log_path, trace_log_name,
    trace_log_path,
};
use crate::protocol::{
    Directive, Event, LaunchRequest, LaunchResult, Notice, NoticeKind, Request, Sink,
};
use crate::stage::Stage;

verus! {

/// The state of the launcher between two reports of its host.
#[derive(Debug)]
pub struct Supervisor {
    phase: Phase,
    needs_exec_bit: bool,
    logs_dir: String,
    backend_path: String,
    resource_dir: String,
    pid: u32,
    stage: Stage,
    error: String,
}

impl View for Supervisor {
    type V = SupervisorView;

    closed spec fn view(&self) -> SupervisorView {
        SupervisorView {
            phase: self.phase,
            needs_exec_bit: self.needs_exec_bit,
            logs_dir: self.logs_dir@,
            backend_path: self.backend_path@,
            resource_dir: self.resource_dir@,
            pid: self.pid,
            stage: self.stage,
            error: self.error@,
        }
    }
}

/// A trace without entries.
fn no_entries() -> (trace: Vec<String>)
    ensures
        trace.deep_view() == Seq::<Seq<char>>::empty(),
{
    let trace: Vec<String> = Vec::new();
    assert(trace.deep_view() =~= Seq::<Seq<char>>::empty());
    trace
}

/// A trace of one entry.
fn one_entry(entry: String) -> (trace: Vec<String>)
    ensures
        trace.deep_view() == seq![entry@],
{
    let mut trace: Vec<String> = Vec::new();
    trace.push(entry);
    assert(trace.deep_view() =~= seq![entry@]);
    trace
}

/// A trace of two entries.
fn two_entries(first: String, second: String) -> (trace: Vec<String>)
    ensures
        trace.deep_view() == seq![first@, second@],
{
    let mut trace: Vec<String> = Vec::new();
    trace.push(first);
    trace.push(second);
    assert(trace.deep_view() =~= seq![first@, second@]);
    trace
}

impl Supervisor {
    /// A supervisor at the start of an attempt. `needs_exec_bit` says whether
    /// the platform wants a file marked executable before it runs it.
    pub fn new(needs_exec_bit: bool) -> (supervisor: Supervisor)
        ensures
            supervisor@ == model::start(needs_exec_bit),
    {
        Supervisor {
            phase: Phase::LocatingHost,
            needs_exec_bit,
            logs_dir: String::new(),
            backend_path: String::new(),
            resource_dir: String::new(),
            pid: 0,
            stage: Stage::PathResolution,
            error: String::new(),
        }
    }

    /// Begins a new attempt, whatever became of the last one: nothing of it is kept.
    pub fn restart(&mut self)
        ensures
            final(self)@ == model::start(old(self)@.needs_exec_bit),
    {
        let fresh = Supervisor::new(self.needs_exec_bit);
        *self = fresh;
    }

    /// The phase of the attempt.
    pub fn phase(&self) -> (phase: Phase)
        ensures
            phase == self@.phase,
    {
        self.phase
    }

    /// Whether the attempt is over.
    pub fn is_finished(&self) -> (finished: bool)
        ensures
            finished == model::is_finished(self@),
    {
        match self.phase {
            Phase::Succeeded => true,
            Phase::Failed => true,
            _ => false,
        }
    }

    /// The result of the attempt, once it is over.
    pub fn outcome(&self) -> (result: Option<LaunchResult>)
        ensures
            result is Some <==> model::is_finished(self@),
            result matches Some(r) ==> r@ == model::outcome(self@),
    {
        if self.is_finished() {
            Some(self.result())
        } else {
            None
        }
    }

    /// The file that the entries of the trace log are appended to. It is
    /// known once the host executable has been located.
    pub fn trace_log(&self) -> (path: String)
        ensures
            path@ == joined_path(self@.logs_dir, trace_log_name()),
    {
        trace_log_path(self.logs_dir.as_str())
    }

    /// The request that the host is working on.
    pub fn pending(&self) -> (request: Request)
        ensures
            request@ == model::pending(self@),
    {
        match self.phase {
            Phase::LocatingHost => Request::LocateHost,
            Phase::CreatingLogsDir => Request::CreateLogsDir { path: self.logs_dir.clone() },
            Phase::ResolvingBackend => Request::ResolveBackend {
                resource: String::from_str("_up_/backend/dist/backend.exe"),
            },
            Phase::ProbingBackend => Request::ProbeBackend { path: self.backend_path.clone() },
            Phase::ResolvingResourceDir => Request::ResolveResourceDir,
            Phase::CreatingStdoutLog => Request::CreateLogFile {
                sink: Sink::Stdout,
                path: stdout_log_path(self.logs_dir.as_str()),
            },
            Phase::CreatingStderrLog => Request::CreateLogFile {
                sink: Sink::Stderr,
                path: stderr_log_path(self.logs_dir.as_str()),
            },
            Phase::MarkingExecutable => Request::MarkExecutable {
                path: self.backend_path.clone(),
            },
            Phase::Spawning => Request::Spawn {
                launch: LaunchRequest {
                    backend_path: self.backend_path.clone(),
                    resource_dir: self.resource_dir.clone(),
                    logs_dir: self.logs_dir.clone(),
                },
            },
            Phase::WarmingUp => Request::WarmUp { seconds: 3 },
            Phase::Succeeded => Request::Finish { result: self.result() },
            Phase::Failed => Request::Finish { result: self.result() },
        }
    }

    /// Takes the host's report of the pending request and decides what follows.
    pub fn advance(&mut self, event: Event) -> (directive: Directive)
        ensures
            final(self)@ == model::next(old(self)@, event@).0,
            directive@ == model::next(old(self)@, event@).1,
    {
        match self.phase {
            Phase::LocatingHost => self.after_locate(event),
            Phase::CreatingLogsDir => self.after_logs_dir(event),
            Phase::ResolvingBackend => self.after_resolve(event),
            Phase::ProbingBackend => self.after_probe(event),
            Phase::ResolvingResourceDir => self.after_resource_dir(event),
            Phase::CreatingStdoutLog => self.after_stdout_log(event),
            Phase::CreatingStderrLog => self.after_stderr_log(event),
            Phase::MarkingExecutable => self.after_mark(event),
            Phase::Spawning => self.after_spawn(event),
            Phase::WarmingUp => self.after_warm_up(event),
            Phase::Succeeded => self.repeat(),
            Phase::Failed => self.repeat(),
        }
    }

    fn result(&self) -> (result: LaunchResult)
        ensures
            result@ == model::outcome(self@),
    {
        match self.phase {
            Phase::Succeeded => LaunchResult::Success {
                pid: self.pid,
                backend_path: self.backend_path.clone(),
                logs_dir: self.logs_dir.clone(),
            },
            _ => LaunchResult::Failure {
                stage: self.stage,
                underlying_error: self.error.clone(),
            },
        }
    }

    fn proceed(&mut self, phase: Phase, trace: Vec<String>) -> (directive: Directive)
        ensures
            final(self)@ == model::proceed(old(self)@, phase, trace.deep_view()).0,
            directive@ == model::proceed(old(self)@, phase, trace.deep_view()).1,
    {
        self.phase = phase;
        let request = self.pending();
        Directive { trace, notice: None, request }
    }

    fn repeat(&mut self) -> (directive: Directive)
        ensures
            final(self)@ == model::repeat(old(self)@).0,
            directive@ == model::repeat(old(self)@).1,
    {
        let phase = self.phase;
        self.proceed(phase, no_entries())
    }

    fn fail(
        &mut self,
        stage: Stage,
        trace: Vec<String>,
        title: &str,
        message: String,
        reply: String,
    ) -> (directive: Directive)
        ensures
            final(self)@ == model::fail(
                old(self)@,
                stage,
                trace.deep_view(),
                title@,
                message@,
                reply@,
            ).0,
            directive@ == model::fail(
                old(self)@,
                stage,
                trace.deep_view(),
                title@,
                message@,
                reply@,
            ).1,
    {
        self.phase = Phase::Failed;
        self.stage = stage;
        self.error = reply;
        let request = self.pending();
        let notice = Notice { kind: NoticeKind::Error, title: String::from_str(title), message };
        Directive { trace, notice: Some(notice), request }
    }

    fn fail_without_logs(&mut self, reply: String) -> (directive: Directive)
        ensures
            final(self)@ == model::fail_without_logs(old(self)@, reply@).0,
            directive@ == model::fail_without_logs(old(self)@, reply@).1,
    {
        let message = logs_dir_notice(reply.as_str());
        self.fail(Stage::LogFileCreation, no_entries(), "Backend Startup Error", message, reply)
    }

    fn fail_log_file(&mut self, name: &str, reason: &str) -> (directive: Directive)
        ensures
            final(self)@ == model::fail_log_file(old(self)@, name@, reason@).0,
            directive@ == model::fail_log_file(old(self)@, name@, reason@).1,
    {
        let shown_logs = quote_path(self.logs_dir.as_str());
        let message = log_file_notice(name, reason, shown_logs.as_str());
        self.fail(
            Stage::LogFileCreation,
            one_entry(log_file_failure(name, reason)),
            "Log File Error",
            message,
            log_file_failure(name, reason),
        )
    }

    fn after_locate(&mut self, event: Event) -> (directive: Directive)
        ensures
            final(self)@ == model::after_locate(old(self)@, event@).0,
            directive@ == model::after_locate(old(self)@, event@).1,
    {
        match event {
            Event::Found { path } => match logs_dir_beside(path.as_str()) {
                Some(dir) => {
                    self.logs_dir = dir;
                    self.proceed(Phase::CreatingLogsDir, no_entries())
                },
                None => self.fail_without_logs(String::from_str("Failed to get exe directory")),
            },
            Event::Failed { reason } => self.fail_without_logs(host_path_failure(reason.as_str())),
            _ => self.repeat(),
        }
    }

    fn after_logs_dir(&mut self, event: Event) -> (directive: Directive)
        ensures
            final(self)@ == model::after_logs_dir(old(self)@, event@).0,
            directive@ == model::after_logs_dir(old(self)@, event@).1,
    {
        match event {
            Event::Completed => self.proceed(
                Phase::ResolvingBackend,
                one_entry(String::from_str("=== Backend Startup Attempt ===")),
            ),
            Event::Failed { reason } => self.fail_without_logs(logs_dir_failure(reason.as_str())),
            _ => self.repeat(),
        }
    }

    fn after_resolve(&mut self, event: Event) -> (directive: Directive)
        ensures
            final(self)@ == model::after_resolve(old(self)@, event@).0,
            directive@ == model::after_resolve(old(self)@, event@).1,
    {
        match event {
            Event::Found { path } => {
                let shown = quote_path(path.as_str());
                self.backend_path = path;
                self.proceed(Phase::ProbingBackend, one_entry(backend_path_entry(shown.as_str())))
            },
            Event::Failed { reason } => {
                let shown_logs = quote_path(self.logs_dir.as_str());
                let message = resolve_notice(reason.as_str(), shown_logs.as_str());
                self.fail(
                    Stage::PathResolution,
                    one_entry(resolve_failure(reason.as_str())),
                    "Backend Not Found",
                    message,
                    resolve_failure(reason.as_str()),
                )
            },
            _ => self.repeat(),
        }
    }

    fn after_probe(&mut self, event: Event) -> (directive: Directive)
        ensures
            final(self)@ == model::after_probe(old(self)@, event@).0,
            directive@ == model::after_probe(old(self)@, event@).1,
    {
        match event {
            Event::Probed { present } => {
                if present {
                    self.proceed(
                        Phase::ResolvingResourceDir,
                        one_entry(String::from_str("Backend.exe exists, attempting to spawn...")),
                    )
                } else {
                    let shown_backend = quote_path(self.backend_path.as_str());
                    let shown_logs = quote_path(self.logs_dir.as_str());
                    let message = missing_notice(shown_backend.as_str(), shown_logs.as_str());
                    self.fail(
                        Stage::ExistenceCheck,
                        one_entry(String::from_str("Backend.exe does not exist")),
                        "Backend Missing",
                        message,
                        missing_reply(shown_backend.as_str()),
                    )
                }
            },
            _ => self.repeat(),
        }
    }

    fn after_resource_dir(&mut self, event: Event) -> (directive: Directive)
        ensures
            final(self)@ == model::after_resource_dir(old(self)@, event@).0,
            directive@ == model::after_resource_dir(old(self)@, event@).1,
    {
        match event {
            Event::Found { path } => {
                let shown_resources = quote_path(path.as_str());
                let stdout_log = stdout_log_path(self.logs_dir.as_str());
                let shown_log = quote_path(stdout_log.as_str());
                self.resource_dir = path;
                self.proceed(
                    Phase::CreatingStdoutLog,
                    two_entries(
                        resource_entry(shown_resources.as_str()),
                        backend_log_entry(shown_log.as_str()),
                    ),
                )
            },
            Event::Failed { reason } => {
                let shown_logs = quote_path(self.logs_dir.as_str());
                let message = resource_notice(reason.as_str(), shown_logs.as_str());
                self.fail(
                    Stage::PathResolution,
                    one_entry(resource_failure(reason.as_str())),
                    "Path Resolution Error",
                    message,
                    resource_failure(reason.as_str()),
                )
            },
            _ => self.repeat(),
        }
    }

    fn after_stdout_log(&mut self, event: Event) -> (directive: Directive)
        ensures
            final(self)@ == model::after_stdout_log(old(self)@, event@).0,
            directive@ == model::after_stdout_log(old(self)@, event@).1,
    {
        match event {
            Event::Completed => self.proceed(Phase::CreatingStderrLog, no_entries()),
            Event::Failed { reason } => self.fail_log_file("backend.log", reason.as_str()),
            _ => self.repeat(),
        }
    }

    fn after_stderr_log(&mut self, event: Event) -> (directive: Directive)
        ensures
            final(self)@ == model::after_stderr_log(old(self)@, event@).0,
            directive@ == model::after_stderr_log(old(self)@, event@).1,
    {
        match event {
            Event::Completed => {
                let phase = if self.needs_exec_bit {
                    Phase::MarkingExecutable
                } else {
                    Phase::Spawning
                };
                self.proceed(
                    phase,
                    one_entry(String::from_str("Log files created, spawning process...")),
                )
            },
            Event::Failed { reason } => self.fail_log_file("backend_error.log", reason.as_str()),
            _ => self.repeat(),
        }
    }

    fn after_mark(&mut self, event: Event) -> (directive: Directive)
        ensures
            final(self)@ == model::after_mark(old(self)@, event@).0,
            directive@ == model::after_mark(old(self)@, event@).1,
    {
        match event {
            Event::Completed => self.proceed(
                Phase::Spawning,
                one_entry(String::from_str("Made backend executable (chmod +x)")),
            ),
            Event::Failed { reason } => self.proceed(
                Phase::Spawning,
                one_entry(String::from_str("Made backend executable (chmod +x)")),
            ),
            _ => self.repeat(),
        }
    }

    fn after_spawn(&mut self, event: Event) -> (directive: Directive)
        ensures
            final(self)@ == model::after_spawn(old(self)@, event@).0,
            directive@ == model::after_spawn(old(self)@, event@).1,
    {
        match event {
            Event::Spawned { pid } => {
                let shown_backend = quote_path(self.backend_path.as_str());
                let shown_logs = quote_path(self.logs_dir.as_str());
                let notice = Notice {
                    kind: NoticeKind::Info,
                    title: String::from_str("Backend Starting"),
                    message: spawned_notice(shown_backend.as_str(), shown_logs.as_str()),
                };
                self.phase = Phase::WarmingUp;
                self.pid = pid;
                let request = self.pending();
                Directive {
                    trace: one_entry(String::from_str("Process spawned successfully")),
                    notice: Some(notice),
                    request,
                }
            },
            Event::Failed { reason } => {
                let shown_backend = quote_path(self.backend_path.as_str());
                let shown_logs = quote_path(self.logs_dir.as_str());
                let message = spawn_failure_notice(
                    reason.as_str(),
                    shown_backend.as_str(),
                    shown_logs.as_str(),
                );
                self.fail(
                    Stage::Spawn,
                    one_entry(spawn_failure_entry(reason.as_str())),
                    "Backend Spawn Failed",
                    message,
                    spawn_failure_reply(reason.as_str()),
                )
            },
            _ => self.repeat(),
        }
    }

    fn after_warm_up(&mut self, event: Event) -> (directive: Directive)
        ensures
            final(self)@ == model::after_warm_up(old(self)@, event@).0,
            directive@ == model::after_warm_up(old(self)@, event@).1,
    {
        match event {
            Event::Completed => self.proceed(
                Phase::Succeeded,
                one_entry(String::from_str("Startup complete")),
            ),
            _ => self.repeat(),
        }
    }
}

} // verus!
