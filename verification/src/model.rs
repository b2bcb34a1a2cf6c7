//! The supervisor as a mathematical state machine.
//!
//! A state holds what the attempt has learned so far and the phase it is in. The
//! phase fixes the request that the host is working on (`pending`). `next` takes
//! a state and the host's report and gives the state that follows, with the
//! directive for the host. An attempt is over in the two final phases; from
//! there every report is answered with the same result.

use vstd::prelude::*;
use crate::messages::{
    attempt_entry, backend_log_entry_text, backend_path_entry_text, complete_entry,
    files_ready_entry, host_dir_failure, host_path_failure_text, log_file_error_title,
    log_file_failure_text, log_file_notice_text, logs_dir_failure_text, logs_dir_notice_text,
    marked_entry, missing_entry, missing_notice_text, missing_reply_text, missing_title,
    not_found_title, present_entry, resolution_error_title, resolve_failure_text,
    resolve_notice_text, resource_entry_text, resource_failure_text, resource_notice_text,
    spawn_failed_title, spawn_failure_entry_text, spawn_failure_notice_text,
    spawn_failure_reply_text, spawned_entry, spawned_notice_text, starting_title,
    startup_error_title,
};
use crate::paths::{
    backend_resource, joined_path, logs_dir_of, quoted_path, stderr_log_name, stdout_log_name,
};
use crate::protocol::{
    DirectiveView, EventView, LaunchRequestView, LaunchResultView, NoticeKind, NoticeView,
    RequestView, Sink,
};
use crate::stage::Stage;

verus! {

/// Where a launch attempt stands: which request the host is working on, or how
/// the attempt ended.
#[derive(Clone, Copy, Debug, PartialEq, Eq, Structural)]
pub enum Phase {
    /// The host looks for its own executable.
    LocatingHost,
    /// The host creates the logs directory.
    CreatingLogsDir,
    /// The host resolves the backend in the bundle.
    ResolvingBackend,
    /// The host tests whether the backend is on disk.
    ProbingBackend,
    /// The host resolves the directory of the packaged resources.
    ResolvingResourceDir,
    /// The host creates the file for the backend's standard output.
    CreatingStdoutLog,
    /// The host creates the file for the backend's standard error.
    CreatingStderrLog,
    /// The host marks the backend executable.
    MarkingExecutable,
    /// The host creates the child process.
    Spawning,
    /// The host waits for the backend to come up.
    WarmingUp,
    /// The attempt ended with a running backend.
    Succeeded,
    /// The attempt ended with a failure.
    Failed,
}

/// The state of a supervisor as a mathematical value. A path is the empty
/// sequence until the attempt has learned it; `stage` and `error` count in the
/// phase `Failed` only, `pid` from `WarmingUp` on.
pub struct SupervisorView {
    pub phase: Phase,
    pub needs_exec_bit: bool,
    pub logs_dir: Seq<char>,
    pub backend_path: Seq<char>,
    pub resource_dir: Seq<char>,
    pub pid: u32,
    pub stage: Stage,
    pub error: Seq<char>,
}

/// The seconds that the host waits after a spawn.
pub open spec fn warm_up_seconds() -> u64 {
    3
}

/// The state in which every attempt begins. `needs_exec_bit` says whether the
/// platform wants a file marked executable before it runs it.
pub open spec fn start(needs_exec_bit: bool) -> SupervisorView {
    SupervisorView {
        phase: Phase::LocatingHost,
        needs_exec_bit,
        logs_dir: Seq::empty(),
        backend_path: Seq::empty(),
        resource_dir: Seq::empty(),
        pid: 0,
        stage: Stage::PathResolution,
        error: Seq::empty(),
    }
}

/// Whether the attempt is over.
pub open spec fn is_finished(s: SupervisorView) -> bool {
    s.phase == Phase::Succeeded || s.phase == Phase::Failed
}

/// The result of an attempt that is over.
pub open spec fn outcome(s: SupervisorView) -> LaunchResultView {
    if s.phase == Phase::Succeeded {
        LaunchResultView::Success { pid: s.pid, backend_path: s.backend_path, logs_dir: s.logs_dir }
    } else {
        LaunchResultView::Failure { stage: s.stage, underlying_error: s.error }
    }
}

/// What a spawn is given.
pub open spec fn launch_of(s: SupervisorView) -> LaunchRequestView {
    LaunchRequestView {
        backend_path: s.backend_path,
        resource_dir: s.resource_dir,
        logs_dir: s.logs_dir,
    }
}

/// The request that the host is working on in state `s`.
pub open spec fn pending(s: SupervisorView) -> RequestView {
    match s.phase {
        Phase::LocatingHost => RequestView::LocateHost,
        Phase::CreatingLogsDir => RequestView::CreateLogsDir { path: s.logs_dir },
        Phase::ResolvingBackend => RequestView::ResolveBackend { resource: backend_resource() },
        Phase::ProbingBackend => RequestView::ProbeBackend { path: s.backend_path },
        Phase::ResolvingResourceDir => RequestView::ResolveResourceDir,
        Phase::CreatingStdoutLog => RequestView::CreateLogFile {
            sink: Sink::Stdout,
            path: joined_path(s.logs_dir, stdout_log_name()),
        },
        Phase::CreatingStderrLog => RequestView::CreateLogFile {
            sink: Sink::Stderr,
            path: joined_path(s.logs_dir, stderr_log_name()),
        },
        Phase::MarkingExecutable => RequestView::MarkExecutable { path: s.backend_path },
        Phase::Spawning => RequestView::Spawn { launch: launch_of(s) },
        Phase::WarmingUp => RequestView::WarmUp { seconds: warm_up_seconds() },
        Phase::Succeeded => RequestView::Finish { result: outcome(s) },
        Phase::Failed => RequestView::Finish { result: outcome(s) },
    }
}

/// The state `s` moved on to `phase`, with `trace` for the trace log.
pub open spec fn proceed(s: SupervisorView, phase: Phase, trace: Seq<Seq<char>>) -> (
    SupervisorView,
    DirectiveView,
) {
    let t = SupervisorView { phase, ..s };
    (t, DirectiveView { trace, notice: None, request: pending(t) })
}

/// The state `s` unchanged: the host is asked once more for what is pending.
pub open spec fn repeat(s: SupervisorView) -> (SupervisorView, DirectiveView) {
    proceed(s, s.phase, Seq::empty())
}

/// The attempt in state `s` ended at `stage`: `trace` goes to the trace log, an
/// error dialog shows `message` under `title`, and the caller is told `reply`.
pub open spec fn fail(
    s: SupervisorView,
    stage: Stage,
    trace: Seq<Seq<char>>,
    title: Seq<char>,
    message: Seq<char>,
    reply: Seq<char>,
) -> (SupervisorView, DirectiveView) {
    let t = SupervisorView { phase: Phase::Failed, stage, error: reply, ..s };
    (
        t,
        DirectiveView {
            trace,
            notice: Some(NoticeView { kind: NoticeKind::Error, title, message }),
            request: pending(t),
        },
    )
}

/// The logs directory could not be prepared: nothing can be traced yet.
pub open spec fn fail_without_logs(s: SupervisorView, reply: Seq<char>) -> (
    SupervisorView,
    DirectiveView,
) {
    fail(
        s,
        Stage::LogFileCreation,
        Seq::empty(),
        startup_error_title(),
        logs_dir_notice_text(reply),
        reply,
    )
}

/// The host has looked for its executable.
pub open spec fn after_locate(s: SupervisorView, e: EventView) -> (SupervisorView, DirectiveView) {
    match e {
        EventView::Found { path } => match logs_dir_of(path) {
            Some(dir) => proceed(
                SupervisorView { logs_dir: dir, ..s },
                Phase::CreatingLogsDir,
                Seq::empty(),
            ),
            None => fail_without_logs(s, host_dir_failure()),
        },
        EventView::Failed { reason } => fail_without_logs(s, host_path_failure_text(reason)),
        _ => repeat(s),
    }
}

/// The host has tried to create the logs directory.
pub open spec fn after_logs_dir(s: SupervisorView, e: EventView) -> (
    SupervisorView,
    DirectiveView,
) {
    match e {
        EventView::Completed => proceed(s, Phase::ResolvingBackend, seq![attempt_entry()]),
        EventView::Failed { reason } => fail_without_logs(s, logs_dir_failure_text(reason)),
        _ => repeat(s),
    }
}

/// The host has tried to resolve the backend.
pub open spec fn after_resolve(s: SupervisorView, e: EventView) -> (SupervisorView, DirectiveView) {
    match e {
        EventView::Found { path } => proceed(
            SupervisorView { backend_path: path, ..s },
            Phase::ProbingBackend,
            seq![backend_path_entry_text(quoted_path(path))],
        ),
        EventView::Failed { reason } => fail(
            s,
            Stage::PathResolution,
            seq![resolve_failure_text(reason)],
            not_found_title(),
            resolve_notice_text(reason, quoted_path(s.logs_dir)),
            resolve_failure_text(reason),
        ),
        _ => repeat(s),
    }
}

/// The host has tested whether the backend is on disk.
pub open spec fn after_probe(s: SupervisorView, e: EventView) -> (SupervisorView, DirectiveView) {
    match e {
        EventView::Probed { present } => if present {
            proceed(s, Phase::ResolvingResourceDir, seq![present_entry()])
        } else {
            fail(
                s,
                Stage::ExistenceCheck,
                seq![missing_entry()],
                missing_title(),
                missing_notice_text(quoted_path(s.backend_path), quoted_path(s.logs_dir)),
                missing_reply_text(quoted_path(s.backend_path)),
            )
        },
        _ => repeat(s),
    }
}

/// The host has tried to resolve the resource directory.
pub open spec fn after_resource_dir(s: SupervisorView, e: EventView) -> (
    SupervisorView,
    DirectiveView,
) {
    match e {
        EventView::Found { path } => proceed(
            SupervisorView { resource_dir: path, ..s },
            Phase::CreatingStdoutLog,
            seq![
                resource_entry_text(quoted_path(path)),
                backend_log_entry_text(quoted_path(joined_path(s.logs_dir, stdout_log_name()))),
            ],
        ),
        EventView::Failed { reason } => fail(
            s,
            Stage::PathResolution,
            seq![resource_failure_text(reason)],
            resolution_error_title(),
            resource_notice_text(reason, quoted_path(s.logs_dir)),
            resource_failure_text(reason),
        ),
        _ => repeat(s),
    }
}

/// The output file `name` could not be created.
pub open spec fn fail_log_file(s: SupervisorView, name: Seq<char>, reason: Seq<char>) -> (
    SupervisorView,
    DirectiveView,
) {
    fail(
        s,
        Stage::LogFileCreation,
        seq![log_file_failure_text(name, reason)],
        log_file_error_title(),
        log_file_notice_text(name, reason, quoted_path(s.logs_dir)),
        log_file_failure_text(name, reason),
    )
}

/// The host has tried to create the file for standard output.
pub open spec fn after_stdout_log(s: SupervisorView, e: EventView) -> (
    SupervisorView,
    DirectiveView,
) {
    match e {
        EventView::Completed => proceed(s, Phase::CreatingStderrLog, Seq::empty()),
        EventView::Failed { reason } => fail_log_file(s, stdout_log_name(), reason),
        _ => repeat(s),
    }
}

/// The host has tried to create the file for standard error.
pub open spec fn after_stderr_log(s: SupervisorView, e: EventView) -> (
    SupervisorView,
    DirectiveView,
) {
    match e {
        EventView::Completed => proceed(
            s,
            if s.needs_exec_bit {
                Phase::MarkingExecutable
            } else {
                Phase::Spawning
            },
            seq![files_ready_entry()],
        ),
        EventView::Failed { reason } => fail_log_file(s, stderr_log_name(), reason),
        _ => repeat(s),
    }
}

/// The host has tried to mark the backend executable. A failure is not held
/// against the attempt: the spawn will tell.
pub open spec fn after_mark(s: SupervisorView, e: EventView) -> (SupervisorView, DirectiveView) {
    match e {
        EventView::Completed => proceed(s, Phase::Spawning, seq![marked_entry()]),
        EventView::Failed { reason } => proceed(s, Phase::Spawning, seq![marked_entry()]),
        _ => repeat(s),
    }
}

/// The host has tried to create the child process.
pub open spec fn after_spawn(s: SupervisorView, e: EventView) -> (SupervisorView, DirectiveView) {
    match e {
        EventView::Spawned { pid } => {
            let t = SupervisorView { phase: Phase::WarmingUp, pid, ..s };
            (
                t,
                DirectiveView {
                    trace: seq![spawned_entry()],
                    notice: Some(
                        NoticeView {
                            kind: NoticeKind::Info,
                            title: starting_title(),
                            message: spawned_notice_text(
                                quoted_path(s.backend_path),
                                quoted_path(s.logs_dir),
                            ),
                        },
                    ),
                    request: pending(t),
                },
            )
        },
        EventView::Failed { reason } => fail(
            s,
            Stage::Spawn,
            seq![spawn_failure_entry_text(reason)],
            spawn_failed_title(),
            spawn_failure_notice_text(
                reason,
                quoted_path(s.backend_path),
                quoted_path(s.logs_dir),
            ),
            spawn_failure_reply_text(reason),
        ),
        _ => repeat(s),
    }
}

/// The host has waited.
pub open spec fn after_warm_up(s: SupervisorView, e: EventView) -> (SupervisorView, DirectiveView) {
    match e {
        EventView::Completed => proceed(s, Phase::Succeeded, seq![complete_entry()]),
        _ => repeat(s),
    }
}

/// The state that follows `s` when the host reports `e`, and the directive for
/// the host. A report that does not answer the pending request changes nothing:
/// the host is asked again.
pub open spec fn next(s: SupervisorView, e: EventView) -> (SupervisorView, DirectiveView) {
    match s.phase {
        Phase::LocatingHost => after_locate(s, e),
        Phase::CreatingLogsDir => after_logs_dir(s, e),
        Phase::ResolvingBackend => after_resolve(s, e),
        Phase::ProbingBackend => after_probe(s, e),
        Phase::ResolvingResourceDir => after_resource_dir(s, e),
        Phase::CreatingStdoutLog => after_stdout_log(s, e),
        Phase::CreatingStderrLog => after_stderr_log(s, e),
        Phase::MarkingExecutable => after_mark(s, e),
        Phase::Spawning => after_spawn(s, e),
        Phase::WarmingUp => after_warm_up(s, e),
        Phase::Succeeded => repeat(s),
        Phase::Failed => repeat(s),
    }
}

/// The state reached from `s` once the host has given the reports `events`, one
/// after another.
pub open spec fn run(s: SupervisorView, events: Seq<EventView>) -> SupervisorView
    decreases events.len(),
{
    if events.len() == 0 {
        s
    } else {
        next(run(s, events.drop_last()), events.last()).0
    }
}

/// The directives that answer the reports `events`, given from state `s` on:
/// one for each report, in order.
pub open spec fn directives(s: SupervisorView, events: Seq<EventView>) -> Seq<DirectiveView>
    decreases events.len(),
{
    if events.len() == 0 {
        Seq::empty()
    } else {
        directives(s, events.drop_last()).push(
            next(run(s, events.drop_last()), events.last()).1,
        )
    }
}

/// The entries that `directives` add to the trace log, in the order in which
/// they are written.
pub open spec fn trace_of(directives: Seq<DirectiveView>) -> Seq<Seq<char>>
    decreases directives.len(),
{
    if directives.len() == 0 {
        Seq::empty()
    } else {
        trace_of(directives.drop_last()) + directives.last().trace
    }
}

/// The requests that `directives` make, in order.
pub open spec fn requests_of(directives: Seq<DirectiveView>) -> Seq<RequestView> {
    Seq::new(directives.len(), |i: int| directives[i].request)
}

/// Report `j` of `events` is `e`, given while the attempt that began in `s` was
/// in `phase`.
pub open spec fn reported_in(
    s: SupervisorView,
    events: Seq<EventView>,
    j: int,
    phase: Phase,
    e: EventView,
) -> bool {
    &&& 0 <= j < events.len()
    &&& run(s, events.take(j)).phase == phase
    &&& events[j] == e
}

} // verus!
