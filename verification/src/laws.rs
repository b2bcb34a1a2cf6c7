//! What holds of every launch attempt, proved of the state machine that the
//! supervisor follows.

use vstd::prelude::*;
use crate::messages::{
    attempt_entry, backend_log_entry_text, backend_path_entry_text, complete_entry,
    files_ready_entry, marked_entry, missing_reply_text, present_entry, resource_entry_text,
    spawned_entry,
};
use crate::model::{
    directives, is_finished, launch_of, next, outcome, pending, repeat, reported_in, requests_of,
    run, start, trace_of, warm_up_seconds, Phase, SupervisorView,
};
use crate::paths::{
    backend_resource, joined_path, logs_dir_of, quoted_path, stderr_log_name, stdout_log_name,
};
use crate::protocol::{
    DirectiveView, EventView, LaunchRequestView, LaunchResultView, RequestView, Sink,
};
use crate::stage::Stage;

verus! {

/// One more report extends a run by one step, and its directives by one.
pub proof fn lemma_run_push(s: SupervisorView, events: Seq<EventView>, e: EventView)
    ensures
        run(s, events.push(e)) == next(run(s, events), e).0,
        directives(s, events.push(e)) == directives(s, events).push(next(run(s, events), e).1),
{
    assert(events.push(e).drop_last() =~= events);
}

/// A run gives one directive for each report, and directive `i` is the answer
/// to report `i` in the state that the reports before it led to.
pub proof fn lemma_directive_at(s: SupervisorView, events: Seq<EventView>, i: int)
    requires
        0 <= i < events.len(),
    ensures
        directives(s, events).len() == events.len(),
        directives(s, events)[i] == next(run(s, events.take(i)), events[i]).1,
    decreases events.len(),
{
    let front = events.drop_last();
    lemma_directives_len(s, front);
    if i == events.len() - 1 {
        assert(events.take(i) =~= front);
    } else {
        lemma_directive_at(s, front, i);
        assert(front.take(i) =~= events.take(i));
    }
}

/// A run gives one directive for each report.
pub proof fn lemma_directives_len(s: SupervisorView, events: Seq<EventView>)
    ensures
        directives(s, events).len() == events.len(),
    decreases events.len(),
{
    if events.len() > 0 {
        lemma_directives_len(s, events.drop_last());
    }
}

/// Every directive asks for what is pending in the state that it leads to.
pub proof fn law_directive_asks_pending(s: SupervisorView, e: EventView)
    ensures
        next(s, e).1.request == pending(next(s, e).0),
{
}

/// An attempt that is over stays as it is: whatever the host reports, the
/// state does not change, nothing is traced or shown, and the same result is
/// handed back.
pub proof fn law_finished_attempt_stays(s: SupervisorView, events: Seq<EventView>)
    requires
        is_finished(s),
    ensures
        run(s, events) == s,
        forall|i: int|
            0 <= i < events.len() ==> #[trigger] directives(s, events)[i] == repeat(s).1,
        repeat(s).1 == (DirectiveView {
            trace: Seq::empty(),
            notice: None,
            request: RequestView::Finish { result: outcome(s) },
        }),
    decreases events.len(),
{
    if events.len() > 0 {
        law_finished_attempt_stays(s, events.drop_last());
        lemma_directives_len(s, events.drop_last());
    }
}

/// A backend that is not on disk ends the attempt at the existence check. The
/// host is asked for nothing but to hand the failure back, so no spawn is
/// asked for, whatever it reports afterwards.
pub proof fn law_missing_backend_ends_attempt(s: SupervisorView, later: Seq<EventView>)
    requires
        s.phase == Phase::ProbingBackend,
    ensures
        ({
            let (t, d) = next(s, EventView::Probed { present: false });
            let failure = LaunchResultView::Failure {
                stage: Stage::ExistenceCheck,
                underlying_error: missing_reply_text(quoted_path(s.backend_path)),
            };
            &&& t.phase == Phase::Failed
            &&& outcome(t) == failure
            &&& d.request == RequestView::Finish { result: failure }
            &&& run(t, later) == t
            &&& forall|i: int|
                0 <= i < later.len() ==> (#[trigger] directives(t, later)[i]).request
                    == RequestView::Finish { result: failure }
        }),
{
    let t = next(s, EventView::Probed { present: false }).0;
    law_finished_attempt_stays(t, later);
}

/// How far an attempt has come: the phases in the order in which a successful
/// attempt passes them. A failed attempt has come nowhere.
spec fn progress(phase: Phase) -> int {
    match phase {
        Phase::Failed => -1,
        Phase::LocatingHost => 0,
        Phase::CreatingLogsDir => 1,
        Phase::ResolvingBackend => 2,
        Phase::ProbingBackend => 3,
        Phase::ResolvingResourceDir => 4,
        Phase::CreatingStdoutLog => 5,
        Phase::CreatingStderrLog => 6,
        Phase::MarkingExecutable => 7,
        Phase::Spawning => 8,
        Phase::WarmingUp => 9,
        Phase::Succeeded => 10,
    }
}

/// Among the first `n` reports of `events` there is `e`, given while the
/// attempt was in `phase`.
spec fn reported_before(
    s: SupervisorView,
    events: Seq<EventView>,
    n: int,
    phase: Phase,
    e: EventView,
) -> bool {
    exists|j: int| j < n && #[trigger] reported_in(s, events, j, phase, e)
}

/// An attempt that has come past `phase` after `n` reports was given `e` there.
spec fn passed_with(
    s: SupervisorView,
    events: Seq<EventView>,
    n: int,
    phase: Phase,
    e: EventView,
) -> bool {
    progress(run(s, events.take(n)).phase) > progress(phase) ==> reported_before(
        s,
        events,
        n,
        phase,
        e,
    )
}

/// An attempt gets past the logs directory, the probe and the two output
/// files only with the report that each of them asks for.
proof fn lemma_passed_with(s: SupervisorView, events: Seq<EventView>, n: int)
    requires
        s.phase == Phase::LocatingHost,
        0 <= n <= events.len(),
    ensures
        passed_with(s, events, n, Phase::CreatingLogsDir, EventView::Completed),
        passed_with(s, events, n, Phase::ProbingBackend, EventView::Probed { present: true }),
        passed_with(s, events, n, Phase::CreatingStdoutLog, EventView::Completed),
        passed_with(s, events, n, Phase::CreatingStderrLog, EventView::Completed),
    decreases n,
{
    if n == 0 {
        assert(events.take(0) =~= Seq::<EventView>::empty());
    } else {
        lemma_passed_with(s, events, n - 1);
        let before = run(s, events.take(n - 1));
        let e = events[n - 1];
        assert(events.take(n).drop_last() =~= events.take(n - 1));
        assert(run(s, events.take(n)) == next(before, e).0);
        lemma_reported_step(s, events, n, Phase::CreatingLogsDir, EventView::Completed);
        lemma_reported_step(s, events, n, Phase::ProbingBackend, EventView::Probed { present: true });
        lemma_reported_step(s, events, n, Phase::CreatingStdoutLog, EventView::Completed);
        lemma_reported_step(s, events, n, Phase::CreatingStderrLog, EventView::Completed);
    }
}

/// What was reported among the first `n - 1` reports was reported among the
/// first `n`, and so was report `n - 1` itself.
proof fn lemma_reported_step(
    s: SupervisorView,
    events: Seq<EventView>,
    n: int,
    phase: Phase,
    e: EventView,
)
    requires
        0 < n <= events.len(),
    ensures
        reported_before(s, events, n - 1, phase, e) ==> reported_before(s, events, n, phase, e),
        run(s, events.take(n - 1)).phase == phase && events[n - 1] == e ==> reported_before(
            s,
            events,
            n,
            phase,
            e,
        ),
{
    if reported_before(s, events, n - 1, phase, e) {
        let j = choose|j: int| j < n - 1 && #[trigger] reported_in(s, events, j, phase, e);
        assert(j < n && reported_in(s, events, j, phase, e));
    }
    if run(s, events.take(n - 1)).phase == phase && events[n - 1] == e {
        assert(reported_in(s, events, n - 1, phase, e));
    }
}

/// Among the first `n` states of the attempt there is one in `phase`.
spec fn was_in_before(s: SupervisorView, events: Seq<EventView>, n: int, phase: Phase) -> bool {
    exists|j: int| 0 <= j < n && (#[trigger] run(s, events.take(j))).phase == phase
}

/// Where the platform wants the backend marked executable, an attempt gets to
/// the spawn only through the phase in which the host is asked to mark it.
proof fn lemma_marked_before_spawn(s: SupervisorView, events: Seq<EventView>, n: int)
    requires
        s.phase == Phase::LocatingHost,
        0 <= n <= events.len(),
    ensures
        run(s, events.take(n)).needs_exec_bit == s.needs_exec_bit,
        s.needs_exec_bit && progress(run(s, events.take(n)).phase) > progress(
            Phase::MarkingExecutable,
        ) ==> was_in_before(s, events, n, Phase::MarkingExecutable),
    decreases n,
{
    if n == 0 {
        assert(events.take(0) =~= Seq::<EventView>::empty());
    } else {
        lemma_marked_before_spawn(s, events, n - 1);
        let before = run(s, events.take(n - 1));
        assert(events.take(n).drop_last() =~= events.take(n - 1));
        assert(run(s, events.take(n)) == next(before, events[n - 1]).0);
        if was_in_before(s, events, n - 1, Phase::MarkingExecutable) {
            let j = choose|j: int|
                0 <= j < n - 1 && (#[trigger] run(s, events.take(j))).phase
                    == Phase::MarkingExecutable;
            assert(0 <= j < n && run(s, events.take(j)).phase == Phase::MarkingExecutable);
        }
        if before.phase == Phase::MarkingExecutable {
            assert(0 <= n - 1 < n && run(s, events.take(n - 1)).phase
                == Phase::MarkingExecutable);
        }
    }
}

/// A spawn is asked for only after the preparations: in every attempt, a
/// directive that asks the host to spawn comes after a report that the logs
/// directory was created, one that the backend is on disk, and one for each of
/// the two output files that it was created, each given when it was asked for.
/// Where the platform wants the backend marked executable, the host was asked
/// to mark it before.
pub proof fn law_spawn_follows_preparation(
    needs_exec_bit: bool,
    events: Seq<EventView>,
    k: int,
)
    requires
        0 <= k < events.len(),
        directives(start(needs_exec_bit), events)[k].request is Spawn,
    ensures
        exists|j: int|
            j <= k && #[trigger] reported_in(
                start(needs_exec_bit),
                events,
                j,
                Phase::CreatingLogsDir,
                EventView::Completed,
            ),
        exists|j: int|
            j <= k && #[trigger] reported_in(
                start(needs_exec_bit),
                events,
                j,
                Phase::ProbingBackend,
                EventView::Probed { present: true },
            ),
        exists|j: int|
            j <= k && #[trigger] reported_in(
                start(needs_exec_bit),
                events,
                j,
                Phase::CreatingStdoutLog,
                EventView::Completed,
            ),
        exists|j: int|
            j <= k && #[trigger] reported_in(
                start(needs_exec_bit),
                events,
                j,
                Phase::CreatingStderrLog,
                EventView::Completed,
            ),
        needs_exec_bit ==> exists|j: int|
            0 <= j <= k && (#[trigger] run(start(needs_exec_bit), events.take(j))).phase
                == Phase::MarkingExecutable,
{
    let s = start(needs_exec_bit);
    lemma_directive_at(s, events, k);
    let before = run(s, events.take(k));
    lemma_marked_before_spawn(s, events, k + 1);
    assert(events.take(k + 1).drop_last() =~= events.take(k));
    assert(run(s, events.take(k + 1)) == next(before, events[k]).0);
    law_directive_asks_pending(before, events[k]);
    assert(run(s, events.take(k + 1)).phase == Phase::Spawning);
    lemma_passed_with(s, events, k + 1);
    assert(reported_before(s, events, k + 1, Phase::CreatingLogsDir, EventView::Completed));
    assert(reported_before(
        s,
        events,
        k + 1,
        Phase::ProbingBackend,
        EventView::Probed { present: true },
    ));
    assert(reported_before(s, events, k + 1, Phase::CreatingStdoutLog, EventView::Completed));
    assert(reported_before(s, events, k + 1, Phase::CreatingStderrLog, EventView::Completed));
    if needs_exec_bit {
        assert(was_in_before(s, events, k + 1, Phase::MarkingExecutable));
        let j = choose|j: int|
            0 <= j < k + 1 && (#[trigger] run(s, events.take(j))).phase
                == Phase::MarkingExecutable;
        assert(0 <= j <= k && run(s, events.take(j)).phase == Phase::MarkingExecutable);
    }
}

/// Logs that cannot be prepared end the attempt at the creation of the log
/// files: where the logs directory or one of the two output files cannot be
/// created, the host is asked for nothing but to hand the failure back, so no
/// spawn is asked for, whatever it reports afterwards.
pub proof fn law_unwritable_logs_end_attempt(
    s: SupervisorView,
    reason: Seq<char>,
    later: Seq<EventView>,
)
    requires
        s.phase == Phase::CreatingLogsDir || s.phase == Phase::CreatingStdoutLog || s.phase
            == Phase::CreatingStderrLog,
    ensures
        ({
            let (t, d) = next(s, EventView::Failed { reason });
            &&& t.phase == Phase::Failed
            &&& outcome(t) is Failure
            &&& outcome(t)->stage == Stage::LogFileCreation
            &&& d.request == RequestView::Finish { result: outcome(t) }
            &&& run(t, later) == t
            &&& forall|i: int|
                0 <= i < later.len() ==> (#[trigger] directives(t, later)[i]).request
                    == RequestView::Finish { result: outcome(t) }
        }),
{
    let t = next(s, EventView::Failed { reason }).0;
    law_finished_attempt_stays(t, later);
}

/// The reports of an attempt in which nothing fails: the host executable is at
/// `host_exe`, the backend resolves to `backend` and is on disk, the resources
/// are under `resources`, and the child gets the process id `pid`.
pub open spec fn smooth_reports(
    needs_exec_bit: bool,
    host_exe: Seq<char>,
    backend: Seq<char>,
    resources: Seq<char>,
    pid: u32,
) -> Seq<EventView> {
    let prepared = seq![
        EventView::Found { path: host_exe },
        EventView::Completed,
        EventView::Found { path: backend },
        EventView::Probed { present: true },
        EventView::Found { path: resources },
        EventView::Completed,
        EventView::Completed,
    ];
    let marked = if needs_exec_bit {
        prepared.push(EventView::Completed)
    } else {
        prepared
    };
    marked.push(EventView::Spawned { pid }).push(EventView::Completed)
}

/// The entries that an attempt in which nothing fails writes to the trace log.
pub open spec fn smooth_trace(
    needs_exec_bit: bool,
    logs_dir: Seq<char>,
    backend: Seq<char>,
    resources: Seq<char>,
) -> Seq<Seq<char>> {
    let prepared = seq![
        attempt_entry(),
        backend_path_entry_text(quoted_path(backend)),
        present_entry(),
        resource_entry_text(quoted_path(resources)),
        backend_log_entry_text(quoted_path(joined_path(logs_dir, stdout_log_name()))),
        files_ready_entry(),
    ];
    let marked = if needs_exec_bit {
        prepared.push(marked_entry())
    } else {
        prepared
    };
    marked.push(spawned_entry()).push(complete_entry())
}

/// The requests that follow the first one in an attempt in which nothing fails.
pub open spec fn smooth_requests(
    needs_exec_bit: bool,
    logs_dir: Seq<char>,
    backend: Seq<char>,
    resources: Seq<char>,
    pid: u32,
) -> Seq<RequestView> {
    let prepared = seq![
        RequestView::CreateLogsDir { path: logs_dir },
        RequestView::ResolveBackend { resource: backend_resource() },
        RequestView::ProbeBackend { path: backend },
        RequestView::ResolveResourceDir,
        RequestView::CreateLogFile {
            sink: Sink::Stdout,
            path: joined_path(logs_dir, stdout_log_name()),
        },
        RequestView::CreateLogFile {
            sink: Sink::Stderr,
            path: joined_path(logs_dir, stderr_log_name()),
        },
    ];
    let marked = if needs_exec_bit {
        prepared.push(RequestView::MarkExecutable { path: backend })
    } else {
        prepared
    };
    marked.push(
        RequestView::Spawn {
            launch: LaunchRequestView {
                backend_path: backend,
                resource_dir: resources,
                logs_dir,
            },
        },
    ).push(RequestView::WarmUp { seconds: warm_up_seconds() }).push(
        RequestView::Finish {
            result: LaunchResultView::Success { pid, backend_path: backend, logs_dir },
        },
    )
}

/// One more report adds the trace and the request of its directive to those of
/// the run.
proof fn lemma_step(s: SupervisorView, events: Seq<EventView>, e: EventView)
    ensures
        run(s, events.push(e)) == next(run(s, events), e).0,
        trace_of(directives(s, events.push(e))) == trace_of(directives(s, events)) + next(
            run(s, events),
            e,
        ).1.trace,
        requests_of(directives(s, events.push(e))) == requests_of(directives(s, events)).push(
            next(run(s, events), e).1.request,
        ),
{
    lemma_run_push(s, events, e);
    let ds = directives(s, events);
    let d = next(run(s, events), e).1;
    assert(ds.push(d).drop_last() =~= ds);
    assert(requests_of(ds.push(d)) =~= requests_of(ds).push(d.request));
}

/// An attempt in which nothing fails ends in success, with the backend that
/// was resolved and the logs directory beside the host executable. On the way
/// the host is asked, in this order and for nothing else: to create the logs
/// directory, to resolve and probe the backend, to resolve the resources, to
/// create the two output files, to mark the backend executable where the
/// platform wants it, to spawn, to wait, and to hand the result back. The trace
/// log gets one entry for each step, in the order of the steps.
pub proof fn law_smooth_attempt(
    needs_exec_bit: bool,
    host_exe: Seq<char>,
    backend: Seq<char>,
    resources: Seq<char>,
    pid: u32,
)
    requires
        logs_dir_of(host_exe) is Some,
    ensures
        ({
            let logs_dir = logs_dir_of(host_exe)->0;
            let events = smooth_reports(needs_exec_bit, host_exe, backend, resources, pid);
            let s = start(needs_exec_bit);
            &&& run(s, events).phase == Phase::Succeeded
            &&& outcome(run(s, events)) == LaunchResultView::Success {
                pid,
                backend_path: backend,
                logs_dir,
            }
            &&& requests_of(directives(s, events)) == smooth_requests(
                needs_exec_bit,
                logs_dir,
                backend,
                resources,
                pid,
            )
            &&& trace_of(directives(s, events)) == smooth_trace(
                needs_exec_bit,
                logs_dir,
                backend,
                resources,
            )
        }),
{
    let logs_dir = logs_dir_of(host_exe)->0;
    let s = start(needs_exec_bit);
    let e0 = Seq::<EventView>::empty();
    assert(trace_of(directives(s, e0)) =~= Seq::<Seq<char>>::empty());
    assert(requests_of(directives(s, e0)) =~= Seq::<RequestView>::empty());
    let e1 = e0.push(EventView::Found { path: host_exe });
    lemma_step(s, e0, EventView::Found { path: host_exe });
    let e2 = e1.push(EventView::Completed);
    lemma_step(s, e1, EventView::Completed);
    let e3 = e2.push(EventView::Found { path: backend });
    lemma_step(s, e2, EventView::Found { path: backend });
    let e4 = e3.push(EventView::Probed { present: true });
    lemma_step(s, e3, EventView::Probed { present: true });
    let e5 = e4.push(EventView::Found { path: resources });
    lemma_step(s, e4, EventView::Found { path: resources });
    let e6 = e5.push(EventView::Completed);
    lemma_step(s, e5, EventView::Completed);
    let e7 = e6.push(EventView::Completed);
    lemma_step(s, e6, EventView::Completed);
    let e8 = if needs_exec_bit {
        e7.push(EventView::Completed)
    } else {
        e7
    };
    if needs_exec_bit {
        lemma_step(s, e7, EventView::Completed);
    }
    assert(run(s, e8).phase == Phase::Spawning);
    let e9 = e8.push(EventView::Spawned { pid });
    lemma_step(s, e8, EventView::Spawned { pid });
    let e10 = e9.push(EventView::Completed);
    lemma_step(s, e9, EventView::Completed);
    assert(e10 =~= smooth_reports(needs_exec_bit, host_exe, backend, resources, pid));
    assert(requests_of(directives(s, e10)) =~= smooth_requests(
        needs_exec_bit,
        logs_dir,
        backend,
        resources,
        pid,
    ));
    assert(trace_of(directives(s, e10)) =~= smooth_trace(
        needs_exec_bit,
        logs_dir,
        backend,
        resources,
    ));
}

/// Attempts are independent: a new attempt begins in the same state whatever
/// the last one left behind, so the same reports lead it to the same state and
/// bring the same directives, the requests to create both output files anew
/// among them.
pub proof fn law_attempts_are_independent(
    left: SupervisorView,
    right: SupervisorView,
    events: Seq<EventView>,
)
    requires
        left.needs_exec_bit == right.needs_exec_bit,
    ensures
        start(left.needs_exec_bit) == start(right.needs_exec_bit),
        run(start(left.needs_exec_bit), events) == run(start(right.needs_exec_bit), events),
        directives(start(left.needs_exec_bit), events) == directives(
            start(right.needs_exec_bit),
            events,
        ),
{
}

/// Nothing is traced before there is a logs directory: in every attempt, a
/// directive with an entry for the trace log comes after the report that the
/// logs directory was created, given when it was asked for.
pub proof fn law_trace_follows_logs_dir(needs_exec_bit: bool, events: Seq<EventView>, k: int)
    requires
        0 <= k < events.len(),
        directives(start(needs_exec_bit), events)[k].trace.len() > 0,
    ensures
        exists|j: int|
            j <= k && #[trigger] reported_in(
                start(needs_exec_bit),
                events,
                j,
                Phase::CreatingLogsDir,
                EventView::Completed,
            ),
{
    let s = start(needs_exec_bit);
    lemma_directive_at(s, events, k);
    let before = run(s, events.take(k));
    lemma_passed_with(s, events, k);
    if before.phase == Phase::CreatingLogsDir {
        assert(events[k] == EventView::Completed);
        assert(reported_in(s, events, k, Phase::CreatingLogsDir, EventView::Completed));
    } else {
        assert(progress(before.phase) > progress(Phase::CreatingLogsDir));
        assert(reported_before(s, events, k, Phase::CreatingLogsDir, EventView::Completed));
    }
}

} // verus!
