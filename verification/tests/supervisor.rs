use backend_launcher::model::Phase;
use backend_launcher::protocol::{
    Directive, Event, LaunchRequest, LaunchResult, Notice, NoticeKind, Request, Sink,
};
use backend_launcher::stage::Stage;
use backend_launcher::supervisor::Supervisor;

fn found(path: &str) -> Event {
    Event::Found { path: String::from(path) }
}

fn failed(reason: &str) -> Event {
    Event::Failed { reason: String::from(reason) }
}

fn entries(texts: &[&str]) -> Vec<String> {
    texts.iter().map(|t| String::from(*t)).collect()
}

fn error_notice(title: &str, message: &str) -> Option<Notice> {
    Some(Notice {
        kind: NoticeKind::Error,
        title: String::from(title),
        message: String::from(message),
    })
}

fn failure(stage: Stage, text: &str) -> LaunchResult {
    LaunchResult::Failure { stage, underlying_error: String::from(text) }
}

/// Gives the reports to a new supervisor and collects its directives.
fn drive(needs_exec_bit: bool, events: Vec<Event>) -> (Supervisor, Vec<Directive>) {
    let mut supervisor = Supervisor::new(needs_exec_bit);
    let mut directives = Vec::new();
    for event in events {
        directives.push(supervisor.advance(event));
    }
    (supervisor, directives)
}

/// The reports of an attempt that has come as far as the probe.
fn up_to_probe() -> Vec<Event> {
    vec![found("/opt/app/launcher"), Event::Completed, found("/opt/app/res/backend.exe")]
}

/// The reports of an attempt that has come as far as the spawn.
fn up_to_spawn() -> Vec<Event> {
    let mut events = up_to_probe();
    events.push(Event::Probed { present: true });
    events.push(found("/opt/app/res"));
    events.push(Event::Completed);
    events.push(Event::Completed);
    events
}

fn asks_for_spawn(directives: &[Directive]) -> bool {
    directives.iter().any(|d| matches!(d.request, Request::Spawn { .. }))
}

#[test]
fn a_new_supervisor_asks_for_the_host_executable() {
    let supervisor = Supervisor::new(false);
    assert_eq!(supervisor.pending(), Request::LocateHost);
    assert_eq!(supervisor.phase(), Phase::LocatingHost);
    assert!(!supervisor.is_finished());
    assert_eq!(supervisor.outcome(), None);
}

#[test]
fn missing_backend_fails_without_spawn() {
    let mut events = up_to_probe();
    events.push(Event::Probed { present: false });
    let (supervisor, directives) = drive(false, events);
    let expected = failure(
        Stage::ExistenceCheck,
        "Backend.exe does not exist at path: \"/opt/app/res/backend.exe\"",
    );
    let last = directives.last().unwrap();
    assert_eq!(last.trace, entries(&["Backend.exe does not exist"]));
    assert_eq!(
        last.notice,
        error_notice(
            "Backend Missing",
            "Backend.exe does not exist at:\n\"/opt/app/res/backend.exe\"\n\nPlease rebuild the application.\n\nLogs location: \"/opt/app/logs\""
        )
    );
    assert_eq!(last.request, Request::Finish { result: expected.clone() });
    assert!(!asks_for_spawn(&directives));
    assert!(supervisor.is_finished());
    assert_eq!(supervisor.phase(), Phase::Failed);
    assert_eq!(supervisor.outcome(), Some(expected));
}

#[test]
fn missing_backend_stays_failed_whatever_follows() {
    let mut events = up_to_probe();
    events.push(Event::Probed { present: false });
    events.push(Event::Probed { present: true });
    events.push(found("/opt/app/res"));
    events.push(Event::Completed);
    events.push(Event::Completed);
    events.push(Event::Spawned { pid: 7 });
    let (supervisor, directives) = drive(true, events);
    assert!(!asks_for_spawn(&directives));
    let expected = failure(
        Stage::ExistenceCheck,
        "Backend.exe does not exist at path: \"/opt/app/res/backend.exe\"",
    );
    for directive in &directives[4..] {
        assert_eq!(
            *directive,
            Directive {
                trace: Vec::new(),
                notice: None,
                request: Request::Finish { result: expected.clone() },
            }
        );
    }
    assert_eq!(supervisor.outcome(), Some(expected));
}

#[test]
fn unwritable_logs_dir_fails_at_log_file_creation() {
    let events = vec![found("/opt/app/launcher"), failed("Permission denied (os error 13)")];
    let (supervisor, directives) = drive(false, events);
    assert_eq!(
        directives[0],
        Directive {
            trace: Vec::new(),
            notice: None,
            request: Request::CreateLogsDir { path: String::from("/opt/app/logs") },
        }
    );
    let expected = failure(
        Stage::LogFileCreation,
        "Failed to create logs directory: Permission denied (os error 13)",
    );
    assert_eq!(
        directives[1],
        Directive {
            trace: Vec::new(),
            notice: error_notice(
                "Backend Startup Error",
                "Failed to create logs directory:\nFailed to create logs directory: Permission denied (os error 13)"
            ),
            request: Request::Finish { result: expected.clone() },
        }
    );
    assert!(!asks_for_spawn(&directives));
    assert_eq!(supervisor.outcome(), Some(expected));
}

#[test]
fn unknown_host_executable_fails_at_log_file_creation() {
    let (supervisor, directives) = drive(false, vec![failed("no such process")]);
    let expected = failure(Stage::LogFileCreation, "Failed to get exe path: no such process");
    assert_eq!(
        directives[0],
        Directive {
            trace: Vec::new(),
            notice: error_notice(
                "Backend Startup Error",
                "Failed to create logs directory:\nFailed to get exe path: no such process"
            ),
            request: Request::Finish { result: expected.clone() },
        }
    );
    assert_eq!(supervisor.outcome(), Some(expected));
}

#[test]
fn host_executable_without_parent_fails_at_log_file_creation() {
    let (supervisor, directives) = drive(false, vec![found("/")]);
    let expected = failure(Stage::LogFileCreation, "Failed to get exe directory");
    assert_eq!(
        directives[0],
        Directive {
            trace: Vec::new(),
            notice: error_notice(
                "Backend Startup Error",
                "Failed to create logs directory:\nFailed to get exe directory"
            ),
            request: Request::Finish { result: expected.clone() },
        }
    );
    assert_eq!(supervisor.outcome(), Some(expected));
}

#[test]
fn unresolved_backend_fails_at_path_resolution() {
    let events = vec![found("/opt/app/launcher"), Event::Completed, failed("unknown path")];
    let (supervisor, directives) = drive(false, events);
    assert_eq!(
        directives[1],
        Directive {
            trace: entries(&["=== Backend Startup Attempt ==="]),
            notice: None,
            request: Request::ResolveBackend {
                resource: String::from("_up_/backend/dist/backend.exe"),
            },
        }
    );
    let expected = failure(Stage::PathResolution, "Failed to resolve backend.exe: unknown path");
    assert_eq!(
        directives[2],
        Directive {
            trace: entries(&["Failed to resolve backend.exe: unknown path"]),
            notice: error_notice(
                "Backend Not Found",
                "Failed to find backend.exe in bundle:\nunknown path\n\nLogs location: \"/opt/app/logs\""
            ),
            request: Request::Finish { result: expected.clone() },
        }
    );
    assert!(!asks_for_spawn(&directives));
    assert_eq!(supervisor.outcome(), Some(expected));
}

#[test]
fn unresolved_resource_dir_fails_at_path_resolution() {
    let mut events = up_to_probe();
    events.push(Event::Probed { present: true });
    events.push(failed("no bundle"));
    let (supervisor, directives) = drive(false, events);
    let expected = failure(Stage::PathResolution, "Failed to get resource directory: no bundle");
    assert_eq!(
        directives[4],
        Directive {
            trace: entries(&["Failed to get resource directory: no bundle"]),
            notice: error_notice(
                "Path Resolution Error",
                "Failed to get resource directory:\nno bundle\n\nLogs location: \"/opt/app/logs\""
            ),
            request: Request::Finish { result: expected.clone() },
        }
    );
    assert!(!asks_for_spawn(&directives));
    assert_eq!(supervisor.outcome(), Some(expected));
}

#[test]
fn stdout_log_that_cannot_be_created_fails_at_log_file_creation() {
    let mut events = up_to_probe();
    events.push(Event::Probed { present: true });
    events.push(found("/opt/app/res"));
    events.push(failed("disk full"));
    let (supervisor, directives) = drive(false, events);
    assert_eq!(
        directives[4].request,
        Request::CreateLogFile {
            sink: Sink::Stdout,
            path: String::from("/opt/app/logs/backend.log"),
        }
    );
    let expected = failure(Stage::LogFileCreation, "Failed to create backend.log: disk full");
    assert_eq!(
        directives[5],
        Directive {
            trace: entries(&["Failed to create backend.log: disk full"]),
            notice: error_notice(
                "Log File Error",
                "Failed to create backend.log:\ndisk full\n\nLogs location: \"/opt/app/logs\""
            ),
            request: Request::Finish { result: expected.clone() },
        }
    );
    assert!(!asks_for_spawn(&directives));
    assert_eq!(supervisor.outcome(), Some(expected));
}

#[test]
fn stderr_log_that_cannot_be_created_fails_at_log_file_creation() {
    let mut events = up_to_probe();
    events.push(Event::Probed { present: true });
    events.push(found("/opt/app/res"));
    events.push(Event::Completed);
    events.push(failed("disk full"));
    let (supervisor, directives) = drive(true, events);
    assert_eq!(
        directives[5],
        Directive {
            trace: Vec::new(),
            notice: None,
            request: Request::CreateLogFile {
                sink: Sink::Stderr,
                path: String::from("/opt/app/logs/backend_error.log"),
            },
        }
    );
    let expected =
        failure(Stage::LogFileCreation, "Failed to create backend_error.log: disk full");
    assert_eq!(
        directives[6],
        Directive {
            trace: entries(&["Failed to create backend_error.log: disk full"]),
            notice: error_notice(
                "Log File Error",
                "Failed to create backend_error.log:\ndisk full\n\nLogs location: \"/opt/app/logs\""
            ),
            request: Request::Finish { result: expected.clone() },
        }
    );
    assert!(!asks_for_spawn(&directives));
    assert_eq!(supervisor.outcome(), Some(expected));
}

#[test]
fn failed_spawn_fails_at_spawn() {
    let mut events = up_to_spawn();
    events.push(failed("Exec format error (os error 8)"));
    let (supervisor, directives) = drive(false, events);
    let expected =
        failure(Stage::Spawn, "Failed to spawn backend: Exec format error (os error 8)");
    assert_eq!(
        directives[7],
        Directive {
            trace: entries(&["Failed to spawn: Exec format error (os error 8)"]),
            notice: error_notice(
                "Backend Spawn Failed",
                "Failed to spawn backend process:\nExec format error (os error 8)\n\nBackend path: \"/opt/app/res/backend.exe\"\nLogs location: \"/opt/app/logs\"\n\nCheck backend_error.log for details."
            ),
            request: Request::Finish { result: expected.clone() },
        }
    );
    assert_eq!(supervisor.phase(), Phase::Failed);
    assert_eq!(supervisor.outcome(), Some(expected));
}

#[test]
fn successful_launch_reports_paths_and_logs_dir() {
    let mut events = up_to_spawn();
    events.push(Event::Spawned { pid: 4711 });
    events.push(Event::Completed);
    let (supervisor, directives) = drive(false, events);
    let result = supervisor.outcome().unwrap();
    match &result {
        LaunchResult::Success { pid, backend_path, logs_dir } => {
            assert_eq!(*pid, 4711);
            assert!(!backend_path.is_empty());
            assert_eq!(backend_path, "/opt/app/res/backend.exe");
            assert_eq!(logs_dir, "/opt/app/logs");
        },
        LaunchResult::Failure { .. } => panic!("the attempt failed"),
    }
    assert_eq!(
        result.reply(),
        Ok(String::from(
            "Backend started from: \"/opt/app/res/backend.exe\"\nLogs: \"/opt/app/logs\""
        ))
    );
    assert_eq!(directives.last().unwrap().request, Request::Finish { result });
    assert_eq!(supervisor.phase(), Phase::Succeeded);
}

#[test]
fn successful_launch_asks_for_each_step_once_and_in_order() {
    let mut events = up_to_spawn();
    events.push(Event::Spawned { pid: 4711 });
    events.push(Event::Completed);
    let (_, directives) = drive(false, events);
    let requests: Vec<Request> = directives.iter().map(|d| d.request.clone()).collect();
    assert_eq!(
        requests,
        vec![
            Request::CreateLogsDir { path: String::from("/opt/app/logs") },
            Request::ResolveBackend { resource: String::from("_up_/backend/dist/backend.exe") },
            Request::ProbeBackend { path: String::from("/opt/app/res/backend.exe") },
            Request::ResolveResourceDir,
            Request::CreateLogFile {
                sink: Sink::Stdout,
                path: String::from("/opt/app/logs/backend.log"),
            },
            Request::CreateLogFile {
                sink: Sink::Stderr,
                path: String::from("/opt/app/logs/backend_error.log"),
            },
            Request::Spawn {
                launch: LaunchRequest {
                    backend_path: String::from("/opt/app/res/backend.exe"),
                    resource_dir: String::from("/opt/app/res"),
                    logs_dir: String::from("/opt/app/logs"),
                },
            },
            Request::WarmUp { seconds: 3 },
            Request::Finish {
                result: LaunchResult::Success {
                    pid: 4711,
                    backend_path: String::from("/opt/app/res/backend.exe"),
                    logs_dir: String::from("/opt/app/logs"),
                },
            },
        ]
    );
    let log_files =
        requests.iter().filter(|r| matches!(r, Request::CreateLogFile { .. })).count();
    assert_eq!(log_files, 2);
}

#[test]
fn successful_launch_traces_each_step_in_order() {
    let mut events = up_to_spawn();
    events.push(Event::Spawned { pid: 4711 });
    events.push(Event::Completed);
    let (_, directives) = drive(false, events);
    let trace: Vec<String> = directives.iter().flat_map(|d| d.trace.clone()).collect();
    assert_eq!(
        trace,
        entries(&[
            "=== Backend Startup Attempt ===",
            "Backend path: \"/opt/app/res/backend.exe\"",
            "Backend.exe exists, attempting to spawn...",
            "Resource directory: \"/opt/app/res\"",
            "Backend log: \"/opt/app/logs/backend.log\"",
            "Log files created, spawning process...",
            "Process spawned successfully",
            "Startup complete",
        ])
    );
}

#[test]
fn successful_launch_announces_the_backend() {
    let mut events = up_to_spawn();
    events.push(Event::Spawned { pid: 4711 });
    let (supervisor, directives) = drive(false, events);
    assert_eq!(
        directives[7],
        Directive {
            trace: entries(&["Process spawned successfully"]),
            notice: Some(Notice {
                kind: NoticeKind::Info,
                title: String::from("Backend Starting"),
                message: String::from(
                    "Backend process started successfully!\n\nBackend path: \"/opt/app/res/backend.exe\"\nLogs location: \"/opt/app/logs\"\n\nWaiting 3 seconds for initialization..."
                ),
            }),
            request: Request::WarmUp { seconds: 3 },
        }
    );
    assert_eq!(supervisor.phase(), Phase::WarmingUp);
    assert_eq!(supervisor.outcome(), None);
}

#[test]
fn exec_bit_is_set_before_the_spawn_where_it_matters() {
    let mut events = up_to_spawn();
    events.push(Event::Completed);
    events.push(Event::Spawned { pid: 9 });
    events.push(Event::Completed);
    let (supervisor, directives) = drive(true, events);
    assert_eq!(
        directives[6],
        Directive {
            trace: entries(&["Log files created, spawning process..."]),
            notice: None,
            request: Request::MarkExecutable { path: String::from("/opt/app/res/backend.exe") },
        }
    );
    assert_eq!(directives[7].trace, entries(&["Made backend executable (chmod +x)"]));
    assert!(matches!(directives[7].request, Request::Spawn { .. }));
    let trace: Vec<String> = directives.iter().flat_map(|d| d.trace.clone()).collect();
    assert_eq!(
        trace,
        entries(&[
            "=== Backend Startup Attempt ===",
            "Backend path: \"/opt/app/res/backend.exe\"",
            "Backend.exe exists, attempting to spawn...",
            "Resource directory: \"/opt/app/res\"",
            "Backend log: \"/opt/app/logs/backend.log\"",
            "Log files created, spawning process...",
            "Made backend executable (chmod +x)",
            "Process spawned successfully",
            "Startup complete",
        ])
    );
    assert_eq!(supervisor.phase(), Phase::Succeeded);
}

#[test]
fn exec_bit_failure_does_not_stop_the_attempt() {
    let mut events = up_to_spawn();
    events.push(failed("Operation not permitted (os error 1)"));
    let (supervisor, directives) = drive(true, events);
    assert_eq!(directives[7].trace, entries(&["Made backend executable (chmod +x)"]));
    assert_eq!(directives[7].notice, None);
    assert!(matches!(directives[7].request, Request::Spawn { .. }));
    assert_eq!(supervisor.phase(), Phase::Spawning);
}

#[test]
fn a_report_that_answers_nothing_is_asked_again() {
    let mut supervisor = Supervisor::new(false);
    let directive = supervisor.advance(Event::Spawned { pid: 1 });
    assert_eq!(
        directive,
        Directive { trace: Vec::new(), notice: None, request: Request::LocateHost }
    );
    assert_eq!(supervisor.phase(), Phase::LocatingHost);
    let (mut supervisor, _) = drive(false, up_to_probe());
    let directive = supervisor.advance(Event::Completed);
    assert_eq!(
        directive,
        Directive {
            trace: Vec::new(),
            notice: None,
            request: Request::ProbeBackend { path: String::from("/opt/app/res/backend.exe") },
        }
    );
    assert_eq!(supervisor.phase(), Phase::ProbingBackend);
}

#[test]
fn a_finished_attempt_hands_back_the_same_result() {
    let mut events = up_to_spawn();
    events.push(Event::Spawned { pid: 4711 });
    events.push(Event::Completed);
    let (mut supervisor, directives) = drive(false, events);
    let finish = directives.last().unwrap().request.clone();
    for event in [Event::Completed, failed("late"), Event::Probed { present: false }] {
        let directive = supervisor.advance(event);
        assert_eq!(directive, Directive { trace: Vec::new(), notice: None, request: finish.clone() });
    }
    assert_eq!(supervisor.phase(), Phase::Succeeded);
}

#[test]
fn repeated_attempts_are_independent() {
    let mut events = up_to_spawn();
    events.push(Event::Completed);
    events.push(Event::Spawned { pid: 4711 });
    events.push(Event::Completed);
    let (mut supervisor, first) = drive(true, events.clone());
    supervisor.restart();
    assert_eq!(supervisor.phase(), Phase::LocatingHost);
    assert_eq!(supervisor.pending(), Request::LocateHost);
    assert_eq!(supervisor.outcome(), None);
    let mut second = Vec::new();
    for event in events {
        second.push(supervisor.advance(event));
    }
    assert_eq!(first, second);
    let log_files =
        second.iter().filter(|d| matches!(d.request, Request::CreateLogFile { .. })).count();
    assert_eq!(log_files, 2);
}

#[test]
fn a_new_attempt_forgets_a_failure() {
    let mut events = up_to_probe();
    events.push(Event::Probed { present: false });
    let (mut supervisor, _) = drive(false, events);
    assert_eq!(supervisor.phase(), Phase::Failed);
    supervisor.restart();
    let mut events = up_to_spawn();
    events.push(Event::Spawned { pid: 12 });
    events.push(Event::Completed);
    for event in events {
        supervisor.advance(event);
    }
    assert_eq!(
        supervisor.outcome(),
        Some(LaunchResult::Success {
            pid: 12,
            backend_path: String::from("/opt/app/res/backend.exe"),
            logs_dir: String::from("/opt/app/logs"),
        })
    );
}

#[test]
fn trace_log_lies_in_the_logs_dir() {
    let (supervisor, _) = drive(false, vec![found("/opt/app/launcher")]);
    assert_eq!(supervisor.trace_log(), "/opt/app/logs/tauri_startup.log");
}

#[test]
fn paths_are_shown_with_escapes() {
    let events = vec![found("/opt/my \"app\"/launcher"), Event::Completed, found("/r/b\\e")];
    let (_, directives) = drive(false, events);
    assert_eq!(directives[0].request, Request::CreateLogsDir {
        path: String::from("/opt/my \"app\"/logs"),
    });
    assert_eq!(directives[2].trace, entries(&["Backend path: \"/r/b\\\\e\""]));
}
