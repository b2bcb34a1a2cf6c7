use backend_launcher::messages::{
    backend_log_entry, backend_path_entry, host_path_failure, log_file_failure, log_file_notice,
    logs_dir_failure, logs_dir_notice, missing_notice, missing_reply, resolve_failure,
    resolve_notice, resource_entry, resource_failure, resource_notice, spawn_failure_entry,
    spawn_failure_notice, spawn_failure_reply, spawned_notice, started_reply,
};

#[test]
fn host_path_failure_text() {
    assert_eq!(host_path_failure("denied"), "Failed to get exe path: denied");
}

#[test]
fn logs_dir_failure_text() {
    assert_eq!(
        logs_dir_failure("Permission denied (os error 13)"),
        "Failed to create logs directory: Permission denied (os error 13)"
    );
}

#[test]
fn logs_dir_notice_text() {
    assert_eq!(
        logs_dir_notice("Failed to get exe directory"),
        "Failed to create logs directory:\nFailed to get exe directory"
    );
}

#[test]
fn resolve_failure_text() {
    assert_eq!(resolve_failure("unknown path"), "Failed to resolve backend.exe: unknown path");
}

#[test]
fn resolve_notice_text() {
    assert_eq!(
        resolve_notice("unknown path", "\"/opt/app/logs\""),
        "Failed to find backend.exe in bundle:\nunknown path\n\nLogs location: \"/opt/app/logs\""
    );
}

#[test]
fn backend_path_entry_text() {
    assert_eq!(backend_path_entry("\"/r/backend.exe\""), "Backend path: \"/r/backend.exe\"");
}

#[test]
fn missing_notice_text() {
    assert_eq!(
        missing_notice("\"/r/backend.exe\"", "\"/opt/app/logs\""),
        "Backend.exe does not exist at:\n\"/r/backend.exe\"\n\nPlease rebuild the application.\n\nLogs location: \"/opt/app/logs\""
    );
}

#[test]
fn missing_reply_text() {
    assert_eq!(
        missing_reply("\"/r/backend.exe\""),
        "Backend.exe does not exist at path: \"/r/backend.exe\""
    );
}

#[test]
fn resource_failure_text() {
    assert_eq!(resource_failure("no bundle"), "Failed to get resource directory: no bundle");
}

#[test]
fn resource_notice_text() {
    assert_eq!(
        resource_notice("no bundle", "\"/l\""),
        "Failed to get resource directory:\nno bundle\n\nLogs location: \"/l\""
    );
}

#[test]
fn resource_entry_text() {
    assert_eq!(resource_entry("\"/r\""), "Resource directory: \"/r\"");
}

#[test]
fn backend_log_entry_text() {
    assert_eq!(backend_log_entry("\"/l/backend.log\""), "Backend log: \"/l/backend.log\"");
}

#[test]
fn log_file_failure_text() {
    assert_eq!(
        log_file_failure("backend.log", "disk full"),
        "Failed to create backend.log: disk full"
    );
    assert_eq!(
        log_file_failure("backend_error.log", "disk full"),
        "Failed to create backend_error.log: disk full"
    );
}

#[test]
fn log_file_notice_text() {
    assert_eq!(
        log_file_notice("backend_error.log", "disk full", "\"/l\""),
        "Failed to create backend_error.log:\ndisk full\n\nLogs location: \"/l\""
    );
}

#[test]
fn spawn_failure_entry_text() {
    assert_eq!(spawn_failure_entry("exec format error"), "Failed to spawn: exec format error");
}

#[test]
fn spawn_failure_notice_text() {
    assert_eq!(
        spawn_failure_notice("exec format error", "\"/r/backend.exe\"", "\"/l\""),
        "Failed to spawn backend process:\nexec format error\n\nBackend path: \"/r/backend.exe\"\nLogs location: \"/l\"\n\nCheck backend_error.log for details."
    );
}

#[test]
fn spawn_failure_reply_text() {
    assert_eq!(
        spawn_failure_reply("exec format error"),
        "Failed to spawn backend: exec format error"
    );
}

#[test]
fn spawned_notice_text() {
    assert_eq!(
        spawned_notice("\"/r/backend.exe\"", "\"/l\""),
        "Backend process started successfully!\n\nBackend path: \"/r/backend.exe\"\nLogs location: \"/l\"\n\nWaiting 3 seconds for initialization..."
    );
}

#[test]
fn started_reply_text() {
    assert_eq!(
        started_reply("\"/r/backend.exe\"", "\"/l\""),
        "Backend started from: \"/r/backend.exe\"\nLogs: \"/l\""
    );
}

#[test]
fn empty_parts_leave_the_fixed_text() {
    assert_eq!(resolve_failure(""), "Failed to resolve backend.exe: ");
    assert_eq!(started_reply("", ""), "Backend started from: \nLogs: ");
}
