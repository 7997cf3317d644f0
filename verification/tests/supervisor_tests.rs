use botapp::config::{SyncConfig, SyncMode};
use botapp::errors::SyncError;
use botapp::notify::Notification;
use botapp::session::PollOutcome;
use botapp::supervisor::{exit_code_message, ProcessSupervisor, SpawnOutcome};

fn test_config() -> SyncConfig {
    SyncConfig {
        local_path: "/tmp/sync".to_string(),
        remote_name: "gbdrive".to_string(),
        remote_path: "/".to_string(),
        sync_mode: SyncMode::Push,
        exclude_patterns: vec![],
    }
}

#[test]
fn fresh_supervisor_is_idle() {
    let sup = ProcessSupervisor::new();
    let st = sup.status();
    assert_eq!(st.status, "idle");
    assert!(!st.is_running);
    assert_eq!(st.last_sync, None);
    assert_eq!(st.files_synced, 0);
    assert_eq!(st.bytes_transferred, 0);
    assert_eq!(st.current_file, None);
    assert_eq!(st.error, None);
    assert_eq!(sup.current_pid(), None);
}

#[test]
fn start_produces_plan_then_syncing() {
    let mut sup = ProcessSupervisor::new();
    let plan = sup.prepare_start(&test_config()).unwrap();
    assert_eq!(plan.local_path, "/tmp/sync");
    assert_eq!(plan.args[0], "sync");
    let st = sup.commit_start(SpawnOutcome::Spawned(42)).unwrap();
    assert_eq!(st.status, "syncing");
    assert!(st.is_running);
    assert_eq!(st.last_sync, None);
    assert_eq!(sup.current_pid(), Some(42));
}

#[test]
fn second_start_refused_while_running() {
    let mut sup = ProcessSupervisor::new();
    sup.prepare_start(&test_config()).unwrap();
    sup.commit_start(SpawnOutcome::Spawned(7)).unwrap();
    let second = sup.prepare_start(&test_config());
    assert_eq!(second.unwrap_err(), SyncError::AlreadyRunning);
    let st = sup.status();
    assert_eq!(st.status, "syncing");
}

#[test]
fn missing_binary_is_typed_not_generic() {
    let mut sup = ProcessSupervisor::new();
    sup.prepare_start(&test_config()).unwrap();
    let err = sup.commit_start(SpawnOutcome::BinaryMissing).unwrap_err();
    assert_eq!(err, SyncError::BinaryNotFound);
    assert_eq!(
        err.message(),
        "rclone not found. Please install rclone: https://rclone.org/install/"
    );
    assert!(!sup.status().is_running);
}

#[test]
fn launch_failure_carries_reason() {
    let mut sup = ProcessSupervisor::new();
    let err = sup.commit_start(SpawnOutcome::LaunchFailed("permission denied".to_string()));
    assert_eq!(
        err.unwrap_err(),
        SyncError::SpawnError("Failed to start rclone: permission denied".to_string())
    );
}

#[test]
fn directory_failure_carries_reason() {
    let mut sup = ProcessSupervisor::new();
    let err = sup.commit_start(SpawnOutcome::DirectoryFailed("read-only file system".to_string()));
    assert_eq!(
        err.unwrap_err(),
        SyncError::DirectoryError(
            "Failed to create local directory: read-only file system".to_string()
        )
    );
}

#[test]
fn stop_is_idempotent() {
    let mut sup = ProcessSupervisor::new();
    sup.commit_start(SpawnOutcome::Spawned(99)).unwrap();
    let plan = sup.begin_stop().unwrap();
    assert_eq!(plan.pid, 99);
    assert_eq!(plan.grace_ms, 500);
    assert_eq!(sup.current_pid(), None);
    let second = sup.begin_stop();
    assert_eq!(second.unwrap_err(), SyncError::NotRunning);
}

#[test]
fn stop_without_session_refused() {
    let mut sup = ProcessSupervisor::new();
    let err = sup.begin_stop().unwrap_err();
    assert_eq!(err, SyncError::NotRunning);
    assert_eq!(err.message(), "No sync process running");
}

#[test]
fn monitor_progress_keeps_session() {
    let mut sup = ProcessSupervisor::new();
    sup.commit_start(SpawnOutcome::Spawned(11)).unwrap();
    let step = sup.monitor_step(PollOutcome::StillRunning);
    assert!(step.continue_polling);
    match step.notify.unwrap() {
        Notification::Progress(st) => {
            assert_eq!(st.status, "syncing");
            assert!(st.is_running);
        },
        other => panic!("expected progress, got {:?}", other),
    }
    assert_eq!(sup.current_pid(), Some(11));
}

#[test]
fn monitor_reports_completion_and_clears_slot() {
    let mut sup = ProcessSupervisor::new();
    sup.commit_start(SpawnOutcome::Spawned(11)).unwrap();
    let step = sup.monitor_step(PollOutcome::ExitedSuccess);
    assert!(!step.continue_polling);
    let n = step.notify.unwrap();
    assert_eq!(n.event_name(), "sync_completed");
    match n {
        Notification::Completed(st) => {
            assert_eq!(st.status, "completed");
            assert!(!st.is_running);
            assert!(st.last_sync.is_some());
            assert_eq!(st.error, None);
        },
        other => panic!("expected completion, got {:?}", other),
    }
    assert_eq!(sup.current_pid(), None);
    assert_eq!(sup.begin_stop().unwrap_err(), SyncError::NotRunning);
}

#[test]
fn monitor_reports_failure_with_exit_code() {
    let mut sup = ProcessSupervisor::new();
    sup.commit_start(SpawnOutcome::Spawned(11)).unwrap();
    let step = sup.monitor_step(PollOutcome::ExitedFailure(Some(3)));
    let n = step.notify.unwrap();
    assert_eq!(n.event_name(), "sync_error");
    match n {
        Notification::Error(st) => {
            assert_eq!(st.status, "error");
            assert_eq!(st.error, Some("Exit code: 3".to_string()));
            assert!(st.last_sync.is_some());
        },
        other => panic!("expected error, got {:?}", other),
    }
    assert!(!step.continue_polling);
}

#[test]
fn monitor_reports_poll_failure() {
    let mut sup = ProcessSupervisor::new();
    sup.commit_start(SpawnOutcome::Spawned(11)).unwrap();
    let step = sup.monitor_step(PollOutcome::PollFailed("process table gone".to_string()));
    match step.notify.unwrap() {
        Notification::Error(st) => {
            assert_eq!(st.error, Some("Process error: process table gone".to_string()));
        },
        other => panic!("expected error, got {:?}", other),
    }
    assert_eq!(sup.current_pid(), None);
}

#[test]
fn exit_code_messages_exact() {
    assert_eq!(exit_code_message(Some(0)), "Exit code: 0");
    assert_eq!(exit_code_message(Some(3)), "Exit code: 3");
    assert_eq!(exit_code_message(Some(255)), "Exit code: 255");
    assert_eq!(exit_code_message(Some(-2)), "Exit code: -2");
    assert_eq!(exit_code_message(Some(i32::MIN)), "Exit code: -2147483648");
    assert_eq!(exit_code_message(None), "Exit code: unknown");
}

#[test]
fn notification_event_names() {
    let st = botapp::status::idle_status();
    assert_eq!(Notification::Started.event_name(), "sync_started");
    assert_eq!(Notification::Progress(st.clone()).event_name(), "sync_progress");
    assert_eq!(Notification::Completed(st.clone()).event_name(), "sync_completed");
    assert_eq!(Notification::Error(st).event_name(), "sync_error");
    assert!(Notification::Started.payload().is_none());
}

#[test]
fn terminal_snapshots_carry_timestamps() {
    let stopped = botapp::status::stopped_status();
    assert_eq!(stopped.status, "stopped");
    assert!(!stopped.is_running);
    let ts = stopped.last_sync.expect("stop must record a timestamp");
    assert!(chrono::DateTime::parse_from_rfc3339(&ts).is_ok());
    let completed = botapp::status::completed_status();
    assert!(completed.last_sync.is_some());
    let failed = botapp::status::error_status("boom".to_string());
    assert_eq!(failed.error, Some("boom".to_string()));
    assert!(failed.last_sync.is_some());
}
