use botapp::errors::SyncError;
use botapp::remote::{
    interpret_config_probe, interpret_list_probe, interpret_version_probe, CommandProbe,
};

fn ran(success: bool, stdout: &str, stderr: &str) -> CommandProbe {
    CommandProbe::Ran {
        success,
        stdout: stdout.to_string(),
        stderr: stderr.to_string(),
    }
}

#[test]
fn version_check_returns_first_line() {
    let probe = ran(true, "rclone v1.65.0\n- os/version: linux\n- go/version: go1.21\n", "");
    assert_eq!(interpret_version_probe(probe).unwrap(), "rclone v1.65.0");
}

#[test]
fn version_check_strips_carriage_return() {
    let probe = ran(true, "rclone v1.60.1\r\n- os/version: windows\r\n", "");
    assert_eq!(interpret_version_probe(probe).unwrap(), "rclone v1.60.1");
}

#[test]
fn version_check_without_newline() {
    assert_eq!(interpret_version_probe(ran(true, "rclone v1.64.2", "")).unwrap(), "rclone v1.64.2");
}

#[test]
fn version_check_empty_output_is_unknown() {
    assert_eq!(interpret_version_probe(ran(true, "", "")).unwrap(), "unknown");
}

#[test]
fn version_check_missing_binary_is_not_installed() {
    let err = interpret_version_probe(CommandProbe::NotFound).unwrap_err();
    assert_eq!(err, SyncError::NotInstalled);
    assert_eq!(err.message(), "rclone not installed");
}

#[test]
fn version_check_launch_failure_carries_reason() {
    let err = interpret_version_probe(CommandProbe::LaunchFailed("broken pipe".to_string()));
    assert_eq!(
        err.unwrap_err(),
        SyncError::SpawnError("Error checking rclone: broken pipe".to_string())
    );
}

#[test]
fn version_check_nonzero_exit_fails() {
    let err = interpret_version_probe(ran(false, "", "oops"));
    assert_eq!(err.unwrap_err(), SyncError::SpawnError("rclone check failed".to_string()));
}

#[test]
fn list_remotes_parses_lines() {
    let probe = ran(true, "gbdrive:\nbackup:\n", "");
    assert_eq!(interpret_list_probe(probe).unwrap(), vec!["gbdrive", "backup"]);
}

#[test]
fn list_remotes_drops_blank_lines_and_all_colons() {
    let probe = ran(true, "gbdrive:\n\n::\nother::\n", "");
    assert_eq!(interpret_list_probe(probe).unwrap(), vec!["gbdrive", "other"]);
}

#[test]
fn list_remotes_without_trailing_newline() {
    assert_eq!(interpret_list_probe(ran(true, "solo:", "")).unwrap(), vec!["solo"]);
}

#[test]
fn list_remotes_empty_output() {
    assert_eq!(interpret_list_probe(ran(true, "", "")).unwrap(), Vec::<String>::new());
}

#[test]
fn list_remotes_failure_is_typed() {
    let err = interpret_list_probe(ran(false, "", "denied"));
    assert_eq!(
        err.unwrap_err(),
        SyncError::ConfigurationError("Failed to list rclone remotes".to_string())
    );
    let missing = interpret_list_probe(CommandProbe::NotFound);
    assert_eq!(missing.unwrap_err(), SyncError::NotInstalled);
    let launch = interpret_list_probe(CommandProbe::LaunchFailed("io".to_string()));
    assert_eq!(
        launch.unwrap_err(),
        SyncError::SpawnError("Failed to list remotes: io".to_string())
    );
}

#[test]
fn configure_success() {
    assert_eq!(interpret_config_probe(ran(true, "", "")), Ok(()));
}

#[test]
fn configure_failure_surfaces_stderr() {
    let err = interpret_config_probe(ran(false, "", "bad endpoint"));
    assert_eq!(
        err.unwrap_err(),
        SyncError::ConfigurationError("rclone config failed: bad endpoint".to_string())
    );
}

#[test]
fn configure_missing_binary_is_not_installed() {
    assert_eq!(interpret_config_probe(CommandProbe::NotFound).unwrap_err(), SyncError::NotInstalled);
}

#[test]
fn configure_launch_failure_carries_reason() {
    let err = interpret_config_probe(CommandProbe::LaunchFailed("io error".to_string()));
    assert_eq!(
        err.unwrap_err(),
        SyncError::ConfigurationError("Failed to configure rclone: io error".to_string())
    );
}

#[test]
fn error_messages_exact() {
    assert_eq!(SyncError::AlreadyRunning.message(), "Sync already running");
    assert_eq!(SyncError::NotRunning.message(), "No sync process running");
    assert_eq!(SyncError::NotInstalled.message(), "rclone not installed");
    assert_eq!(SyncError::PollError("x".to_string()).message(), "x");
}
