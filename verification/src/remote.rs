//! Interpretation of the one-shot configuration invocations.
//!
//! The host runs the external tool's `config`, `version` and `listremotes`
//! subcommands and reports each attempt as a [`CommandProbe`]; the
//! functions here decide, for every possible probe, the typed result the
//! caller is owed. A missing binary is always reported as the
//! missing-binary error, never as a generic launch failure.

use vstd::prelude::*;
use vstd::string::StringExecFns;
use crate::errors::SyncError;
use crate::text::{first_line, parse_remote_list, spec_first_line, spec_parse_remotes};

verus! {

/// How one subprocess invocation ended, as the host observed it.
#[derive(Debug, Clone, PartialEq, Eq)]
pub enum CommandProbe {
    /// The process ran to completion with this exit success flag and these
    /// captured output streams.
    Ran { success: bool, stdout: String, stderr: String },
    /// The executable could not be located.
    NotFound,
    /// The launch failed for another reason, described by the host.
    LaunchFailed(String),
}

/// Decides the result of the version query: the first line of its output
/// on success, `NotInstalled` when the binary cannot be located.
pub fn interpret_version_probe(probe: CommandProbe) -> (r: Result<String, SyncError>)
    ensures
        probe is NotFound ==> (r matches Err(e) && e is NotInstalled),
        probe matches CommandProbe::LaunchFailed(why) ==> (r matches Err(e) && (
        e matches SyncError::SpawnError(m) && m@ == "Error checking rclone: "@ + why@)),
        probe matches CommandProbe::Ran { success, stdout, .. } ==> ((success ==> (
        r matches Ok(line) && line@ == spec_first_line(stdout@))) && (!success ==> (
        r matches Err(e) && (e matches SyncError::SpawnError(m) && m@
        == "rclone check failed"@)))),
{
    match probe {
        CommandProbe::Ran { success, stdout, stderr: _ } => {
            if success {
                Ok(first_line(stdout.as_str()))
            } else {
                Err(SyncError::SpawnError("rclone check failed".to_owned()))
            }
        },
        CommandProbe::NotFound => Err(SyncError::NotInstalled),
        CommandProbe::LaunchFailed(why) => {
            let mut m = "Error checking rclone: ".to_owned();
            m.append(why.as_str());
            Err(SyncError::SpawnError(m))
        },
    }
}

/// Decides the result of the remote-profile creation: success exactly when
/// the invocation ran and exited successfully; a failed run surfaces the
/// tool's own standard error.
pub fn interpret_config_probe(probe: CommandProbe) -> (r: Result<(), SyncError>)
    ensures
        probe is NotFound ==> (r matches Err(e) && e is NotInstalled),
        probe matches CommandProbe::LaunchFailed(why) ==> (r matches Err(e) && (
        e matches SyncError::ConfigurationError(m) && m@ == "Failed to configure rclone: "@
        + why@)),
        probe matches CommandProbe::Ran { success, stderr, .. } ==> ((success ==> r is Ok) && (
        !success ==> (r matches Err(e) && (e matches SyncError::ConfigurationError(m) && m@
        == "rclone config failed: "@ + stderr@)))),
{
    match probe {
        CommandProbe::Ran { success, stdout: _, stderr } => {
            if success {
                Ok(())
            } else {
                let mut m = "rclone config failed: ".to_owned();
                m.append(stderr.as_str());
                Err(SyncError::ConfigurationError(m))
            }
        },
        CommandProbe::NotFound => Err(SyncError::NotInstalled),
        CommandProbe::LaunchFailed(why) => {
            let mut m = "Failed to configure rclone: ".to_owned();
            m.append(why.as_str());
            Err(SyncError::ConfigurationError(m))
        },
    }
}

/// Decides the result of the remote listing: each configured remote name
/// with its trailing separator stripped and blank entries removed, in the
/// order the tool printed them.
pub fn interpret_list_probe(probe: CommandProbe) -> (r: Result<Vec<String>, SyncError>)
    ensures
        probe is NotFound ==> (r matches Err(e) && e is NotInstalled),
        probe matches CommandProbe::LaunchFailed(why) ==> (r matches Err(e) && (
        e matches SyncError::SpawnError(m) && m@ == "Failed to list remotes: "@ + why@)),
        probe matches CommandProbe::Ran { success, stdout, .. } ==> ((success ==> (
        r matches Ok(remotes) && remotes.deep_view() == spec_parse_remotes(stdout@))) && (
        !success ==> (r matches Err(e) && (e matches SyncError::ConfigurationError(m) && m@
        == "Failed to list rclone remotes"@)))),
{
    match probe {
        CommandProbe::Ran { success, stdout, stderr: _ } => {
            if success {
                Ok(parse_remote_list(stdout.as_str()))
            } else {
                Err(SyncError::ConfigurationError("Failed to list rclone remotes".to_owned()))
            }
        },
        CommandProbe::NotFound => Err(SyncError::NotInstalled),
        CommandProbe::LaunchFailed(why) => {
            let mut m = "Failed to list remotes: ".to_owned();
            m.append(why.as_str());
            Err(SyncError::SpawnError(m))
        },
    }
}

} // verus!
