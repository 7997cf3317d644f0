//! Error taxonomy of the orchestrator.
//!
//! Every failure of the core is reported through [`SyncError`]. Variants that
//! carry a `String` hold the complete human-readable message, assembled by
//! the function that produced the error; [`SyncError::message`] renders the
//! canonical text of every variant.

use vstd::prelude::*;

verus! {

/// One error of the synchronization core.
#[derive(Debug, Clone, PartialEq, Eq)]
pub enum SyncError {
    /// A `start` request arrived while a session was already live.
    AlreadyRunning,
    /// A `stop` request arrived with no live session.
    NotRunning,
    /// The external tool is absent; reported by the start path.
    BinaryNotFound,
    /// The external tool is absent; reported by the one-shot invocations.
    NotInstalled,
    /// The local directory could not be created.
    DirectoryError(String),
    /// The process could not be launched for a reason other than a missing binary.
    SpawnError(String),
    /// The monitor could not query the live process.
    PollError(String),
    /// A remote-profile invocation failed; carries the tool's own words.
    ConfigurationError(String),
}

/// The message text owed for each error variant.
pub open spec fn spec_message(e: SyncError) -> Seq<char> {
    match e {
        SyncError::AlreadyRunning => "Sync already running"@,
        SyncError::NotRunning => "No sync process running"@,
        SyncError::BinaryNotFound => "rclone not found. Please install rclone: https://rclone.org/install/"@,
        SyncError::NotInstalled => "rclone not installed"@,
        SyncError::DirectoryError(m) => m@,
        SyncError::SpawnError(m) => m@,
        SyncError::PollError(m) => m@,
        SyncError::ConfigurationError(m) => m@,
    }
}

impl SyncError {
    /// The human-readable message for this error.
    pub fn message(&self) -> (r: String)
        ensures
            r@ == spec_message(*self),
    {
        match self {
            SyncError::AlreadyRunning => "Sync already running".to_owned(),
            SyncError::NotRunning => "No sync process running".to_owned(),
            SyncError::BinaryNotFound => "rclone not found. Please install rclone: https://rclone.org/install/".to_owned(),
            SyncError::NotInstalled => "rclone not installed".to_owned(),
            SyncError::DirectoryError(m) => m.clone(),
            SyncError::SpawnError(m) => m.clone(),
            SyncError::PollError(m) => m.clone(),
            SyncError::ConfigurationError(m) => m.clone(),
        }
    }
}

} // verus!
