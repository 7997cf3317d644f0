//! Status snapshots reported to the caller.
//!
//! A [`SyncStatus`] is a point-in-time picture of the session. The file and
//! byte counters are placeholders of the current design and always zero, as
//! is the current-file field; `last_sync` is set exactly when a terminal
//! status is reached.

use vstd::prelude::*;
use crate::external::now_rfc3339;

verus! {

broadcast use vstd::string::group_string_axioms;

/// A point-in-time picture of the synchronization session.
#[derive(Debug, Clone)]
pub struct SyncStatus {
    pub status: String,
    pub is_running: bool,
    pub last_sync: Option<String>,
    pub files_synced: u64,
    pub bytes_transferred: u64,
    pub current_file: Option<String>,
    pub error: Option<String>,
}

/// Whether a status name is terminal: after it, no process handle exists.
pub open spec fn spec_terminal_name(name: Seq<char>) -> bool {
    name == "completed"@ || name == "stopped"@ || name == "error"@
}

/// The placeholder fields every snapshot carries: zero counters and no
/// current file.
pub open spec fn spec_placeholder_fields(s: SyncStatus) -> bool {
    s.files_synced == 0 && s.bytes_transferred == 0 && s.current_file is None
}

/// A well-formed snapshot: the running flag accompanies exactly the
/// `syncing` name, and a timestamp is recorded exactly on terminal names.
pub open spec fn spec_wf_status(s: SyncStatus) -> bool {
    &&& spec_placeholder_fields(s)
    &&& s.is_running <==> s.status@ == "syncing"@
    &&& spec_terminal_name(s.status@) <==> s.last_sync is Some
}

proof fn lemma_status_names_distinct()
    ensures
        !spec_terminal_name("idle"@),
        !spec_terminal_name("syncing"@),
        "idle"@ != "syncing"@,
        spec_terminal_name("completed"@),
        spec_terminal_name("stopped"@),
        spec_terminal_name("error"@),
        "completed"@ != "syncing"@,
        "stopped"@ != "syncing"@,
        "error"@ != "syncing"@,
{
    reveal_strlit("idle");
    reveal_strlit("syncing");
    reveal_strlit("completed");
    reveal_strlit("stopped");
    reveal_strlit("error");
    assert("idle"@.len() == 4);
    assert("syncing"@.len() == 7);
    assert("completed"@.len() == 9);
    assert("stopped"@.len() == 7);
    assert("error"@.len() == 5);
    assert("syncing"@[1] == 'y' && "stopped"@[1] == 't');
}

/// The snapshot of a session with no live process and no history.
pub fn idle_status() -> (s: SyncStatus)
    ensures
        spec_wf_status(s),
        s.status@ == "idle"@,
        !s.is_running,
        s.last_sync is None,
        s.error is None,
{
    proof {
        lemma_status_names_distinct();
    }
    SyncStatus {
        status: "idle".to_owned(),
        is_running: false,
        last_sync: None,
        files_synced: 0,
        bytes_transferred: 0,
        current_file: None,
        error: None,
    }
}

/// The snapshot of a live session.
pub fn syncing_status() -> (s: SyncStatus)
    ensures
        spec_wf_status(s),
        s.status@ == "syncing"@,
        s.is_running,
        s.last_sync is None,
        s.error is None,
{
    proof {
        lemma_status_names_distinct();
    }
    SyncStatus {
        status: "syncing".to_owned(),
        is_running: true,
        last_sync: None,
        files_synced: 0,
        bytes_transferred: 0,
        current_file: None,
        error: None,
    }
}

/// The terminal snapshot of a session ended by an explicit stop; the
/// timestamp records the moment of the call.
pub fn stopped_status() -> (s: SyncStatus)
    ensures
        spec_wf_status(s),
        s.status@ == "stopped"@,
        !s.is_running,
        s.last_sync is Some,
        s.error is None,
{
    proof {
        lemma_status_names_distinct();
    }
    SyncStatus {
        status: "stopped".to_owned(),
        is_running: false,
        last_sync: Some(now_rfc3339()),
        files_synced: 0,
        bytes_transferred: 0,
        current_file: None,
        error: None,
    }
}

/// The terminal snapshot of a session whose process exited successfully.
pub fn completed_status() -> (s: SyncStatus)
    ensures
        spec_wf_status(s),
        s.status@ == "completed"@,
        !s.is_running,
        s.last_sync is Some,
        s.error is None,
{
    proof {
        lemma_status_names_distinct();
    }
    SyncStatus {
        status: "completed".to_owned(),
        is_running: false,
        last_sync: Some(now_rfc3339()),
        files_synced: 0,
        bytes_transferred: 0,
        current_file: None,
        error: None,
    }
}

/// The terminal snapshot of a failed session, carrying the failure message.
pub fn error_status(message: String) -> (s: SyncStatus)
    ensures
        spec_wf_status(s),
        s.status@ == "error"@,
        !s.is_running,
        s.last_sync is Some,
        s.error matches Some(m) && m@ == message@,
{
    proof {
        lemma_status_names_distinct();
    }
    SyncStatus {
        status: "error".to_owned(),
        is_running: false,
        last_sync: Some(now_rfc3339()),
        files_synced: 0,
        bytes_transferred: 0,
        current_file: None,
        error: Some(message),
    }
}

} // verus!
