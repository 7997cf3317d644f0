//! Lifecycle notifications pushed toward the caller's user-interface
//! boundary. Delivery is the host's concern and best-effort; the library
//! only decides which notification is owed and under which event name it
//! travels.

use vstd::prelude::*;
use crate::status::SyncStatus;

verus! {

/// One fire-and-forget lifecycle notification.
#[derive(Debug, Clone)]
pub enum Notification {
    /// A session was started; carries no payload.
    Started,
    /// The session is still running; carries a progress snapshot.
    Progress(SyncStatus),
    /// The session's process exited successfully; carries the final snapshot.
    Completed(SyncStatus),
    /// The session failed; carries the final snapshot with its message.
    Error(SyncStatus),
}

/// Whether a notification reports a terminal status.
pub open spec fn spec_terminal_notification(n: Notification) -> bool {
    n is Completed || n is Error
}

/// The event name each notification travels under.
pub open spec fn spec_event_name(n: Notification) -> Seq<char> {
    match n {
        Notification::Started => "sync_started"@,
        Notification::Progress(_) => "sync_progress"@,
        Notification::Completed(_) => "sync_completed"@,
        Notification::Error(_) => "sync_error"@,
    }
}

impl Notification {
    /// The name of the channel event this notification is emitted as.
    pub fn event_name(&self) -> (r: String)
        ensures
            r@ == spec_event_name(*self),
    {
        match self {
            Notification::Started => "sync_started".to_owned(),
            Notification::Progress(_) => "sync_progress".to_owned(),
            Notification::Completed(_) => "sync_completed".to_owned(),
            Notification::Error(_) => "sync_error".to_owned(),
        }
    }

    /// The status snapshot this notification carries, if any.
    pub fn payload(&self) -> (r: Option<&SyncStatus>)
        ensures
            match *self {
                Notification::Started => r is None,
                Notification::Progress(st) => r matches Some(p) && *p == st,
                Notification::Completed(st) => r matches Some(p) && *p == st,
                Notification::Error(st) => r matches Some(p) && *p == st,
            },
    {
        match self {
            Notification::Started => None,
            Notification::Progress(st) => Some(st),
            Notification::Completed(st) => Some(st),
            Notification::Error(st) => Some(st),
        }
    }
}

} // verus!
