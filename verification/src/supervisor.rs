//! The process supervisor: owner of the single live handle slot.
//!
//! The supervisor records which process, if any, the session owns; the host
//! keeps the operating-system handle beside it under the same lock. Every
//! operation's contract steps the slot exactly as the abstract session
//! model of [`crate::session`] prescribes, so the laws proved there hold of
//! this type.
//!
//! `start` and `stop` are split into a decision step and the host's I/O:
//! [`ProcessSupervisor::prepare_start`] refuses a second session and hands
//! the host the exact invocation; after the spawn attempt the host reports
//! back through [`ProcessSupervisor::commit_start`]. A stop first evicts
//! the slot ([`ProcessSupervisor::begin_stop`]) — so a concurrent monitor
//! iteration finds it empty and reports nothing — and only then signals the
//! process as the returned [`StopPlan`] directs.

use vstd::prelude::*;
use vstd::string::StringExecFns;
use crate::command::{build_sync_args, spec_sync_args};
use crate::config::SyncConfig;
use crate::errors::SyncError;
use crate::notify::{spec_terminal_notification, Notification};
use crate::numbers::{i64_to_dec, spec_idec};
use crate::session::{
    spec_emits_terminal, spec_step_running, spec_stop_succeeds, PollOutcome, SessionEvent,
};
use crate::status::{
    completed_status, error_status, idle_status, spec_wf_status, syncing_status, SyncStatus,
};

verus! {

broadcast use vstd::string::group_string_axioms;

/// The supervisor of the single synchronization process.
#[derive(Debug)]
pub struct ProcessSupervisor {
    pid: Option<u32>,
}

/// What the host directs a freshly prepared start to do: ensure the local
/// directory exists, then spawn the tool with exactly these arguments,
/// capturing its standard output and standard error.
#[derive(Debug)]
pub struct StartPlan {
    pub local_path: String,
    pub args: Vec<String>,
}

/// How the host's spawn attempt ended.
#[derive(Debug, Clone, PartialEq, Eq)]
pub enum SpawnOutcome {
    /// The process is running under this identifier.
    Spawned(u32),
    /// The executable could not be located.
    BinaryMissing,
    /// The launch failed for another reason, described by the host.
    LaunchFailed(String),
    /// The local directory could not be created, for the reason described.
    DirectoryFailed(String),
}

/// What the host must do to terminate an evicted process: send a graceful
/// termination signal, wait the grace period, then unconditionally kill and
/// wait for exit. Killing an already-dead process is not an error.
#[derive(Debug, Clone, Copy, PartialEq, Eq, Structural)]
pub struct StopPlan {
    pub pid: u32,
    pub grace_ms: u64,
}

/// One monitor decision: what to notify, and whether to keep polling.
#[derive(Debug, Clone)]
pub struct MonitorStep {
    pub notify: Option<Notification>,
    pub continue_polling: bool,
}

/// The message recorded when the process exits with a failure status.
pub open spec fn spec_exit_code_message(code: Option<int>) -> Seq<char> {
    match code {
        Some(c) => "Exit code: "@ + spec_idec(c),
        None => "Exit code: unknown"@,
    }
}

/// Renders the exit-code failure message.
pub fn exit_code_message(code: Option<i32>) -> (s: String)
    ensures
        s@ == spec_exit_code_message(
            match code {
                Some(c) => Some(c as int),
                None => None::<int>,
            },
        ),
{
    match code {
        Some(c) => {
            let mut s = "Exit code: ".to_owned();
            s.append(i64_to_dec(c as i64).as_str());
            s
        },
        None => "Exit code: unknown".to_owned(),
    }
}

impl ProcessSupervisor {
    /// The process identifier in the slot, if one is held.
    pub closed spec fn spec_pid(&self) -> Option<u32> {
        self.pid
    }

    /// Whether the handle slot is occupied.
    pub open spec fn is_running(&self) -> bool {
        self.spec_pid() is Some
    }

    /// A supervisor with an empty slot: no session is live.
    pub fn new() -> (s: ProcessSupervisor)
        ensures
            !s.is_running(),
    {
        ProcessSupervisor { pid: None }
    }

    /// The identifier of the live process, or `None` when the slot is
    /// empty. A monitor iteration that finds no identifier terminates.
    pub fn current_pid(&self) -> (r: Option<u32>)
        ensures
            r == self.spec_pid(),
    {
        self.pid
    }

    /// A read-only status snapshot: `syncing` while the slot is occupied,
    /// `idle` otherwise. Mutates nothing and queries nothing outside.
    pub fn status(&self) -> (st: SyncStatus)
        ensures
            spec_wf_status(st),
            st.is_running == self.is_running(),
            self.is_running() ==> st.status@ == "syncing"@,
            !self.is_running() ==> st.status@ == "idle"@,
            st.last_sync is None,
            st.error is None,
    {
        if self.pid.is_some() {
            syncing_status()
        } else {
            idle_status()
        }
    }

    /// Decides a start request. A live session is refused with
    /// `AlreadyRunning`; otherwise the returned plan directs the host to
    /// ensure the local directory exists and spawn the tool with exactly
    /// the built argument list.
    pub fn prepare_start(&self, config: &SyncConfig) -> (r: Result<StartPlan, SyncError>)
        ensures
            (r is Err) == self.is_running(),
            r matches Err(e) ==> e is AlreadyRunning,
            r matches Ok(plan) ==> plan.local_path@ == config.local_path@
                && plan.args.deep_view() == spec_sync_args(*config),
    {
        if self.pid.is_some() {
            Err(SyncError::AlreadyRunning)
        } else {
            Ok(StartPlan { local_path: config.local_path.clone(), args: build_sync_args(config) })
        }
    }

    /// Records how the host's spawn attempt ended. A successful spawn
    /// occupies the slot and yields the immediate `syncing` snapshot — the
    /// call does not wait for completion. Every failure leaves the slot
    /// empty and is typed: a missing binary is `BinaryNotFound`, never a
    /// generic launch error.
    pub fn commit_start(&mut self, outcome: SpawnOutcome) -> (r: Result<SyncStatus, SyncError>)
        requires
            !old(self).is_running(),
        ensures
            final(self).is_running() == spec_step_running(
                old(self).is_running(),
                SessionEvent::StartRequest { spawn_ok: outcome is Spawned },
            ),
            (r is Ok) == outcome is Spawned,
            outcome matches SpawnOutcome::Spawned(pid) ==> final(self).spec_pid() == Some(pid)
                && (r matches Ok(st) && spec_wf_status(st) && st.status@ == "syncing"@
                && st.is_running && st.last_sync is None && st.error is None),
            outcome is BinaryMissing ==> (r matches Err(e) && e is BinaryNotFound),
            outcome matches SpawnOutcome::LaunchFailed(why) ==> r matches Err(e)
                && (e matches SyncError::SpawnError(m) && m@ == "Failed to start rclone: "@
                + why@),
            outcome matches SpawnOutcome::DirectoryFailed(why) ==> r matches Err(e)
                && (e matches SyncError::DirectoryError(m) && m@
                == "Failed to create local directory: "@ + why@),
    {
        match outcome {
            SpawnOutcome::Spawned(pid) => {
                self.pid = Some(pid);
                Ok(syncing_status())
            },
            SpawnOutcome::BinaryMissing => Err(SyncError::BinaryNotFound),
            SpawnOutcome::LaunchFailed(why) => {
                let mut m = "Failed to start rclone: ".to_owned();
                m.append(why.as_str());
                Err(SyncError::SpawnError(m))
            },
            SpawnOutcome::DirectoryFailed(why) => {
                let mut m = "Failed to create local directory: ".to_owned();
                m.append(why.as_str());
                Err(SyncError::DirectoryError(m))
            },
        }
    }

    /// Decides a stop request. With no live session it is refused with
    /// `NotRunning` and changes nothing. Otherwise the slot is evicted
    /// first — a concurrent monitor iteration will find it empty and report
    /// nothing — and the returned plan directs the host to terminate the
    /// evicted process: graceful signal, the fixed grace period, then an
    /// unconditional kill and wait.
    pub fn begin_stop(&mut self) -> (r: Result<StopPlan, SyncError>)
        ensures
            final(self).is_running() == spec_step_running(
                old(self).is_running(),
                SessionEvent::StopRequest,
            ),
            (r is Ok) == spec_stop_succeeds(old(self).is_running()),
            r matches Ok(plan) ==> Some(plan.pid) == old(self).spec_pid() && plan.grace_ms
                == 500,
            r is Err ==> (r matches Err(e) && e is NotRunning),
    {
        match self.pid {
            Some(pid) => {
                self.pid = None;
                Ok(StopPlan { pid, grace_ms: 500 })
            },
            None => Err(SyncError::NotRunning),
        }
    }

    /// One monitor iteration over a live slot, deciding on the host's poll
    /// observation. Exactly the terminal observations — exit, failure, or a
    /// failed poll — clear the slot, emit a terminal notification, and end
    /// the polling loop; a still-running process keeps the slot and emits a
    /// progress snapshot.
    pub fn monitor_step(&mut self, poll: PollOutcome) -> (step: MonitorStep)
        requires
            old(self).is_running(),
        ensures
            final(self).is_running() == spec_step_running(
                old(self).is_running(),
                SessionEvent::Poll(poll),
            ),
            step.continue_polling == final(self).is_running(),
            (step.notify matches Some(n) && spec_terminal_notification(n)) == spec_emits_terminal(
                old(self).is_running(),
                SessionEvent::Poll(poll),
            ),
            poll is StillRunning ==> final(self).spec_pid() == old(self).spec_pid()
                && (step.notify matches Some(n) && n matches Notification::Progress(st)
                && spec_wf_status(st) && st.status@ == "syncing"@ && st.error is None),
            poll is ExitedSuccess ==> (step.notify matches Some(n)
                && (n matches Notification::Completed(st) && spec_wf_status(st) && st.status@
                == "completed"@ && st.last_sync is Some && st.error is None)),
            poll matches PollOutcome::ExitedFailure(code) ==> (step.notify matches Some(n)
                && (n matches Notification::Error(st) && spec_wf_status(st) && st.status@
                == "error"@ && st.last_sync is Some && (st.error matches Some(m) && m@
                == spec_exit_code_message(
                match code {
                    Some(c) => Some(c as int),
                    None => None::<int>,
                },
            )))),
            poll matches PollOutcome::PollFailed(why) ==> (step.notify matches Some(n)
                && (n matches Notification::Error(st) && spec_wf_status(st) && st.status@
                == "error"@ && st.last_sync is Some && (st.error matches Some(m) && m@
                == "Process error: "@ + why@))),
    {
        match poll {
            PollOutcome::StillRunning => MonitorStep {
                notify: Some(Notification::Progress(syncing_status())),
                continue_polling: true,
            },
            PollOutcome::ExitedSuccess => {
                self.pid = None;
                MonitorStep {
                    notify: Some(Notification::Completed(completed_status())),
                    continue_polling: false,
                }
            },
            PollOutcome::ExitedFailure(code) => {
                self.pid = None;
                MonitorStep {
                    notify: Some(Notification::Error(error_status(exit_code_message(code)))),
                    continue_polling: false,
                }
            },
            PollOutcome::PollFailed(why) => {
                self.pid = None;
                let mut m = "Process error: ".to_owned();
                m.append(why.as_str());
                MonitorStep {
                    notify: Some(Notification::Error(error_status(m))),
                    continue_polling: false,
                }
            },
        }
    }
}

} // verus!
