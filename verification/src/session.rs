//! The abstract lifecycle model of one synchronization session.
//!
//! The supervisor's state is, abstractly, one bit: whether the handle slot
//! is occupied. Every operation of the orchestrator is an event of this
//! model, and the executable operations promise in their contracts to step
//! the slot exactly as [`spec_step_running`] says. The laws at the end of
//! this file are therefore laws of the executable orchestrator: a live
//! session blocks every further start until a terminal transition, a stop
//! is owed success exactly once, and each session gets exactly one terminal
//! report, from exactly one of stop and the monitor.

use vstd::prelude::*;

verus! {

/// What one non-blocking poll of the live process observed.
#[derive(Debug, Clone, PartialEq, Eq)]
pub enum PollOutcome {
    /// The process exited with a success status.
    ExitedSuccess,
    /// The process exited with a failure status, carrying its exit code
    /// when the platform reports one.
    ExitedFailure(Option<i32>),
    /// The process is still running.
    StillRunning,
    /// The poll itself failed; the session is abandoned as failed.
    PollFailed(String),
}

/// One event in a session's lifetime, as the abstract model sees it.
pub enum SessionEvent {
    /// A start request; the flag tells whether the spawn itself succeeded.
    StartRequest { spawn_ok: bool },
    /// A stop request.
    StopRequest,
    /// One monitor iteration with its poll observation.
    Poll(PollOutcome),
}

/// Whether the handle slot is occupied after an event.
pub open spec fn spec_step_running(running: bool, ev: SessionEvent) -> bool {
    match ev {
        SessionEvent::StartRequest { spawn_ok } => running || spawn_ok,
        SessionEvent::StopRequest => false,
        SessionEvent::Poll(p) => running && p is StillRunning,
    }
}

/// Whether an event is a start that succeeds: only on an empty slot, and
/// only when the spawn itself succeeded.
pub open spec fn spec_start_succeeds(running: bool, ev: SessionEvent) -> bool {
    ev matches SessionEvent::StartRequest { spawn_ok } && !running && spawn_ok
}

/// Whether a stop request is owed success.
pub open spec fn spec_stop_succeeds(running: bool) -> bool {
    running
}

/// Whether an event reports the session's terminal status: a stop that
/// finds the slot occupied, or a monitor poll that finds it occupied and
/// observes anything but a still-running process.
pub open spec fn spec_emits_terminal(running: bool, ev: SessionEvent) -> bool {
    match ev {
        SessionEvent::StartRequest { .. } => false,
        SessionEvent::StopRequest => running,
        SessionEvent::Poll(p) => running && !(p is StillRunning),
    }
}

/// The slot state after a whole sequence of events.
pub open spec fn spec_run_events(running: bool, evs: Seq<SessionEvent>) -> bool
    decreases evs.len(),
{
    if evs.len() == 0 {
        running
    } else {
        spec_run_events(spec_step_running(running, evs[0]), evs.drop_first())
    }
}

/// How many starts succeed along a sequence of events.
pub open spec fn spec_count_starts(running: bool, evs: Seq<SessionEvent>) -> nat
    decreases evs.len(),
{
    if evs.len() == 0 {
        0
    } else {
        (if spec_start_succeeds(running, evs[0]) {
            1nat
        } else {
            0nat
        }) + spec_count_starts(spec_step_running(running, evs[0]), evs.drop_first())
    }
}

/// How many terminal reports are emitted along a sequence of events.
pub open spec fn spec_count_terminals(running: bool, evs: Seq<SessionEvent>) -> nat
    decreases evs.len(),
{
    if evs.len() == 0 {
        0
    } else {
        (if spec_emits_terminal(running, evs[0]) {
            1nat
        } else {
            0nat
        }) + spec_count_terminals(spec_step_running(running, evs[0]), evs.drop_first())
    }
}

/// Session accounting: over any sequence of events, sessions opened and
/// sessions terminally reported balance exactly, up to the one session that
/// may be live at either end. In particular a session never gets two
/// terminal reports, and a session that ends gets exactly one.
pub proof fn lemma_session_accounting(running: bool, evs: Seq<SessionEvent>)
    ensures
        spec_count_starts(running, evs) + (if running {
            1nat
        } else {
            0nat
        }) == spec_count_terminals(running, evs) + (if spec_run_events(running, evs) {
            1nat
        } else {
            0nat
        }),
    decreases evs.len(),
{
    if evs.len() > 0 {
        lemma_session_accounting(spec_step_running(running, evs[0]), evs.drop_first());
    }
}

/// Singleton execution: while a session is live and nothing terminal has
/// been reported, the slot stays occupied and no start can succeed —
/// however many starts are requested and however often the monitor finds
/// the process still running.
pub proof fn lemma_singleton(running: bool, evs: Seq<SessionEvent>)
    requires
        running,
        spec_count_terminals(running, evs) == 0,
    ensures
        spec_run_events(running, evs),
        spec_count_starts(running, evs) == 0,
    decreases evs.len(),
{
    if evs.len() > 0 {
        let next = spec_step_running(running, evs[0]);
        assert(!spec_emits_terminal(running, evs[0]));
        assert(next);
        assert(!spec_start_succeeds(running, evs[0]));
        lemma_singleton(next, evs.drop_first());
    }
}

/// A start that finds the slot occupied never succeeds.
pub proof fn lemma_start_refused_while_running(running: bool, ev: SessionEvent)
    requires
        running,
    ensures
        !spec_start_succeeds(running, ev),
{
}

/// Idempotent stop: on a live session the first stop is owed success and
/// reports the terminal status; it empties the slot, so an immediately
/// following stop is refused and reports nothing.
pub proof fn lemma_stop_idempotent(running: bool)
    requires
        running,
    ensures
        spec_stop_succeeds(running),
        spec_emits_terminal(running, SessionEvent::StopRequest),
        !spec_step_running(running, SessionEvent::StopRequest),
        !spec_stop_succeeds(spec_step_running(running, SessionEvent::StopRequest)),
        !spec_emits_terminal(
            spec_step_running(running, SessionEvent::StopRequest),
            SessionEvent::StopRequest,
        ),
{
}

/// Terminal authorship, stop first: once a stop has evicted the slot, no
/// monitor poll — whatever it observes — reports a terminal status.
pub proof fn lemma_stop_wins_monitor_silent(running: bool, poll: PollOutcome)
    requires
        running,
    ensures
        !spec_emits_terminal(
            spec_step_running(running, SessionEvent::StopRequest),
            SessionEvent::Poll(poll),
        ),
{
}

/// Terminal authorship, monitor first: once a monitor poll has reported a
/// terminal status, a following stop is refused.
pub proof fn lemma_monitor_wins_stop_refused(running: bool, poll: PollOutcome)
    requires
        running,
        !(poll is StillRunning),
    ensures
        spec_emits_terminal(running, SessionEvent::Poll(poll)),
        !spec_stop_succeeds(spec_step_running(running, SessionEvent::Poll(poll))),
{
}

/// A session that ends gets exactly one terminal report: for any event
/// sequence that starts nothing new and leaves the slot empty, precisely
/// one terminal status was reported.
pub proof fn lemma_exactly_one_terminal(running: bool, evs: Seq<SessionEvent>)
    requires
        running,
        spec_count_starts(running, evs) == 0,
        !spec_run_events(running, evs),
    ensures
        spec_count_terminals(running, evs) == 1,
{
    lemma_session_accounting(running, evs);
}

} // verus!
