//! Running modes and tray events of the desktop shell.
//!
//! The shell itself — tray icons, notifications, window plumbing — is host
//! territory; the library only owns the closed enumerations the shell
//! dispatches on, and the label each mode is reported under.

use vstd::prelude::*;

verus! {

/// The mode the application runs in.
#[derive(Debug, Clone, Copy, PartialEq, Eq, Structural)]
pub enum RunningMode {
    /// Headless: the tray icon is disabled.
    Server,
    /// Full desktop integration.
    Desktop,
    /// Minimal tray only.
    Client,
}

/// One user interaction with the tray icon.
#[derive(Debug, Clone, Copy, PartialEq, Eq, Structural)]
pub enum TrayEvent {
    Open,
    Settings,
    About,
    Quit,
}

/// The label each running mode is reported under.
pub open spec fn spec_mode_label(mode: RunningMode) -> Seq<char> {
    match mode {
        RunningMode::Server => "Server"@,
        RunningMode::Desktop => "Desktop"@,
        RunningMode::Client => "Client"@,
    }
}

/// Renders the label of a running mode.
pub fn mode_label(mode: RunningMode) -> (s: String)
    ensures
        s@ == spec_mode_label(mode),
{
    match mode {
        RunningMode::Server => "Server".to_owned(),
        RunningMode::Desktop => "Desktop".to_owned(),
        RunningMode::Client => "Client".to_owned(),
    }
}

} // verus!
