//! Orchestration core for a desktop file-synchronization session.
//!
//! The library models the lifecycle of one external sync process: building
//! its invocation from a [`config::SyncConfig`], supervising the single live
//! process handle, interpreting the monitor's poll results, and parsing the
//! output of the tool's configuration subcommands. All filesystem and
//! subprocess work is left to the embedding application; the library states
//! and proves what each decision step does.

pub mod command;
pub mod config;
pub mod errors;
mod external;
pub mod modes;
pub mod notify;
pub mod numbers;
pub mod remote;
pub mod services;
pub mod session;
pub mod status;
pub mod supervisor;
pub mod text;

use vstd::prelude::*;

verus! {

/// A directory entry as reported to the user interface.
#[derive(Debug, Clone)]
pub struct FileItem {
    pub name: String,
    pub path: String,
    pub is_dir: bool,
    pub size: Option<u64>,
}

} // verus!
