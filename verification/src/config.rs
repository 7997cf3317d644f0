//! The immutable description of one synchronization request.

use vstd::prelude::*;
use vstd::string::StringExecFns;
use crate::external::home_dir_string;

verus! {

/// Direction of one synchronization run.
#[derive(Debug, Clone, Copy, PartialEq, Eq, Structural)]
pub enum SyncMode {
    /// Local changes pushed to the remote.
    Push,
    /// Remote changes pulled to the local directory.
    Pull,
    /// Bidirectional reconciliation of both change sets.
    Bisync,
}

/// One synchronization request: where to sync, in which direction, and what
/// to leave out. Immutable once constructed.
#[derive(Debug, Clone)]
pub struct SyncConfig {
    pub local_path: String,
    pub remote_name: String,
    pub remote_path: String,
    pub sync_mode: SyncMode,
    pub exclude_patterns: Vec<String>,
}

/// The sync directory derived from a home directory: `<home>/GeneralBots`,
/// or the literal `~/GeneralBots` when no home directory is known.
pub open spec fn spec_sync_folder(home: Option<Seq<char>>) -> Seq<char> {
    match home {
        Some(h) => h + "/GeneralBots"@,
        None => "~/GeneralBots"@,
    }
}

/// Builds the sync directory for a given home directory.
pub fn sync_folder_for_home(home: Option<String>) -> (r: String)
    ensures
        r@ == spec_sync_folder(match home {
            Some(h) => Some(h@),
            None => None,
        }),
{
    match home {
        Some(h) => {
            let mut s = h;
            s.append("/GeneralBots");
            s
        },
        None => "~/GeneralBots".to_owned(),
    }
}

/// The default sync directory of this machine. The exact value depends on
/// the environment; whatever home directory is reported, the result ends in
/// the fixed `/GeneralBots` component.
pub fn get_sync_folder() -> (r: String)
    ensures
        r@.len() >= 12,
        r@.subrange(r@.len() - 12, r@.len() as int) == "/GeneralBots"@,
{
    let home = home_dir_string();
    let r = sync_folder_for_home(home);
    proof {
        reveal_strlit("/GeneralBots");
        reveal_strlit("~/GeneralBots");
        assert(r@.subrange(r@.len() - 12, r@.len() as int) =~= "/GeneralBots"@);
    }
    r
}

/// The fixed default exclusion list: editor and OS litter, temporary files,
/// and version-control internals.
pub fn default_exclude_patterns() -> (v: Vec<String>)
    ensures
        v.deep_view() == seq![".DS_Store"@, "Thumbs.db"@, "*.tmp"@, ".git/**"@],
{
    let mut v: Vec<String> = Vec::new();
    v.push(".DS_Store".to_owned());
    v.push("Thumbs.db".to_owned());
    v.push("*.tmp".to_owned());
    v.push(".git/**".to_owned());
    proof {
        assert(v.deep_view() =~= seq![".DS_Store"@, "Thumbs.db"@, "*.tmp"@, ".git/**"@]);
    }
    v
}

impl Default for SyncConfig {
    /// The default request: the machine's sync folder pushed both ways to
    /// the `gbdrive` remote at its root, with the standard exclusions.
    fn default() -> (c: SyncConfig)
        ensures
            c.local_path@.len() >= 12,
            c.local_path@.subrange(c.local_path@.len() - 12, c.local_path@.len() as int)
                == "/GeneralBots"@,
            c.remote_name@ == "gbdrive"@,
            c.remote_path@ == "/"@,
            c.sync_mode is Bisync,
            c.exclude_patterns.deep_view()
                == seq![".DS_Store"@, "Thumbs.db"@, "*.tmp"@, ".git/**"@],
    {
        SyncConfig {
            local_path: get_sync_folder(),
            remote_name: "gbdrive".to_owned(),
            remote_path: "/".to_owned(),
            sync_mode: SyncMode::Bisync,
            exclude_patterns: default_exclude_patterns(),
        }
    }
}

} // verus!
