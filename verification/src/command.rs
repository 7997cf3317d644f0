//! Pure construction of the external tool's invocations.
//!
//! Every argument list the orchestrator hands to the sync binary is built
//! here, with no side effects, and pinned down exactly by `spec` functions.

use vstd::prelude::*;
use vstd::string::StringExecFns;
use crate::config::{SyncConfig, SyncMode};

verus! {

/// The combined remote location `<remote_name>:<remote_path>`.
pub open spec fn spec_remote_arg(remote_name: Seq<char>, remote_path: Seq<char>) -> Seq<char> {
    remote_name + ":"@ + remote_path
}

/// The mode-dependent prefix of the invocation: subcommand, source and
/// destination, and for bidirectional runs the unconditional baseline flag.
pub open spec fn spec_mode_args(c: SyncConfig) -> Seq<Seq<char>> {
    let remote = spec_remote_arg(c.remote_name@, c.remote_path@);
    match c.sync_mode {
        SyncMode::Push => seq!["sync"@, c.local_path@, remote],
        SyncMode::Pull => seq!["sync"@, remote, c.local_path@],
        SyncMode::Bisync => seq!["bisync"@, c.local_path@, remote, "--resync"@],
    }
}

/// The flags common to every mode: progress reporting, verbose logging,
/// and checksum-based comparison.
pub open spec fn spec_common_flags() -> Seq<Seq<char>> {
    seq!["--progress"@, "--verbose"@, "--checksum"@]
}

/// One `--exclude <pattern>` pair per exclusion, in input order.
pub open spec fn spec_exclude_args(patterns: Seq<Seq<char>>) -> Seq<Seq<char>>
    decreases patterns.len(),
{
    if patterns.len() == 0 {
        seq![]
    } else {
        seq!["--exclude"@, patterns[0]] + spec_exclude_args(patterns.drop_first())
    }
}

/// The complete argument list for one synchronization run.
pub open spec fn spec_sync_args(c: SyncConfig) -> Seq<Seq<char>> {
    spec_mode_args(c) + spec_common_flags() + spec_exclude_args(c.exclude_patterns.deep_view())
}

proof fn lemma_exclude_args_take_succ(patterns: Seq<Seq<char>>, i: int)
    requires
        0 <= i < patterns.len(),
    ensures
        spec_exclude_args(patterns.take(i + 1))
            == spec_exclude_args(patterns.take(i)) + seq!["--exclude"@, patterns[i]],
    decreases i,
{
    if i == 0 {
        assert(patterns.take(1) =~= seq![patterns[0]]);
        assert(patterns.take(1).drop_first() =~= Seq::<Seq<char>>::empty());
        assert(patterns.take(0) =~= Seq::<Seq<char>>::empty());
        assert(spec_exclude_args(patterns.take(1))
            =~= spec_exclude_args(patterns.take(0)) + seq!["--exclude"@, patterns[0]]);
    } else {
        let rest = patterns.drop_first();
        lemma_exclude_args_take_succ(rest, i - 1);
        assert(patterns.take(i + 1).drop_first() =~= rest.take(i));
        assert(patterns.take(i).drop_first() =~= rest.take(i - 1));
        assert(patterns.take(i + 1)[0] == patterns[0]);
        assert(patterns.take(i)[0] == patterns[0]);
        assert(rest[i - 1] == patterns[i]);
        assert(spec_exclude_args(patterns.take(i + 1))
            == seq!["--exclude"@, patterns[0]] + spec_exclude_args(rest.take(i)));
        assert(spec_exclude_args(patterns.take(i))
            == seq!["--exclude"@, patterns[0]] + spec_exclude_args(rest.take(i - 1)));
        assert(spec_exclude_args(patterns.take(i + 1))
            =~= spec_exclude_args(patterns.take(i)) + seq!["--exclude"@, patterns[i]]);
    }
}

/// Builds the argument `<remote_name>:<remote_path>`.
pub fn remote_arg(remote_name: &String, remote_path: &String) -> (r: String)
    ensures
        r@ == spec_remote_arg(remote_name@, remote_path@),
{
    let mut s = remote_name.clone();
    s.append(":");
    s.append(remote_path.as_str());
    s
}

/// Builds the complete argument list for one synchronization run from its
/// configuration. Pure: inspects nothing but the configuration.
pub fn build_sync_args(config: &SyncConfig) -> (args: Vec<String>)
    ensures
        args.deep_view() == spec_sync_args(*config),
{
    let mut args: Vec<String> = Vec::new();
    let remote = remote_arg(&config.remote_name, &config.remote_path);

    match config.sync_mode {
        SyncMode::Push => {
            args.push("sync".to_owned());
            args.push(config.local_path.clone());
            args.push(remote);
        },
        SyncMode::Pull => {
            args.push("sync".to_owned());
            args.push(remote);
            args.push(config.local_path.clone());
        },
        SyncMode::Bisync => {
            args.push("bisync".to_owned());
            args.push(config.local_path.clone());
            args.push(remote);
            args.push("--resync".to_owned());
        },
    }
    args.push("--progress".to_owned());
    args.push("--verbose".to_owned());
    args.push("--checksum".to_owned());

    proof {
        assert(args.deep_view() =~= spec_mode_args(*config) + spec_common_flags());
    }

    let patterns = &config.exclude_patterns;
    let ghost all = patterns.deep_view();
    let mut i: usize = 0;
    while i < patterns.len()
        invariant
            0 <= i <= patterns.len(),
            all == patterns.deep_view(),
            all.len() == patterns.len(),
            args.deep_view() == spec_mode_args(*config) + spec_common_flags()
                + spec_exclude_args(all.take(i as int)),
        decreases patterns.len() - i,
    {
        args.push("--exclude".to_owned());
        args.push(patterns[i].clone());
        proof {
            lemma_exclude_args_take_succ(all, i as int);
            let base = spec_mode_args(*config) + spec_common_flags();
            let prev = base + spec_exclude_args(all.take(i as int));
            assert(args.deep_view() =~= prev + seq!["--exclude"@, all[i as int]]);
            assert(args.deep_view() =~= base + spec_exclude_args(all.take(i as int + 1)));
        }
        i = i + 1;
    }
    proof {
        assert(all.take(all.len() as int) =~= all);
    }
    args
}

/// Every bidirectional invocation carries the `--resync` baseline flag,
/// whatever the rest of the configuration and whatever ran before.
pub proof fn lemma_bisync_always_resyncs(c: SyncConfig)
    requires
        c.sync_mode is Bisync,
    ensures
        spec_sync_args(c).contains("--resync"@),
{
    assert(spec_sync_args(c)[3] == "--resync"@);
}

/// The arguments that create an object-storage remote profile:
/// a MinIO-compatible S3 provider with private access control.
pub fn configure_create_args(
    remote_name: &String,
    endpoint: &String,
    access_key: &String,
    secret_key: &String,
) -> (args: Vec<String>)
    ensures
        args.deep_view() == seq![
            "config"@, "create"@, remote_name@, "s3"@,
            "provider"@, "Minio"@,
            "endpoint"@, endpoint@,
            "access_key_id"@, access_key@,
            "secret_access_key"@, secret_key@,
            "acl"@, "private"@,
        ],
{
    let mut args: Vec<String> = Vec::new();
    args.push("config".to_owned());
    args.push("create".to_owned());
    args.push(remote_name.clone());
    args.push("s3".to_owned());
    args.push("provider".to_owned());
    args.push("Minio".to_owned());
    args.push("endpoint".to_owned());
    args.push(endpoint.clone());
    args.push("access_key_id".to_owned());
    args.push(access_key.clone());
    args.push("secret_access_key".to_owned());
    args.push(secret_key.clone());
    args.push("acl".to_owned());
    args.push("private".to_owned());
    proof {
        assert(args.deep_view() =~= seq![
            "config"@, "create"@, remote_name@, "s3"@,
            "provider"@, "Minio"@,
            "endpoint"@, endpoint@,
            "access_key_id"@, access_key@,
            "secret_access_key"@, secret_key@,
            "acl"@, "private"@,
        ]);
    }
    args
}

/// The arguments of the best-effort follow-up that records the default
/// bucket on an existing remote profile.
pub fn configure_update_args(remote_name: &String, bucket: &String) -> (args: Vec<String>)
    ensures
        args.deep_view() == seq!["config"@, "update"@, remote_name@, "bucket"@, bucket@],
{
    let mut args: Vec<String> = Vec::new();
    args.push("config".to_owned());
    args.push("update".to_owned());
    args.push(remote_name.clone());
    args.push("bucket".to_owned());
    args.push(bucket.clone());
    proof {
        assert(args.deep_view()
            =~= seq!["config"@, "update"@, remote_name@, "bucket"@, bucket@]);
    }
    args
}

/// The arguments of the version query used to probe for the tool.
pub fn version_args() -> (args: Vec<String>)
    ensures
        args.deep_view() == seq!["version"@],
{
    let mut args: Vec<String> = Vec::new();
    args.push("version".to_owned());
    proof {
        assert(args.deep_view() =~= seq!["version"@]);
    }
    args
}

/// The arguments of the remote-listing query.
pub fn list_remotes_args() -> (args: Vec<String>)
    ensures
        args.deep_view() == seq!["listremotes"@],
{
    let mut args: Vec<String> = Vec::new();
    args.push("listremotes".to_owned());
    proof {
        assert(args.deep_view() =~= seq!["listremotes"@]);
    }
    args
}

} // verus!
