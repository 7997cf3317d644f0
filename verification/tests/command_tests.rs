use botapp::command::{
    build_sync_args, configure_create_args, configure_update_args, list_remotes_args, remote_arg,
    version_args,
};
use botapp::config::{sync_folder_for_home, SyncConfig, SyncMode};

fn config_with(mode: SyncMode, excludes: &[&str]) -> SyncConfig {
    SyncConfig {
        local_path: "/a".to_string(),
        remote_name: "r".to_string(),
        remote_path: "/b".to_string(),
        sync_mode: mode,
        exclude_patterns: excludes.iter().map(|s| s.to_string()).collect(),
    }
}

fn strings(items: &[&str]) -> Vec<String> {
    items.iter().map(|s| s.to_string()).collect()
}

#[test]
fn push_arguments_exact() {
    let args = build_sync_args(&config_with(SyncMode::Push, &["*.tmp"]));
    assert_eq!(
        args,
        strings(&["sync", "/a", "r:/b", "--progress", "--verbose", "--checksum", "--exclude",
            "*.tmp"])
    );
}

#[test]
fn pull_arguments_exact() {
    let args = build_sync_args(&config_with(SyncMode::Pull, &[]));
    assert_eq!(args, strings(&["sync", "r:/b", "/a", "--progress", "--verbose", "--checksum"]));
}

#[test]
fn bisync_arguments_exact() {
    let args = build_sync_args(&config_with(SyncMode::Bisync, &[]));
    assert_eq!(
        args,
        strings(&["bisync", "/a", "r:/b", "--resync", "--progress", "--verbose", "--checksum"])
    );
}

#[test]
fn bisync_always_carries_resync() {
    for excludes in [vec![], vec!["*.log"], vec![".git/**", "*.tmp"]] {
        let mut config = config_with(SyncMode::Bisync, &excludes);
        config.local_path = "/somewhere/else".to_string();
        let args = build_sync_args(&config);
        assert!(args.contains(&"--resync".to_string()));
    }
}

#[test]
fn exclude_pairs_keep_input_order() {
    let args = build_sync_args(&config_with(SyncMode::Push, &[".DS_Store", "*.tmp", ".git/**"]));
    assert_eq!(
        &args[6..],
        &strings(&["--exclude", ".DS_Store", "--exclude", "*.tmp", "--exclude", ".git/**"])[..]
    );
}

#[test]
fn remote_arg_joins_name_and_path() {
    assert_eq!(remote_arg(&"gbdrive".to_string(), &"/docs".to_string()), "gbdrive:/docs");
}

#[test]
fn configure_create_arguments_exact() {
    let args = configure_create_args(
        &"gbdrive".to_string(),
        &"http://minio:9000".to_string(),
        &"ak".to_string(),
        &"sk".to_string(),
    );
    assert_eq!(
        args,
        strings(&["config", "create", "gbdrive", "s3", "provider", "Minio", "endpoint",
            "http://minio:9000", "access_key_id", "ak", "secret_access_key", "sk", "acl",
            "private"])
    );
}

#[test]
fn configure_update_arguments_exact() {
    let args = configure_update_args(&"gbdrive".to_string(), &"mybucket".to_string());
    assert_eq!(args, strings(&["config", "update", "gbdrive", "bucket", "mybucket"]));
}

#[test]
fn probe_argument_lists() {
    assert_eq!(version_args(), strings(&["version"]));
    assert_eq!(list_remotes_args(), strings(&["listremotes"]));
}

#[test]
fn sync_folder_derivation() {
    assert_eq!(sync_folder_for_home(Some("/home/u".to_string())), "/home/u/GeneralBots");
    assert_eq!(sync_folder_for_home(None), "~/GeneralBots");
}

#[test]
fn default_config_values() {
    let config = SyncConfig::default();
    assert_eq!(config.remote_name, "gbdrive");
    assert_eq!(config.remote_path, "/");
    assert_eq!(config.sync_mode, SyncMode::Bisync);
    assert_eq!(
        config.exclude_patterns,
        strings(&[".DS_Store", "Thumbs.db", "*.tmp", ".git/**"])
    );
    assert!(config.local_path.ends_with("GeneralBots"));
}

#[test]
fn get_sync_folder_points_into_home() {
    let folder = botapp::config::get_sync_folder();
    assert!(folder.ends_with("/GeneralBots") || folder == "~/GeneralBots");
}
