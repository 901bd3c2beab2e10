use borgbackup::common::{
    CommonOptions, CompactOptions, CompressionMode, CreateOptions, EncryptionMode, InitOptions,
    ListOptions, MountOptions, MountSource, Pattern, PatternInstruction, PruneOptions, PruneWithin,
    PruneWithinTime, compact_fmt_args, create_fmt_args, init_fmt_args, list_fmt_args,
    mount_fmt_args, prune_fmt_args, split_invocation, umount_invocation,
};
use borgbackup::text::shell_escape;

#[test]
fn test_prune_fmt_args() {
    let mut prune_option = PruneOptions::new("prune_option_repo".to_string());
    prune_option.keep_secondly = Some(1);
    prune_option.keep_minutely = Some(2);
    prune_option.keep_hourly = Some(3);
    prune_option.keep_daily = Some(4);
    prune_option.keep_weekly = Some(5);
    prune_option.keep_monthly = Some(6);
    prune_option.keep_yearly = Some(7);
    let args = prune_fmt_args(&prune_option, &CommonOptions::default());
    assert_eq!("--log-json  prune --keep-secondly 1 --keep-minutely 2 --keep-hourly 3 --keep-daily 4 --keep-weekly 5 --keep-monthly 6 --keep-yearly 7 prune_option_repo", args);
}

#[test]
fn test_mount_fmt_args() {
    let mount_option = MountOptions::new(
        MountSource::Archive { archive_name: "/tmp/borg-repo::archive".to_string() },
        String::from("/mnt/borg-mount"),
    );
    let args = mount_fmt_args(&mount_option, &CommonOptions::default());
    assert_eq!("--log-json  mount /tmp/borg-repo::archive /mnt/borg-mount", args);
}

#[test]
fn test_mount_fmt_args_patterns() {
    let mut mount_option = MountOptions::new(
        MountSource::Archive { archive_name: "/my-borg-repo".to_string() },
        String::from("/borg-mount"),
    );
    mount_option.select_paths = vec![
        Pattern::Shell("**/test/*".to_string()),
        Pattern::Regex("^[A-Z]{3}".to_string()),
    ];
    let args = mount_fmt_args(&mount_option, &CommonOptions::default());
    assert_eq!(
        "--log-json  mount /my-borg-repo /borg-mount --pattern=\"sh:**/test/*\"  --pattern=\"re:^[A-Z]{3}\"",
        args
    );
}

#[test]
fn test_mount_fmt_args_repo() {
    let mut mount_option = MountOptions::new(
        MountSource::Repository {
            name: "/my-repo".to_string(),
            first_n_archives: Some(10),
            last_n_archives: Some(5),
            glob_archives: Some("archive-name*12-2022*".to_string()),
        },
        String::from("/borg-mount"),
    );
    mount_option.select_paths = vec![Pattern::Shell("**/foobar/*".to_string())];
    let args = mount_fmt_args(&mount_option, &CommonOptions::default());
    assert_eq!(
        "--log-json  mount /my-repo --first 10 --last 5 --glob-archives archive-name*12-2022* /borg-mount --pattern=\"sh:**/foobar/*\"",
        args
    );
}

#[test]
fn test_init_fmt_args() {
    let options = InitOptions::new(
        "/tmp/repo".to_string(),
        EncryptionMode::Repokey("secret".to_string()),
    );
    let args = init_fmt_args(&options, &CommonOptions::default());
    assert_eq!("--log-json init -e repokey /tmp/repo", args);
}

#[test]
fn test_init_fmt_args_flags_and_quota() {
    let mut options = InitOptions::new("/tmp/my repo".to_string(), EncryptionMode::NoEncryption);
    options.append_only = true;
    options.make_parent_dirs = true;
    options.storage_quota = Some("5G".to_string());
    let args = init_fmt_args(&options, &CommonOptions::default());
    assert_eq!(
        "--log-json init -e none --append-only --make-parent-dirs --storage-quota 5G \"/tmp/my repo\"",
        args
    );
}

#[test]
fn test_list_fmt_args() {
    let options = ListOptions { repository: "/tmp/repo".to_string(), passphrase: None };
    let args = list_fmt_args(&options, &CommonOptions::default());
    assert_eq!("--log-json  list --json /tmp/repo", args);
}

#[test]
fn test_compact_fmt_args() {
    let options = CompactOptions { repository: "/tmp/repo".to_string() };
    let args = compact_fmt_args(&options, &CommonOptions::default());
    assert_eq!("--log-json compact /tmp/repo", args);
}

#[test]
fn test_create_fmt_args_plain() {
    let options = CreateOptions::new(
        "/tmp/repo".to_string(),
        "archive1".to_string(),
        vec!["/home/data".to_string(), "/etc".to_string()],
        vec![],
    );
    let args = create_fmt_args(&options, &CommonOptions::default(), false);
    assert_eq!("--log-json create --json /tmp/repo::archive1 /home/data /etc", args);
}

#[test]
fn test_create_fmt_args_full() {
    let mut options = CreateOptions::new(
        "/tmp/repo".to_string(),
        "archive1".to_string(),
        vec!["/data".to_string()],
        vec![PatternInstruction::Include(Pattern::Shell("**/keep/*".to_string()))],
    );
    options.comment = Some("a comment".to_string());
    options.compression = Some(CompressionMode::Zstd(3));
    options.numeric_ids = true;
    options.sparse = true;
    options.read_special = true;
    options.no_xattrs = true;
    options.no_acls = true;
    options.no_flags = true;
    options.exclude_caches = true;
    options.excludes = vec![Pattern::PathPrefix("root/somedir".to_string())];
    options.pattern_file = Some("/tmp/patterns".to_string());
    options.exclude_file = Some("/tmp/excludes".to_string());
    let args = create_fmt_args(&options, &CommonOptions::default(), true);
    assert_eq!(
        "--log-json --progress create --json --comment \"a comment\" --compression zstd,3 \
         --numeric-ids --sparse --read-special --noxattrs --noacls --noflags --exclude-caches \
         --pattern=\"+ sh:**/keep/*\" --exclude=pp:root/somedir --patterns-from /tmp/patterns \
         --exclude-from /tmp/excludes /tmp/repo::archive1 /data",
        args
    );
}

#[test]
fn test_common_options_render() {
    let common = CommonOptions {
        local_path: None,
        remote_path: Some("/usr/bin/borg".to_string()),
        upload_ratelimit: Some(1024),
        rsh: Some("ssh -i /path/to/privkey".to_string()),
    };
    let options = CompactOptions { repository: "/tmp/repo".to_string() };
    let args = compact_fmt_args(&options, &common);
    assert_eq!(
        "--log-json --rsh \"ssh -i /path/to/privkey\" --remote-path /usr/bin/borg \
         --upload-ratelimit 1024 compact /tmp/repo",
        args
    );
}

#[test]
fn test_prune_keep_within() {
    let mut options = PruneOptions::new("repo".to_string());
    options.keep_within = Some(PruneWithin { quantifier: 2, time: PruneWithinTime::Week });
    let args = prune_fmt_args(&options, &CommonOptions::default());
    assert_eq!("--log-json  prune --keep-within 2w repo", args);
}

#[test]
fn test_split_invocation() {
    let words =
        split_invocation("--log-json  mount /my-borg-repo /borg-mount --pattern=\"sh:**/test/*\"")
            .expect("tokenization must succeed");
    assert_eq!(
        words,
        vec![
            "--log-json".to_string(),
            "mount".to_string(),
            "/my-borg-repo".to_string(),
            "/borg-mount".to_string(),
            "--pattern=sh:**/test/*".to_string(),
        ]
    );
}

#[test]
fn test_split_invocation_unclosed_quote_fails() {
    assert!(split_invocation("borg \"unclosed").is_none());
}

#[test]
fn test_umount_invocation() {
    let args = umount_invocation("/mnt/borg-mount".to_string());
    assert_eq!(args, vec!["umount".to_string(), "/mnt/borg-mount".to_string()]);
}

#[test]
fn test_shell_escape() {
    assert_eq!(shell_escape("plain"), "'plain'");
    assert_eq!(shell_escape(""), "''");
    assert_eq!(shell_escape("it's a \\ test"), "'it\\'s a \\\\ test'");
}
