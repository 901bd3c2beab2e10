use borgbackup::errors::{CompactError, InitError, ListError, MountError, PruneError};
use borgbackup::logging::MessageId;
use borgbackup::output::EncryptionMode;
use borgbackup::scan::{
    compact_parse_output, init_parse_result, list_parse_output, mount_parse_output,
    prune_parse_output,
};

const LIST_STDOUT: &str = r#"{"archives": [{"id": "abc123", "name": "archive1", "start": "2022-07-12T13:56:36.000000"}, {"id": "def456", "name": "archive2", "start": "2022-07-13T10:00:00.000000"}], "encryption": {"mode": "none"}, "repository": {"id": "deadbeef", "last_modified": "2022-07-13T10:00:01.000000", "location": "/tmp/repo"}}"#;

fn log_line(level: &str, msgid: Option<&str>) -> String {
    match msgid {
        Some(id) => format!(
            "{{\"type\": \"log_message\", \"time\": 1.0, \"message\": \"m\", \"levelname\": \
             \"{level}\", \"name\": \"borg\", \"msgid\": \"{id}\"}}"
        ),
        None => format!(
            "{{\"type\": \"log_message\", \"time\": 1.0, \"message\": \"m\", \"levelname\": \
             \"{level}\", \"name\": \"borg\"}}"
        ),
    }
}

#[test]
fn init_existing_repository_is_terminal() {
    let lines = vec![log_line("ERROR", Some("Repository.AlreadyExists"))];
    assert_eq!(init_parse_result(Some(2), &lines), Err(InitError::RepositoryAlreadyExists));
    // terminal whatever the exit code
    assert_eq!(init_parse_result(Some(0), &lines), Err(InitError::RepositoryAlreadyExists));
}

#[test]
fn init_any_other_identifier_is_unexpected() {
    let lines = vec![log_line("ERROR", Some("LockError"))];
    // only an exit code that marks failure makes the identifier fatal
    assert_eq!(
        init_parse_result(Some(2), &lines),
        Err(InitError::UnexpectedMessageId(MessageId::LockError))
    );
    assert_eq!(init_parse_result(Some(0), &lines), Ok(()));
}

#[test]
fn init_benign_identifier_on_clean_exit_succeeds() {
    let lines = vec![log_line("INFO", Some("cache.begin_transaction"))];
    assert_eq!(init_parse_result(Some(0), &lines), Ok(()));
    assert_eq!(init_parse_result(Some(1), &lines), Ok(()));
}

#[test]
fn init_clean_run_succeeds() {
    let lines = vec![log_line("INFO", None)];
    assert_eq!(init_parse_result(Some(0), &lines), Ok(()));
    assert_eq!(init_parse_result(Some(1), &lines), Ok(()));
}

#[test]
fn init_signal_and_unknown() {
    assert_eq!(init_parse_result(None, &Vec::new()), Err(InitError::TerminatedBySignal));
    let lines = vec![log_line("ERROR", None)];
    let expected = format!("{}\n", log_line("ERROR", None));
    assert_eq!(init_parse_result(Some(2), &lines), Err(InitError::Unknown(expected)));
}

#[test]
fn prune_identifier_is_harmless_on_clean_exit() {
    let lines = vec![log_line("INFO", Some("prune"))];
    assert_eq!(prune_parse_output(Some(0), &lines), Ok(()));
}

#[test]
fn prune_identifier_with_failing_exit_is_unexpected() {
    let lines = vec![log_line("ERROR", Some("LockError"))];
    assert_eq!(
        prune_parse_output(Some(2), &lines),
        Err(PruneError::UnexpectedMessageId(MessageId::LockError))
    );
}

#[test]
fn prune_undecodable_line_fails() {
    let lines = vec!["garbage".to_string()];
    assert_eq!(
        prune_parse_output(Some(0), &lines),
        Err(PruneError::DeserializeError("garbage".to_string()))
    );
}

#[test]
fn mount_fusermount_line_is_its_own_error() {
    let raw = "fusermount: entry for /mnt/borg not found in /etc/mtab";
    let lines = vec![raw.to_string()];
    assert_eq!(
        mount_parse_output(Some(1), &lines),
        Err(MountError::UMountError(raw.to_string()))
    );
}

#[test]
fn mount_clean_run_succeeds() {
    assert_eq!(mount_parse_output(Some(0), &Vec::new()), Ok(()));
}

#[test]
fn compact_rules_match_prune() {
    assert_eq!(compact_parse_output(None, &Vec::new()), Err(CompactError::TerminatedBySignal));
    let lines = vec![log_line("ERROR", Some("LockError"))];
    assert_eq!(
        compact_parse_output(Some(2), &lines),
        Err(CompactError::UnexpectedMessageId(MessageId::LockError))
    );
    assert_eq!(compact_parse_output(Some(0), &lines), Ok(()));
}

#[test]
fn list_decodes_the_archive_listing() {
    let listing = list_parse_output(Some(0), &Vec::new(), LIST_STDOUT)
        .expect("the clean run must succeed");
    assert_eq!(listing.repository.id, "deadbeef");
    assert_eq!(listing.repository.location, "/tmp/repo");
    assert_eq!(listing.archives.len(), 2);
    assert_eq!(listing.archives[0].id, "abc123");
    assert_eq!(listing.archives[0].name, "archive1");
    assert_eq!(listing.archives[0].start, "2022-07-12T13:56:36.000000");
    assert_eq!(listing.archives[1].name, "archive2");
    let encryption = listing.encryption.expect("the fixture reports encryption");
    assert_eq!(encryption.mode, EncryptionMode::NoEncryption);
}

#[test]
fn list_missing_repository_is_terminal() {
    let lines = vec![log_line("ERROR", Some("Repository.DoesNotExist"))];
    assert_eq!(
        list_parse_output(Some(2), &lines, ""),
        Err(ListError::RepositoryDoesNotExist)
    );
}

#[test]
fn list_wrong_passphrase_is_terminal() {
    let lines = vec![log_line("ERROR", Some("PassphraseWrong"))];
    assert_eq!(list_parse_output(Some(2), &lines, ""), Err(ListError::PassphraseWrong));
}

#[test]
fn list_stdout_that_does_not_decode_fails() {
    assert_eq!(
        list_parse_output(Some(0), &Vec::new(), "{}"),
        Err(ListError::DeserializeError("{}".to_string()))
    );
}

#[test]
fn list_unknown_failure_carries_the_stream() {
    let lines = vec![log_line("ERROR", None)];
    let expected = format!("{}\n", log_line("ERROR", None));
    assert_eq!(list_parse_output(Some(2), &lines, ""), Err(ListError::Unknown(expected)));
}

#[test]
fn init_undecodable_line_fails() {
    let lines = vec!["garbage".to_string()];
    assert_eq!(
        init_parse_result(Some(0), &lines),
        Err(InitError::DeserializeError("garbage".to_string()))
    );
}
