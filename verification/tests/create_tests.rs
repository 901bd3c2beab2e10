use borgbackup::common::{CommonOptions, CreateOptions, create_invocation};
use borgbackup::create::{CreateProgress, CreateRun, LineOutcome, StdoutCapture, run_create_stream};
use borgbackup::errors::CreateError;
use borgbackup::output::{ArchiveStats, EncryptionMode};
use borgbackup::scan::create_parse_output;

const CREATE_STDOUT: &str = r#"{"archive": {"command_line": ["borg", "create", "--json", "/tmp/repo::archive1", "/data"], "duration": 1.5, "end": "2022-07-12T13:56:38.000000", "id": "a1b2c3", "limits": {"max_archive_size": 0.5}, "name": "archive1", "start": "2022-07-12T13:56:36.000000", "stats": {"compressed_size": 800, "deduplicated_size": 20, "nfiles": 3, "original_size": 1234}}, "cache": {"path": "/root/.cache/borg/abc", "stats": {"total_chunks": 10, "total_csize": 100, "total_size": 200, "total_unique_chunks": 8, "unique_csize": 80, "unique_size": 160}}, "encryption": {"mode": "repokey"}, "repository": {"id": "deadbeef", "last_modified": "2022-07-12T13:56:38.000000", "location": "/tmp/repo"}}"#;

fn progress_line(original: u64, nfiles: u64, path: &str) -> String {
    format!(
        "{{\"original_size\": {original}, \"compressed_size\": {c}, \"deduplicated_size\": {d}, \
         \"nfiles\": {nfiles}, \"path\": \"{path}\", \"time\": 1.5, \"finished\": false, \
         \"type\": \"archive_progress\"}}",
        c = original / 2,
        d = original / 4,
    )
}

const FINISHED_LINE: &str =
    "{\"time\": 9.0, \"finished\": true, \"type\": \"archive_progress\"}";

const ALREADY_EXISTS_LINE: &str = "{\"type\": \"log_message\", \"time\": 1.0, \"message\": \
     \"Archive archive1 already exists\", \"levelname\": \"ERROR\", \"name\": \"borg.archiver\", \
     \"msgid\": \"Archive.AlreadyExists\"}";

#[test]
fn clean_create_emits_progress_and_result() {
    let mut lines: Vec<String> = Vec::new();
    for i in 1..=5u64 {
        lines.push(progress_line(i * 100, i, &format!("/data/file{i}")));
    }
    lines.push(FINISHED_LINE.to_string());
    let (events, result) =
        run_create_stream(&lines, Some(0), &StdoutCapture::Text(CREATE_STDOUT.to_string()));
    assert_eq!(events.len(), 6);
    for i in 1..=5u64 {
        assert_eq!(
            events[(i - 1) as usize],
            CreateProgress::Progress {
                original_size: i * 100,
                compressed_size: i * 100 / 2,
                deduplicated_size: i * 100 / 4,
                nfiles: i,
                path: format!("/data/file{i}"),
            }
        );
    }
    assert_eq!(events[5], CreateProgress::Finished);
    let create = result.expect("the clean run must succeed");
    assert_eq!(create.repository.id, "deadbeef");
    assert_eq!(create.repository.location, "/tmp/repo");
    assert_eq!(create.repository.last_modified, "2022-07-12T13:56:38.000000");
    assert_eq!(create.archive.id, "a1b2c3");
    assert_eq!(create.archive.name, "archive1");
    assert_eq!(create.archive.duration, "1.5");
    assert_eq!(create.archive.limits.max_archive_size, "0.5");
    assert_eq!(
        create.archive.command_line,
        vec!["borg", "create", "--json", "/tmp/repo::archive1", "/data"]
    );
    assert_eq!(
        create.archive.stats,
        ArchiveStats {
            compressed_size: 800,
            deduplicated_size: 20,
            nfiles: 3,
            original_size: 1234
        }
    );
    let cache = create.cache.expect("the fixture reports a cache");
    assert_eq!(cache.path, "/root/.cache/borg/abc");
    assert_eq!(cache.stats.total_chunks, 10);
    assert_eq!(cache.stats.unique_size, 160);
    let encryption = create.encryption.expect("the fixture reports encryption");
    assert_eq!(encryption.mode, EncryptionMode::Repokey);
    assert_eq!(encryption.keyfile, None);
}

#[test]
fn already_exists_is_terminal() {
    let lines = vec![ALREADY_EXISTS_LINE.to_string()];
    let (events, result) =
        run_create_stream(&lines, Some(2), &StdoutCapture::Text(String::new()));
    assert!(events.is_empty());
    assert_eq!(result, Err(CreateError::ArchiveAlreadyExists));
}

#[test]
fn already_exists_outranks_clean_exit() {
    let lines = vec![ALREADY_EXISTS_LINE.to_string()];
    let (_, result) =
        run_create_stream(&lines, Some(0), &StdoutCapture::Text(CREATE_STDOUT.to_string()));
    assert_eq!(result, Err(CreateError::ArchiveAlreadyExists));
}

#[test]
fn signal_outranks_already_exists() {
    let lines = vec![ALREADY_EXISTS_LINE.to_string()];
    let (_, result) = run_create_stream(&lines, None, &StdoutCapture::Text(String::new()));
    assert_eq!(result, Err(CreateError::TerminatedBySignal));
}

#[test]
fn unreadable_stdout_outranks_already_exists() {
    let lines = vec![ALREADY_EXISTS_LINE.to_string()];
    let (_, result) = run_create_stream(
        &lines,
        Some(2),
        &StdoutCapture::Unreadable("broken pipe".to_string()),
    );
    assert_eq!(result, Err(CreateError::InvalidBorgOutput("broken pipe".to_string())));
}

#[test]
fn malformed_progress_line_defers_to_exit_code() {
    // original_size is missing while finished is false: the read loop ends and
    // the exit code and standard output alone decide.
    let malformed = "{\"compressed_size\": 50, \"deduplicated_size\": 25, \"nfiles\": 1, \
                     \"path\": \"/data/x\", \"time\": 1.5, \"finished\": false, \
                     \"type\": \"archive_progress\"}";
    let lines = vec![malformed.to_string(), progress_line(100, 1, "/data/y")];
    let (events, result) =
        run_create_stream(&lines, Some(0), &StdoutCapture::Text(CREATE_STDOUT.to_string()));
    assert!(events.is_empty());
    assert!(result.is_ok());
}

#[test]
fn malformed_line_with_failing_exit_is_unknown() {
    let lines = vec!["not json at all".to_string()];
    let (events, result) =
        run_create_stream(&lines, Some(2), &StdoutCapture::Text(String::new()));
    assert!(events.is_empty());
    assert_eq!(result, Err(CreateError::Unknown("not json at all\n".to_string())));
}

#[test]
fn unknown_error_collects_every_line() {
    let warn = "{\"type\": \"log_message\", \"time\": 1.0, \"message\": \"careful\", \
                \"levelname\": \"WARNING\", \"name\": \"borg\"}";
    let lines = vec![warn.to_string(), FINISHED_LINE.to_string()];
    let (_, result) = run_create_stream(&lines, Some(2), &StdoutCapture::Text(String::new()));
    assert_eq!(result, Err(CreateError::Unknown(format!("{warn}\n{FINISHED_LINE}\n"))));
}

#[test]
fn finished_is_terminal_for_the_progress_protocol() {
    let lines = vec![
        progress_line(100, 1, "/a"),
        FINISHED_LINE.to_string(),
        FINISHED_LINE.to_string(),
        progress_line(200, 2, "/b"),
    ];
    let (events, _) =
        run_create_stream(&lines, Some(0), &StdoutCapture::Text(CREATE_STDOUT.to_string()));
    assert_eq!(events.len(), 2);
    assert!(matches!(events[0], CreateProgress::Progress { .. }));
    assert_eq!(events[1], CreateProgress::Finished);
}

#[test]
fn dropped_receiver_does_not_change_the_result() {
    // A caller whose receiver is gone drops every emitted event; the run
    // still finalizes to the correct result.
    let mut run = CreateRun::new();
    for line in [progress_line(100, 1, "/a"), FINISHED_LINE.to_string()] {
        match run.on_line(&line) {
            LineOutcome::Emit(_) => {
                // sending failed: the event is dropped and the run goes on
            },
            outcome => panic!("unexpected outcome: {outcome:?}"),
        }
    }
    let result = run.finalize(Some(0), &StdoutCapture::Text(CREATE_STDOUT.to_string()));
    assert!(result.is_ok());
}

#[test]
fn log_lines_are_handed_to_the_log_sink() {
    let mut run = CreateRun::new();
    let line = "{\"type\": \"log_message\", \"time\": 2.5, \"message\": \"hello\", \
                \"levelname\": \"INFO\", \"name\": \"borg\"}";
    match run.on_line(line) {
        LineOutcome::Log { level, time, name, message } => {
            assert_eq!(level, borgbackup::logging::LevelName::Info);
            assert_eq!(time, "2.5");
            assert_eq!(name, "borg");
            assert_eq!(message, "hello");
        },
        outcome => panic!("unexpected outcome: {outcome:?}"),
    }
}

#[test]
fn stdout_that_does_not_decode_is_a_deserialize_error() {
    let (_, result) = run_create_stream(
        &Vec::new(),
        Some(0),
        &StdoutCapture::Text("{\"repository\": {}}".to_string()),
    );
    assert_eq!(
        result,
        Err(CreateError::DeserializeError("{\"repository\": {}}".to_string()))
    );
}

#[test]
fn sync_parse_matches_the_streaming_outcome() {
    let lines = vec![ALREADY_EXISTS_LINE.to_string()];
    let result = create_parse_output(Some(2), &lines, "");
    assert_eq!(result, Err(CreateError::ArchiveAlreadyExists));
    let result = create_parse_output(None, &Vec::new(), "");
    assert_eq!(result, Err(CreateError::TerminatedBySignal));
    let result = create_parse_output(Some(0), &Vec::new(), CREATE_STDOUT);
    assert!(result.is_ok());
}

#[test]
fn sync_parse_fails_fast_on_an_undecodable_line() {
    let lines = vec!["garbage".to_string()];
    let result = create_parse_output(Some(0), &lines, CREATE_STDOUT);
    assert_eq!(result, Err(CreateError::DeserializeError("garbage".to_string())));
}

#[test]
fn describe_renders_progress_on_one_line() {
    let p = CreateProgress::Progress {
        original_size: 10,
        compressed_size: 20,
        deduplicated_size: 30,
        nfiles: 4,
        path: "/data/file".to_string(),
    };
    assert_eq!(p.describe(), "O 10 C 20 D 30 N 4 /data/file");
    assert_eq!(CreateProgress::Finished.describe(), "Finished");
}

#[test]
fn wrong_passphrase_is_terminal_for_create() {
    let line = "{\"type\": \"log_message\", \"time\": 1.0, \"message\": \"passphrase supplied in \
                BORG_PASSPHRASE is incorrect\", \"levelname\": \"ERROR\", \"name\": \"borg\", \
                \"msgid\": \"PassphraseWrong\"}";
    let lines = vec![line.to_string()];
    let (_, result) = run_create_stream(&lines, Some(2), &StdoutCapture::Text(String::new()));
    assert_eq!(result, Err(CreateError::PassphraseWrong));
    assert_eq!(create_parse_output(Some(2), &lines, ""), Err(CreateError::PassphraseWrong));
}

#[test]
fn unhandled_identifier_with_failing_exit_is_unexpected() {
    let line = "{\"type\": \"log_message\", \"time\": 1.0, \"message\": \"lock\", \"levelname\": \
                \"ERROR\", \"name\": \"borg\", \"msgid\": \"LockError\"}";
    let lines = vec![line.to_string()];
    assert_eq!(
        create_parse_output(Some(2), &lines, ""),
        Err(CreateError::UnexpectedMessageId(borgbackup::logging::MessageId::LockError))
    );
}

#[test]
fn path_with_metacharacters_stays_one_operand() {
    // a path holding a space, a quote and a dollar sign is quoted, so it
    // tokenizes back into exactly one argv word
    let options = CreateOptions::new(
        "/tmp/repo".to_string(),
        "archive1".to_string(),
        vec!["/data/my \"files\" $HOME".to_string(), "/etc".to_string()],
        vec![],
    );
    let words = create_invocation(&options, &CommonOptions::default(), false)
        .expect("tokenization must succeed");
    assert_eq!(
        words,
        vec![
            "--log-json".to_string(),
            "create".to_string(),
            "--json".to_string(),
            "/tmp/repo::archive1".to_string(),
            "/data/my \"files\" $HOME".to_string(),
            "/etc".to_string(),
        ]
    );
}

#[test]
fn tokenizable_invocation_yields_argv_words() {
    let options = CreateOptions::new(
        "/tmp/repo".to_string(),
        "archive 1".to_string(),
        vec!["/data".to_string()],
        vec![],
    );
    let words = create_invocation(&options, &CommonOptions::default(), false)
        .expect("tokenization must succeed");
    assert_eq!(
        words,
        vec![
            "--log-json".to_string(),
            "create".to_string(),
            "--json".to_string(),
            "/tmp/repo::archive 1".to_string(),
            "/data".to_string(),
        ]
    );
}
