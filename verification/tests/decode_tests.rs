use borgbackup::logging::{LevelName, LoggingMessage, MessageId};

#[test]
fn test_log_message_parse_mount() {
    let message = "fusermount: entry for /home/david/fake-directory not found in /etc/mtab";
    let log = LoggingMessage::from_str(message);
    assert_eq!(
        LoggingMessage::UMountError(message.to_string()),
        log.expect("Expected LoggingMessage::UMountError to be parsed correctly")
    )
}

#[test]
fn decode_log_message_with_known_msg_id() {
    let line = "{\"type\": \"log_message\", \"time\": 1664998629.0, \"message\": \
                \"Archive archive1 already exists\", \"levelname\": \"ERROR\", \"name\": \
                \"borg.archiver\", \"msgid\": \"Archive.AlreadyExists\"}";
    let rec = LoggingMessage::from_str(line).expect("the line must decode");
    assert_eq!(
        rec,
        LoggingMessage::LogMessage {
            time: "1664998629.0".to_string(),
            level_name: LevelName::Error,
            name: "borg.archiver".to_string(),
            message: "Archive archive1 already exists".to_string(),
            msg_id: Some(MessageId::ArchiveAlreadyExists),
        }
    );
}

#[test]
fn decode_log_message_without_msg_id() {
    let line = "{\"type\": \"log_message\", \"time\": 2.5, \"message\": \"hello\", \
                \"levelname\": \"DEBUG\", \"name\": \"borg\"}";
    let rec = LoggingMessage::from_str(line).expect("the line must decode");
    assert_eq!(
        rec,
        LoggingMessage::LogMessage {
            time: "2.5".to_string(),
            level_name: LevelName::Debug,
            name: "borg".to_string(),
            message: "hello".to_string(),
            msg_id: None,
        }
    );
}

#[test]
fn decode_log_message_with_unknown_msg_id_fails() {
    let line = "{\"type\": \"log_message\", \"time\": 2.5, \"message\": \"hello\", \
                \"levelname\": \"ERROR\", \"name\": \"borg\", \"msgid\": \
                \"Some.FutureCondition\"}";
    assert!(LoggingMessage::from_str(line).is_none());
}

#[test]
fn decode_log_message_with_unknown_level_fails() {
    let line = "{\"type\": \"log_message\", \"time\": 2.5, \"message\": \"hello\", \
                \"levelname\": \"TRACE\", \"name\": \"borg\"}";
    assert!(LoggingMessage::from_str(line).is_none());
}

#[test]
fn decode_archive_progress_full() {
    let line = "{\"original_size\": 1234, \"compressed_size\": 800, \"deduplicated_size\": 20, \
                \"nfiles\": 3, \"path\": \"/home/data/file\", \"time\": 1664998629.5, \
                \"finished\": false, \"type\": \"archive_progress\"}";
    let rec = LoggingMessage::from_str(line).expect("the line must decode");
    assert_eq!(
        rec,
        LoggingMessage::ArchiveProgress {
            original_size: Some(1234),
            compressed_size: Some(800),
            deduplicated_size: Some(20),
            nfiles: Some(3),
            path: Some("/home/data/file".to_string()),
            time: "1664998629.5".to_string(),
            finished: false,
        }
    );
}

#[test]
fn decode_archive_progress_finished() {
    let line = "{\"time\": 1664998630.0, \"finished\": true, \"type\": \"archive_progress\"}";
    let rec = LoggingMessage::from_str(line).expect("the line must decode");
    assert_eq!(
        rec,
        LoggingMessage::ArchiveProgress {
            original_size: None,
            compressed_size: None,
            deduplicated_size: None,
            nfiles: None,
            path: None,
            time: "1664998630.0".to_string(),
            finished: true,
        }
    );
}

#[test]
fn decode_file_status() {
    let line = "{\"type\": \"file_status\", \"status\": \"A\", \"path\": \"/home/user/file\"}";
    let rec = LoggingMessage::from_str(line).expect("the line must decode");
    assert_eq!(
        rec,
        LoggingMessage::FileStatus { status: "A".to_string(), path: "/home/user/file".to_string() }
    );
}

#[test]
fn decode_progress_percent() {
    let line = "{\"type\": \"progress_percent\", \"operation\": 1, \"msgid\": \"cache.commit\", \
                \"time\": 3.5, \"finished\": false, \"current\": 20, \"total\": 100}";
    let rec = LoggingMessage::from_str(line).expect("the line must decode");
    assert_eq!(
        rec,
        LoggingMessage::ProgressPercent {
            operation: 1,
            msg_id: Some(MessageId::CacheCommit),
            time: "3.5".to_string(),
            finished: false,
            current: Some(20),
            total: Some(100),
        }
    );
}

#[test]
fn decode_progress_message() {
    let line = "{\"type\": \"progress_message\", \"operation\": 2, \"finished\": false, \
                \"message\": \"synchronizing cache\", \"time\": 4.0}";
    let rec = LoggingMessage::from_str(line).expect("the line must decode");
    assert_eq!(
        rec,
        LoggingMessage::ProgressMessage {
            operation: 2,
            msg_id: None,
            finished: false,
            message: Some("synchronizing cache".to_string()),
            time: "4.0".to_string(),
        }
    );
}

#[test]
fn decode_rejects_non_json() {
    assert!(LoggingMessage::from_str("plain text, not a record").is_none());
}

#[test]
fn decode_rejects_unknown_type_tag() {
    assert!(LoggingMessage::from_str("{\"type\": \"something_else\"}").is_none());
}

#[test]
fn decode_rejects_missing_required_field() {
    // archive_progress without the finished flag
    let line = "{\"time\": 1.0, \"type\": \"archive_progress\"}";
    assert!(LoggingMessage::from_str(line).is_none());
}

#[test]
fn decode_same_line_twice_yields_same_record() {
    let line = "{\"type\": \"log_message\", \"time\": 2.5, \"message\": \"hello\", \
                \"levelname\": \"INFO\", \"name\": \"borg\"}";
    assert_eq!(LoggingMessage::from_str(line), LoggingMessage::from_str(line));
}

#[test]
fn msg_id_wire_round_trip() {
    let ids = [
        MessageId::ArchiveAlreadyExists,
        MessageId::PassphraseWrong,
        MessageId::RepositoryAlreadyExists,
        MessageId::RepositoryDoesNotExist,
        MessageId::CacheSync,
        MessageId::LockErrorT,
        MessageId::Extract,
        MessageId::UpgradeConvertSegments,
    ];
    for id in ids {
        assert_eq!(MessageId::from_wire(id.as_wire()), Some(id));
    }
    assert_eq!(MessageId::ArchiveAlreadyExists.as_wire(), "Archive.AlreadyExists");
    assert_eq!(MessageId::from_wire("Repository.DoesNotExist"), Some(MessageId::RepositoryDoesNotExist));
}

#[test]
fn msg_id_unknown_wire_fails() {
    assert_eq!(MessageId::from_wire("Archive.SomethingNew"), None);
    assert_eq!(MessageId::from_wire(""), None);
}

#[test]
fn level_name_wire_round_trip() {
    let levels = [
        LevelName::Debug,
        LevelName::Info,
        LevelName::Warning,
        LevelName::Error,
        LevelName::Critical,
    ];
    for level in levels {
        assert_eq!(LevelName::from_wire(level.as_wire()), Some(level));
    }
    assert_eq!(LevelName::from_wire("WARN"), None);
}

#[test]
fn decode_progress_percent_with_array_info() {
    let line = "{\"type\": \"progress_percent\", \"operation\": 1, \"time\": 3.5, \"finished\": \
                false, \"current\": 20, \"total\": 100, \"info\": [\"archive1\"]}";
    let rec = LoggingMessage::from_str(line).expect("the line must decode");
    assert_eq!(
        rec,
        LoggingMessage::ProgressPercent {
            operation: 1,
            msg_id: None,
            time: "3.5".to_string(),
            finished: false,
            current: Some(20),
            total: Some(100),
        }
    );
}

#[test]
fn decode_progress_percent_rejects_non_array_info() {
    let line = "{\"type\": \"progress_percent\", \"operation\": 1, \"time\": 3.5, \"finished\": \
                false, \"current\": 20, \"total\": 100, \"info\": 7}";
    assert!(LoggingMessage::from_str(line).is_none());
}

#[test]
fn decode_progress_percent_with_null_info() {
    let line = "{\"type\": \"progress_percent\", \"operation\": 1, \"time\": 3.5, \"finished\": \
                true, \"info\": null}";
    let rec = LoggingMessage::from_str(line).expect("the line must decode");
    assert!(matches!(rec, LoggingMessage::ProgressPercent { finished: true, .. }));
}
