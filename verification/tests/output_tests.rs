use borgbackup::output::{Create, EncryptionMode, ListRepository};

const MINIMAL_CREATE: &str = r#"{"archive": {"command_line": [], "duration": 2, "end": "e", "id": "i", "limits": {"max_archive_size": 0.25}, "name": "n", "start": "s", "stats": {"compressed_size": 1, "deduplicated_size": 2, "nfiles": 3, "original_size": 4}}, "repository": {"id": "r", "last_modified": "t", "location": "l"}}"#;

#[test]
fn create_decodes_without_cache_and_encryption() {
    let create = Create::from_str(MINIMAL_CREATE).expect("the blob must decode");
    assert!(create.cache.is_none());
    assert!(create.encryption.is_none());
    assert_eq!(create.archive.duration, "2");
    assert_eq!(create.archive.limits.max_archive_size, "0.25");
    assert!(create.archive.command_line.is_empty());
}

#[test]
fn create_rejects_missing_archive_field() {
    let doc = r#"{"repository": {"id": "r", "last_modified": "t", "location": "l"}}"#;
    assert!(Create::from_str(doc).is_none());
}

#[test]
fn create_rejects_unknown_encryption_mode() {
    let doc = r#"{"archive": {"command_line": [], "duration": 2, "end": "e", "id": "i", "limits": {"max_archive_size": 0.25}, "name": "n", "start": "s", "stats": {"compressed_size": 1, "deduplicated_size": 2, "nfiles": 3, "original_size": 4}}, "encryption": {"mode": "quantum"}, "repository": {"id": "r", "last_modified": "t", "location": "l"}}"#;
    assert!(Create::from_str(doc).is_none());
}

#[test]
fn create_keeps_the_keyfile_path() {
    let doc = r#"{"archive": {"command_line": [], "duration": 2, "end": "e", "id": "i", "limits": {"max_archive_size": 0.25}, "name": "n", "start": "s", "stats": {"compressed_size": 1, "deduplicated_size": 2, "nfiles": 3, "original_size": 4}}, "encryption": {"mode": "keyfile", "keyfile": "/root/.config/borg/keys/k"}, "repository": {"id": "r", "last_modified": "t", "location": "l"}}"#;
    let create = Create::from_str(doc).expect("the blob must decode");
    let encryption = create.encryption.expect("encryption is reported");
    assert_eq!(encryption.mode, EncryptionMode::Keyfile);
    assert_eq!(encryption.keyfile, Some("/root/.config/borg/keys/k".to_string()));
}

#[test]
fn list_decodes_an_empty_repository() {
    let doc = r#"{"archives": [], "repository": {"id": "r", "last_modified": "t", "location": "l"}}"#;
    let listing = ListRepository::from_str(doc).expect("the blob must decode");
    assert!(listing.archives.is_empty());
    assert!(listing.encryption.is_none());
}

#[test]
fn list_rejects_a_malformed_archive_entry() {
    let doc = r#"{"archives": [{"id": "a"}], "repository": {"id": "r", "last_modified": "t", "location": "l"}}"#;
    assert!(ListRepository::from_str(doc).is_none());
}
