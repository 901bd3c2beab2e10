//! The typed results the borg commands print on standard output, and their
//! decoders.
//!
//! Quantities that borg renders as JSON numbers with a fractional part
//! (durations, limit ratios) and timestamps are kept as the number's or
//! timestamp's rendered text: no command of this library computes with them.

use vstd::prelude::*;

use crate::json::{
    get_arr_len, get_elem_str, get_item_str, get_num_text, get_str, get_u64, has_value,
    json_arr_len, json_elem_str, json_item_str, json_num_text, json_present, json_str, json_u64,
};
use crate::text::str_eq;

verus! {

/// Information about a repository.
#[derive(Debug, Clone, PartialEq)]
pub struct Repository {
    /// The ID of the repository, normally 64 hex characters
    pub id: String,
    /// Canonical repository path; may differ from what was specified
    pub location: String,
    /// When the repository was last modified by the borg client
    pub last_modified: String,
}

/// The mathematical form of [`Repository`].
pub struct RepositoryView {
    /// The ID of the repository
    pub id: Seq<char>,
    /// Canonical repository path
    pub location: Seq<char>,
    /// When the repository was last modified
    pub last_modified: Seq<char>,
}

impl View for Repository {
    type V = RepositoryView;

    open spec fn view(&self) -> RepositoryView {
        RepositoryView {
            id: self.id@,
            location: self.location@,
            last_modified: self.last_modified@,
        }
    }
}

/// The encryption mode of a repository, as reported in command output.
#[derive(Debug, Clone, Copy, PartialEq, Eq, Structural)]
pub enum EncryptionMode {
    /// No encryption, nor hashing
    NoEncryption,
    /// No encryption, contents authenticated through HMAC-SHA256
    Authenticated,
    /// No encryption, contents authenticated through keyed BLAKE2b-256
    AuthenticatedBlake2,
    /// AES-CTR-256 with HMAC-SHA256, key stored in the repository
    Repokey,
    /// AES-CTR-256 with HMAC-SHA256, key stored locally
    Keyfile,
    /// AES-CTR-256 with keyed BLAKE2b-256, key stored in the repository
    RepokeyBlake2,
    /// AES-CTR-256 with keyed BLAKE2b-256, key stored locally
    KeyfileBlake2,
}

/// The wire form of a reported encryption mode.
pub open spec fn spec_enc_mode_wire_of(m: EncryptionMode) -> Seq<char> {
    match m {
        EncryptionMode::NoEncryption => "none"@,
        EncryptionMode::Authenticated => "authenticated"@,
        EncryptionMode::AuthenticatedBlake2 => "authenticated-blake2"@,
        EncryptionMode::Repokey => "repokey"@,
        EncryptionMode::Keyfile => "keyfile"@,
        EncryptionMode::RepokeyBlake2 => "repokey-blake2"@,
        EncryptionMode::KeyfileBlake2 => "keyfile-blake2"@,
    }
}

/// The reported encryption mode a wire string denotes, if any.
pub open spec fn spec_enc_mode_of(s: Seq<char>) -> Option<EncryptionMode> {
    if s == "none"@ {
        Some(EncryptionMode::NoEncryption)
    } else if s == "authenticated"@ {
        Some(EncryptionMode::Authenticated)
    } else if s == "authenticated-blake2"@ {
        Some(EncryptionMode::AuthenticatedBlake2)
    } else if s == "repokey"@ {
        Some(EncryptionMode::Repokey)
    } else if s == "keyfile"@ {
        Some(EncryptionMode::Keyfile)
    } else if s == "repokey-blake2"@ {
        Some(EncryptionMode::RepokeyBlake2)
    } else if s == "keyfile-blake2"@ {
        Some(EncryptionMode::KeyfileBlake2)
    } else {
        None
    }
}

impl EncryptionMode {
    /// The name borg reports for this mode.
    pub fn as_wire(&self) -> (r: &'static str)
        ensures
            r@ == spec_enc_mode_wire_of(*self),
    {
        match self {
            EncryptionMode::NoEncryption => "none",
            EncryptionMode::Authenticated => "authenticated",
            EncryptionMode::AuthenticatedBlake2 => "authenticated-blake2",
            EncryptionMode::Repokey => "repokey",
            EncryptionMode::Keyfile => "keyfile",
            EncryptionMode::RepokeyBlake2 => "repokey-blake2",
            EncryptionMode::KeyfileBlake2 => "keyfile-blake2",
        }
    }

    /// Look a reported mode name up.
    pub fn from_wire(s: &str) -> (r: Option<EncryptionMode>)
        ensures
            r == spec_enc_mode_of(s@),
    {
        if str_eq(s, "none") {
            Some(EncryptionMode::NoEncryption)
        } else if str_eq(s, "authenticated") {
            Some(EncryptionMode::Authenticated)
        } else if str_eq(s, "authenticated-blake2") {
            Some(EncryptionMode::AuthenticatedBlake2)
        } else if str_eq(s, "repokey") {
            Some(EncryptionMode::Repokey)
        } else if str_eq(s, "keyfile") {
            Some(EncryptionMode::Keyfile)
        } else if str_eq(s, "repokey-blake2") {
            Some(EncryptionMode::RepokeyBlake2)
        } else if str_eq(s, "keyfile-blake2") {
            Some(EncryptionMode::KeyfileBlake2)
        } else {
            None
        }
    }
}

/// The encryption settings of a repository.
#[derive(Debug, Clone, PartialEq)]
pub struct Encryption {
    /// The selected encryption mode
    pub mode: EncryptionMode,
    /// Path to the local key file used for access, where the mode has one
    pub keyfile: Option<String>,
}

/// The mathematical form of [`Encryption`].
pub struct EncryptionView {
    /// The selected encryption mode
    pub mode: EncryptionMode,
    /// Path to the local key file used for access
    pub keyfile: Option<Seq<char>>,
}

impl View for Encryption {
    type V = EncryptionView;

    open spec fn view(&self) -> EncryptionView {
        EncryptionView { mode: self.mode, keyfile: self.keyfile.deep_view() }
    }
}

/// The stats of the local repository cache.
#[derive(Debug, Clone, Copy, PartialEq, Eq, Structural)]
pub struct CacheStats {
    /// Number of chunks
    pub total_chunks: u64,
    /// Total compressed and encrypted size of all chunks, counted with their
    /// reference counts
    pub total_csize: u64,
    /// Total uncompressed size of all chunks, counted with their reference
    /// counts
    pub total_size: u64,
    /// Number of unique chunks
    pub total_unique_chunks: u64,
    /// Compressed and encrypted size of all chunks
    pub unique_csize: u64,
    /// Uncompressed size of all chunks
    pub unique_size: u64,
}

/// The local repository cache.
#[derive(Debug, Clone, PartialEq)]
pub struct Cache {
    /// Path to the local repository cache
    pub path: String,
    /// Stats of the cache
    pub stats: CacheStats,
}

/// The mathematical form of [`Cache`].
pub struct CacheView {
    /// Path to the local repository cache
    pub path: Seq<char>,
    /// Stats of the cache
    pub stats: CacheStats,
}

impl View for Cache {
    type V = CacheView;

    open spec fn view(&self) -> CacheView {
        CacheView { path: self.path@, stats: self.stats }
    }
}

/// The utilization of borg's limits.
#[derive(Debug, Clone, PartialEq)]
pub struct Limits {
    /// How large the archive is relative to the maximum size borg allows: a
    /// ratio between 0 and 1, kept as the number's rendered text
    pub max_archive_size: String,
}

/// The mathematical form of [`Limits`].
pub struct LimitsView {
    /// The ratio's rendered text
    pub max_archive_size: Seq<char>,
}

impl View for Limits {
    type V = LimitsView;

    open spec fn view(&self) -> LimitsView {
        LimitsView { max_archive_size: self.max_archive_size@ }
    }
}

/// The freshly calculated statistics of an archive.
#[derive(Debug, Clone, Copy, PartialEq, Eq, Structural)]
pub struct ArchiveStats {
    /// Size after compression
    pub compressed_size: u64,
    /// Deduplicated size, against the current repository
    pub deduplicated_size: u64,
    /// Number of regular files in the archive
    pub nfiles: u64,
    /// Size of files and metadata before compression
    pub original_size: u64,
}

/// The archive part of a borg create command's output.
///
/// The chunker parameters borg also reports are read by no command and are
/// not kept.
#[derive(Debug, Clone, PartialEq)]
pub struct CreateArchive {
    /// Hexadecimal archive ID
    pub id: String,
    /// Name of the archive
    pub name: String,
    /// The command line that created the archive
    pub command_line: Vec<String>,
    /// The utilization of borg's limits
    pub limits: Limits,
    /// Duration in seconds between start and end, as the number's text
    pub duration: String,
    /// Start timestamp
    pub start: String,
    /// End timestamp
    pub end: String,
    /// The statistics of the archive
    pub stats: ArchiveStats,
}

/// The mathematical form of [`CreateArchive`].
pub struct CreateArchiveView {
    /// Hexadecimal archive ID
    pub id: Seq<char>,
    /// Name of the archive
    pub name: Seq<char>,
    /// The command line that created the archive
    pub command_line: Seq<Seq<char>>,
    /// The utilization of borg's limits
    pub limits: LimitsView,
    /// Duration in seconds, as the number's text
    pub duration: Seq<char>,
    /// Start timestamp
    pub start: Seq<char>,
    /// End timestamp
    pub end: Seq<char>,
    /// The statistics of the archive
    pub stats: ArchiveStats,
}

impl View for CreateArchive {
    type V = CreateArchiveView;

    open spec fn view(&self) -> CreateArchiveView {
        CreateArchiveView {
            id: self.id@,
            name: self.name@,
            command_line: self.command_line.deep_view(),
            limits: self.limits@,
            duration: self.duration@,
            start: self.start@,
            end: self.end@,
            stats: self.stats,
        }
    }
}

/// The output of a borg create command.
///
/// Borg reports the archive it created as one `archive` object, alongside the
/// repository, cache and encryption metadata.
#[derive(Debug, Clone, PartialEq)]
pub struct Create {
    /// Information about the repository
    pub repository: Repository,
    /// Information about the cache, where borg reports one
    pub cache: Option<Cache>,
    /// Information about the encryption of the repository, where borg
    /// reports it
    pub encryption: Option<Encryption>,
    /// The archive that was created, with its statistics
    pub archive: CreateArchive,
}

/// The mathematical form of [`Create`].
pub struct CreateView {
    /// Information about the repository
    pub repository: RepositoryView,
    /// Information about the cache
    pub cache: Option<CacheView>,
    /// Information about the encryption of the repository
    pub encryption: Option<EncryptionView>,
    /// The archive that was created
    pub archive: CreateArchiveView,
}

impl View for Create {
    type V = CreateView;

    open spec fn view(&self) -> CreateView {
        CreateView {
            repository: self.repository@,
            cache: match &self.cache {
                Some(c) => Some(c@),
                None => None,
            },
            encryption: match &self.encryption {
                Some(e) => Some(e@),
                None => None,
            },
            archive: self.archive@,
        }
    }
}

/// The short form of an archive in a borg list command's output.
#[derive(Debug, Clone, PartialEq)]
pub struct ListArchive {
    /// Hexadecimal archive ID
    pub id: String,
    /// Name of the archive
    pub name: String,
    /// Start timestamp
    pub start: String,
}

/// The mathematical form of [`ListArchive`].
pub struct ListArchiveView {
    /// Hexadecimal archive ID
    pub id: Seq<char>,
    /// Name of the archive
    pub name: Seq<char>,
    /// Start timestamp
    pub start: Seq<char>,
}

impl View for ListArchive {
    type V = ListArchiveView;

    open spec fn view(&self) -> ListArchiveView {
        ListArchiveView { id: self.id@, name: self.name@, start: self.start@ }
    }
}

/// The output of a borg list command.
#[derive(Debug, Clone, PartialEq)]
pub struct ListRepository {
    /// Information about the repository
    pub repository: Repository,
    /// Information about the encryption of the repository, where borg
    /// reports it
    pub encryption: Option<Encryption>,
    /// The archives in the repository
    pub archives: Vec<ListArchive>,
}

/// The mathematical form of [`ListRepository`].
pub struct ListRepositoryView {
    /// Information about the repository
    pub repository: RepositoryView,
    /// Information about the encryption of the repository
    pub encryption: Option<EncryptionView>,
    /// The archives in the repository
    pub archives: Seq<ListArchiveView>,
}

impl View for ListRepository {
    type V = ListRepositoryView;

    open spec fn view(&self) -> ListRepositoryView {
        ListRepositoryView {
            repository: self.repository@,
            encryption: match &self.encryption {
                Some(e) => Some(e@),
                None => None,
            },
            archives: Seq::new(self.archives@.len(), |i: int| self.archives@[i]@),
        }
    }
}

/// What the `repository` object of an output blob decodes to.
pub open spec fn spec_decode_repository(doc: Seq<char>) -> Option<RepositoryView> {
    match (
        json_str(doc, "/repository/id"@),
        json_str(doc, "/repository/location"@),
        json_str(doc, "/repository/last_modified"@),
    ) {
        (Some(id), Some(location), Some(last_modified)) => Some(
            RepositoryView { id, location, last_modified },
        ),
        _ => None,
    }
}

/// What the optional `cache` object of an output blob decodes to: absent is
/// `Ok(None)`, malformed fails the blob.
pub open spec fn spec_decode_cache(doc: Seq<char>) -> Result<Option<CacheView>, ()> {
    if !json_present(doc, "/cache"@) {
        Ok(None)
    } else {
        match (
            json_str(doc, "/cache/path"@),
            json_u64(doc, "/cache/stats/total_chunks"@),
            json_u64(doc, "/cache/stats/total_csize"@),
            json_u64(doc, "/cache/stats/total_size"@),
            json_u64(doc, "/cache/stats/total_unique_chunks"@),
            json_u64(doc, "/cache/stats/unique_csize"@),
            json_u64(doc, "/cache/stats/unique_size"@),
        ) {
            (
                Some(path),
                Some(total_chunks),
                Some(total_csize),
                Some(total_size),
                Some(total_unique_chunks),
                Some(unique_csize),
                Some(unique_size),
            ) => Ok(
                Some(
                    CacheView {
                        path,
                        stats: CacheStats {
                            total_chunks,
                            total_csize,
                            total_size,
                            total_unique_chunks,
                            unique_csize,
                            unique_size,
                        },
                    },
                ),
            ),
            _ => Err(()),
        }
    }
}

/// What the optional `encryption` object of an output blob decodes to.
pub open spec fn spec_decode_encryption(doc: Seq<char>) -> Result<Option<EncryptionView>, ()> {
    if !json_present(doc, "/encryption"@) {
        Ok(None)
    } else {
        match json_str(doc, "/encryption/mode"@) {
            None => Err(()),
            Some(w) => match spec_enc_mode_of(w) {
                None => Err(()),
                Some(mode) => if !json_present(doc, "/encryption/keyfile"@) {
                    Ok(Some(EncryptionView { mode, keyfile: None }))
                } else {
                    match json_str(doc, "/encryption/keyfile"@) {
                        None => Err(()),
                        Some(k) => Ok(Some(EncryptionView { mode, keyfile: Some(k) })),
                    }
                },
            },
        }
    }
}

/// What an array of strings at a pointer path decodes to.
pub open spec fn spec_decode_str_array(doc: Seq<char>, ptr: Seq<char>) -> Option<Seq<Seq<char>>> {
    match json_arr_len(doc, ptr) {
        None => None,
        Some(n) => if forall|j: int| 0 <= j < n ==> #[trigger] json_elem_str(doc, ptr, j as u64) is Some {
            Some(Seq::new(n as nat, |j: int| json_elem_str(doc, ptr, j as u64)->Some_0))
        } else {
            None
        },
    }
}

/// What the archive statistics of an output blob decode to.
pub open spec fn spec_decode_archive_stats(doc: Seq<char>) -> Option<ArchiveStats> {
    match (
        json_u64(doc, "/archive/stats/compressed_size"@),
        json_u64(doc, "/archive/stats/deduplicated_size"@),
        json_u64(doc, "/archive/stats/nfiles"@),
        json_u64(doc, "/archive/stats/original_size"@),
    ) {
        (Some(compressed_size), Some(deduplicated_size), Some(nfiles), Some(original_size)) => Some(
            ArchiveStats { compressed_size, deduplicated_size, nfiles, original_size },
        ),
        _ => None,
    }
}

/// What the `archive` object of a create output blob decodes to.
pub open spec fn spec_decode_create_archive(doc: Seq<char>) -> Option<CreateArchiveView> {
    match (
        json_str(doc, "/archive/id"@),
        json_str(doc, "/archive/name"@),
        spec_decode_str_array(doc, "/archive/command_line"@),
        json_num_text(doc, "/archive/limits/max_archive_size"@),
        json_num_text(doc, "/archive/duration"@),
        json_str(doc, "/archive/start"@),
        json_str(doc, "/archive/end"@),
    ) {
        (Some(id), Some(name), Some(command_line), Some(ratio), Some(duration), Some(start), Some(
            end,
        )) => match spec_decode_archive_stats(doc) {
            Some(stats) => Some(
                CreateArchiveView {
                    id,
                    name,
                    command_line,
                    limits: LimitsView { max_archive_size: ratio },
                    duration,
                    start,
                    end,
                    stats,
                },
            ),
            None => None,
        },
        _ => None,
    }
}

/// What a create command's standard output decodes to.
pub open spec fn spec_decode_create(doc: Seq<char>) -> Option<CreateView> {
    match (
        spec_decode_repository(doc),
        spec_decode_cache(doc),
        spec_decode_encryption(doc),
        spec_decode_create_archive(doc),
    ) {
        (Some(repository), Ok(cache), Ok(encryption), Some(archive)) => Some(
            CreateView { repository, cache, encryption, archive },
        ),
        _ => None,
    }
}

/// What one entry of the `archives` array of a list output blob decodes to.
pub open spec fn spec_decode_list_archive(doc: Seq<char>, i: u64) -> Option<ListArchiveView> {
    match (
        json_item_str(doc, "/archives"@, i, "id"@),
        json_item_str(doc, "/archives"@, i, "name"@),
        json_item_str(doc, "/archives"@, i, "start"@),
    ) {
        (Some(id), Some(name), Some(start)) => Some(ListArchiveView { id, name, start }),
        _ => None,
    }
}

/// What the `archives` array of a list output blob decodes to.
pub open spec fn spec_decode_list_archives(doc: Seq<char>) -> Option<Seq<ListArchiveView>> {
    match json_arr_len(doc, "/archives"@) {
        None => None,
        Some(n) => if forall|j: int| 0 <= j < n ==> #[trigger] spec_decode_list_archive(doc, j as u64) is Some {
            Some(Seq::new(n as nat, |j: int| spec_decode_list_archive(doc, j as u64)->Some_0))
        } else {
            None
        },
    }
}

/// What a list command's standard output decodes to.
pub open spec fn spec_decode_list(doc: Seq<char>) -> Option<ListRepositoryView> {
    match (
        spec_decode_repository(doc),
        spec_decode_encryption(doc),
        spec_decode_list_archives(doc),
    ) {
        (Some(repository), Ok(encryption), Some(archives)) => Some(
            ListRepositoryView { repository, encryption, archives },
        ),
        _ => None,
    }
}

fn decode_repository(doc: &str) -> (r: Option<Repository>)
    ensures
        spec_decode_repository(doc@) == match r {
            Some(m) => Some(m@),
            None => None::<RepositoryView>,
        },
{
    let id = match get_str(doc, "/repository/id") {
        Some(x) => x,
        None => {
            return None;
        },
    };
    let location = match get_str(doc, "/repository/location") {
        Some(x) => x,
        None => {
            return None;
        },
    };
    let last_modified = match get_str(doc, "/repository/last_modified") {
        Some(x) => x,
        None => {
            return None;
        },
    };
    Some(Repository { id, location, last_modified })
}

fn decode_cache(doc: &str) -> (r: Result<Option<Cache>, ()>)
    ensures
        match r {
            Ok(Some(c)) => spec_decode_cache(doc@) == Ok::<Option<CacheView>, ()>(Some(c@)),
            Ok(None) => spec_decode_cache(doc@) == Ok::<Option<CacheView>, ()>(None),
            Err(()) => spec_decode_cache(doc@) is Err,
        },
{
    if !has_value(doc, "/cache") {
        return Ok(None);
    }
    let path = match get_str(doc, "/cache/path") {
        Some(x) => x,
        None => {
            return Err(());
        },
    };
    let total_chunks = match get_u64(doc, "/cache/stats/total_chunks") {
        Some(x) => x,
        None => {
            return Err(());
        },
    };
    let total_csize = match get_u64(doc, "/cache/stats/total_csize") {
        Some(x) => x,
        None => {
            return Err(());
        },
    };
    let total_size = match get_u64(doc, "/cache/stats/total_size") {
        Some(x) => x,
        None => {
            return Err(());
        },
    };
    let total_unique_chunks = match get_u64(doc, "/cache/stats/total_unique_chunks") {
        Some(x) => x,
        None => {
            return Err(());
        },
    };
    let unique_csize = match get_u64(doc, "/cache/stats/unique_csize") {
        Some(x) => x,
        None => {
            return Err(());
        },
    };
    let unique_size = match get_u64(doc, "/cache/stats/unique_size") {
        Some(x) => x,
        None => {
            return Err(());
        },
    };
    Ok(
        Some(
            Cache {
                path,
                stats: CacheStats {
                    total_chunks,
                    total_csize,
                    total_size,
                    total_unique_chunks,
                    unique_csize,
                    unique_size,
                },
            },
        ),
    )
}

fn decode_encryption(doc: &str) -> (r: Result<Option<Encryption>, ()>)
    ensures
        match r {
            Ok(Some(e)) => spec_decode_encryption(doc@) == Ok::<Option<EncryptionView>, ()>(
                Some(e@),
            ),
            Ok(None) => spec_decode_encryption(doc@) == Ok::<Option<EncryptionView>, ()>(None),
            Err(()) => spec_decode_encryption(doc@) is Err,
        },
{
    if !has_value(doc, "/encryption") {
        return Ok(None);
    }
    let w = match get_str(doc, "/encryption/mode") {
        Some(x) => x,
        None => {
            return Err(());
        },
    };
    let mode = match EncryptionMode::from_wire(w.as_str()) {
        Some(x) => x,
        None => {
            return Err(());
        },
    };
    if !has_value(doc, "/encryption/keyfile") {
        return Ok(Some(Encryption { mode, keyfile: None }));
    }
    match get_str(doc, "/encryption/keyfile") {
        Some(k) => Ok(Some(Encryption { mode, keyfile: Some(k) })),
        None => Err(()),
    }
}

fn decode_str_array(doc: &str, ptr: &str) -> (r: Option<Vec<String>>)
    ensures
        spec_decode_str_array(doc@, ptr@) == match r {
            Some(v) => Some(v.deep_view()),
            None => None::<Seq<Seq<char>>>,
        },
{
    let n = match get_arr_len(doc, ptr) {
        Some(n) => n,
        None => {
            return None;
        },
    };
    let mut out: Vec<String> = Vec::new();
    let mut i: u64 = 0;
    while i < n
        invariant
            i <= n,
            out@.len() == i,
            json_arr_len(doc@, ptr@) == Some(n),
            forall|j: int|
                0 <= j < i ==> #[trigger] json_elem_str(doc@, ptr@, j as u64) == Some(
                    out@[j]@,
                ),
        decreases n - i,
    {
        match get_elem_str(doc, ptr, i) {
            Some(s) => {
                out.push(s);
            },
            None => {
                assert(!(forall|j: int|
                    0 <= j < n ==> #[trigger] json_elem_str(doc@, ptr@, j as u64) is Some)) by {
                    assert(json_elem_str(doc@, ptr@, i as int as u64) is None);
                }
                return None;
            },
        }
        i += 1;
    }
    proof {
        let spec_arr = Seq::new(n as nat, |j: int| json_elem_str(doc@, ptr@, j as u64)->Some_0);
        assert(out.deep_view() =~= spec_arr) by {
            assert forall|j: int| 0 <= j < n implies out.deep_view()[j] == spec_arr[j] by {
                assert(json_elem_str(doc@, ptr@, j as u64) == Some(out@[j]@));
            }
        }
    }
    Some(out)
}

fn decode_archive_stats(doc: &str) -> (r: Option<ArchiveStats>)
    ensures
        spec_decode_archive_stats(doc@) == r,
{
    let compressed_size = match get_u64(doc, "/archive/stats/compressed_size") {
        Some(x) => x,
        None => {
            return None;
        },
    };
    let deduplicated_size = match get_u64(doc, "/archive/stats/deduplicated_size") {
        Some(x) => x,
        None => {
            return None;
        },
    };
    let nfiles = match get_u64(doc, "/archive/stats/nfiles") {
        Some(x) => x,
        None => {
            return None;
        },
    };
    let original_size = match get_u64(doc, "/archive/stats/original_size") {
        Some(x) => x,
        None => {
            return None;
        },
    };
    Some(ArchiveStats { compressed_size, deduplicated_size, nfiles, original_size })
}

fn decode_create_archive(doc: &str) -> (r: Option<CreateArchive>)
    ensures
        spec_decode_create_archive(doc@) == match r {
            Some(m) => Some(m@),
            None => None::<CreateArchiveView>,
        },
{
    let id = match get_str(doc, "/archive/id") {
        Some(x) => x,
        None => {
            return None;
        },
    };
    let name = match get_str(doc, "/archive/name") {
        Some(x) => x,
        None => {
            return None;
        },
    };
    let command_line = match decode_str_array(doc, "/archive/command_line") {
        Some(x) => x,
        None => {
            return None;
        },
    };
    let ratio = match get_num_text(doc, "/archive/limits/max_archive_size") {
        Some(x) => x,
        None => {
            return None;
        },
    };
    let duration = match get_num_text(doc, "/archive/duration") {
        Some(x) => x,
        None => {
            return None;
        },
    };
    let start = match get_str(doc, "/archive/start") {
        Some(x) => x,
        None => {
            return None;
        },
    };
    let end = match get_str(doc, "/archive/end") {
        Some(x) => x,
        None => {
            return None;
        },
    };
    let stats = match decode_archive_stats(doc) {
        Some(x) => x,
        None => {
            return None;
        },
    };
    Some(
        CreateArchive {
            id,
            name,
            command_line,
            limits: Limits { max_archive_size: ratio },
            duration,
            start,
            end,
            stats,
        },
    )
}

impl Create {
    /// Decode a create command's standard output.
    pub fn from_str(doc: &str) -> (r: Option<Create>)
        ensures
            spec_decode_create(doc@) == match r {
                Some(m) => Some(m@),
                None => None::<CreateView>,
            },
    {
        let repository = match decode_repository(doc) {
            Some(x) => x,
            None => {
                return None;
            },
        };
        let cache = match decode_cache(doc) {
            Ok(x) => x,
            Err(()) => {
                return None;
            },
        };
        let encryption = match decode_encryption(doc) {
            Ok(x) => x,
            Err(()) => {
                return None;
            },
        };
        let archive = match decode_create_archive(doc) {
            Some(x) => x,
            None => {
                return None;
            },
        };
        Some(Create { repository, cache, encryption, archive })
    }
}

fn decode_list_archive(doc: &str, i: u64) -> (r: Option<ListArchive>)
    ensures
        spec_decode_list_archive(doc@, i) == match r {
            Some(m) => Some(m@),
            None => None::<ListArchiveView>,
        },
{
    let id = match get_item_str(doc, "/archives", i, "id") {
        Some(x) => x,
        None => {
            return None;
        },
    };
    let name = match get_item_str(doc, "/archives", i, "name") {
        Some(x) => x,
        None => {
            return None;
        },
    };
    let start = match get_item_str(doc, "/archives", i, "start") {
        Some(x) => x,
        None => {
            return None;
        },
    };
    Some(ListArchive { id, name, start })
}

fn decode_list_archives(doc: &str) -> (r: Option<Vec<ListArchive>>)
    ensures
        spec_decode_list_archives(doc@) == match r {
            Some(v) => Some(Seq::new(v@.len(), |j: int| v@[j]@)),
            None => None::<Seq<ListArchiveView>>,
        },
{
    let n = match get_arr_len(doc, "/archives") {
        Some(n) => n,
        None => {
            return None;
        },
    };
    let mut out: Vec<ListArchive> = Vec::new();
    let mut i: u64 = 0;
    while i < n
        invariant
            i <= n,
            out@.len() == i,
            json_arr_len(doc@, "/archives"@) == Some(n),
            forall|j: int|
                0 <= j < i ==> #[trigger] spec_decode_list_archive(doc@, j as u64) == Some(
                    out@[j]@,
                ),
        decreases n - i,
    {
        match decode_list_archive(doc, i) {
            Some(a) => {
                out.push(a);
            },
            None => {
                assert(!(forall|j: int|
                    0 <= j < n ==> #[trigger] spec_decode_list_archive(doc@, j as u64) is Some))
                    by {
                    assert(spec_decode_list_archive(doc@, i as int as u64) is None);
                }
                return None;
            },
        }
        i += 1;
    }
    proof {
        let spec_arr = Seq::new(
            n as nat,
            |j: int| spec_decode_list_archive(doc@, j as u64)->Some_0,
        );
        assert(Seq::new(out@.len(), |j: int| out@[j]@) =~= spec_arr) by {
            assert forall|j: int| 0 <= j < n implies Seq::new(out@.len(), |j: int| out@[j]@)[j]
                == spec_arr[j] by {
                assert(spec_decode_list_archive(doc@, j as u64) == Some(out@[j]@));
            }
        }
    }
    Some(out)
}

impl ListRepository {
    /// Decode a list command's standard output.
    pub fn from_str(doc: &str) -> (r: Option<ListRepository>)
        ensures
            spec_decode_list(doc@) == match r {
                Some(m) => Some(m@),
                None => None::<ListRepositoryView>,
            },
    {
        let repository = match decode_repository(doc) {
            Some(x) => x,
            None => {
                return None;
            },
        };
        let encryption = match decode_encryption(doc) {
            Ok(x) => x,
            Err(()) => {
                return None;
            },
        };
        let archives = match decode_list_archives(doc) {
            Some(x) => x,
            None => {
                return None;
            },
        };
        Some(ListRepository { repository, encryption, archives })
    }
}

} // verus!
