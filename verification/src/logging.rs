//! The record schema of borg's structured log channel: log levels, the closed
//! catalog of machine-readable message identifiers, and the tagged records the
//! channel carries.

use vstd::prelude::*;

use crate::json::{
    get_arr_len, get_bool, get_num_text, get_str, get_u64, has_value, is_json_object, json_arr_len,
    json_bool, json_num_text, json_object, json_present, json_str, json_u64,
};
use crate::text::{has_prefix, spec_has_prefix, str_eq};

verus! {

/// Message identifiers give a log message or operation a stable,
/// machine-readable name, independent of the free log text. The catalog is
/// closed: a line carrying an identifier outside it does not decode.
#[derive(Debug, Clone, Copy, PartialEq, Eq, Structural)]
pub enum MessageId {
    /// Archive {} already exists
    ArchiveAlreadyExists,
    /// Archive {} does not exist
    ArchiveDoesNotExist,
    /// Failed to encode filename into the file system encoding
    ArchiveIncompatibleFilesystemEncodingError,
    /// Obscure ENOENT error
    BackupFileNotFoundError,
    /// Cache initialization aborted
    CacheCacheInitAbortedError,
    /// Repository encryption method changed since last access
    CacheEncryptionMethodMismatch,
    /// Repository access aborted
    CacheRepositoryAccessAborted,
    /// Cache is newer than repository: multiple repos with same ID?
    CacheRepositoryIDNotUnique,
    /// Cache is newer than repository: an attack or multiple repos with same ID
    CacheRepositoryReplay,
    /// Requested buffer size is above the limit
    BufferMemoryLimitExceeded,
    /// The borg binary extension modules are not properly installed
    ExtensionModuleError,
    /// Data integrity error
    IntegrityError,
    /// Repository has no manifest
    NoManifestError,
    /// Formatting error in a placeholder
    PlaceholderError,
    /// Invalid key file for the repository
    KeyfileInvalidError,
    /// Mismatch between repository and key file
    KeyfileMismatchError,
    /// No key file for the repository found
    KeyfileNotFoundError,
    /// The supplied passphrase is incorrect
    PassphraseWrong,
    /// Exceeded the maximum password retries
    PasswordRetriesExceeded,
    /// No key entry found in the config of the repository
    RepoKeyNotFoundError,
    /// Unsupported manifest envelope; a newer version is required
    UnsupportedManifestError,
    /// Unsupported payload type; a newer version is required
    UnsupportedPayloadError,
    /// The file is not a borg key backup
    NotABorgKeyFile,
    /// The key backup is for a different backup repository
    RepoIdMismatch,
    /// Key management not available for unencrypted repositories
    UnencryptedRepo,
    /// The key type is unknown
    UnknownKeyType,
    /// Failed to acquire the lock
    LockError,
    /// Failed to acquire the lock (traceback shown)
    LockErrorT,
    /// Connection closed by remote host
    ConnectionClosed,
    /// The RPC method is not valid
    InvalidRPCMethod,
    /// Repository path not allowed
    PathNotAllowed,
    /// No passphrase was provided for an encrypted repository
    NoPassphraseFailure,
    /// The borg server is too old; a newer version is required
    RemoteRepositoryRPCServerOutdated,
    /// Unexpected RPC data format from the client
    UnexpectedRPCDataFormatFromClient,
    /// Unexpected RPC data format from the server
    UnexpectedRPCDataFormatFromServer,
    /// Repository {} already exists
    RepositoryAlreadyExists,
    /// Inconsistency detected; a repository check is needed
    RepositoryCheckNeeded,
    /// Repository {} does not exist
    RepositoryDoesNotExist,
    /// Insufficient free space to complete the transaction
    RepositoryInsufficientFreeSpaceError,
    /// Not a valid repository
    RepositoryInvalidRepository,
    /// Attic repository detected; an upgrade is needed
    RepositoryAtticRepository,
    /// Object with the given key not found in the repository
    RepositoryObjectNotFound,
    /// Begin a cache transaction
    CacheBeginTransaction,
    /// Appears with borg create --no-cache-sync
    CacheDownloadChunks,
    /// Commit a cache transaction
    CacheCommit,
    /// The name of the archive currently synced
    CacheSync,
    /// Compact segments of the repository
    RepositoryCompactSegments,
    /// Replay segments of the repository
    RepositoryReplaySegments,
    /// Check the repository
    RepositoryCheck,
    /// Verify data during a check
    CheckVerifyData,
    /// Rebuild the manifest during a check
    CheckRebuildManifest,
    /// The name of the path currently extracted
    Extract,
    /// Apply permissions during extraction
    ExtractPermissions,
    /// Delete an archive
    ArchiveDelete,
    /// Calculate archive statistics
    ArchiveCalcStats,
    /// Prune archives
    Prune,
    /// Convert segments during an upgrade
    UpgradeConvertSegments,
}

/// The wire form of a message identifier: the dotted string borg writes in
/// the `msgid` field.
pub open spec fn spec_wire_of(id: MessageId) -> Seq<char> {
    match id {
        MessageId::ArchiveAlreadyExists => "Archive.AlreadyExists"@,
        MessageId::ArchiveDoesNotExist => "Archive.DoesNotExist"@,
        MessageId::ArchiveIncompatibleFilesystemEncodingError => "Archive.IncompatibleFilesystemEncodingError"@,
        MessageId::BackupFileNotFoundError => "BackupFileNotFoundError"@,
        MessageId::CacheCacheInitAbortedError => "Cache.CacheInitAbortedError"@,
        MessageId::CacheEncryptionMethodMismatch => "Cache.EncryptionMethodMismatch"@,
        MessageId::CacheRepositoryAccessAborted => "Cache.RepositoryAccessAborted"@,
        MessageId::CacheRepositoryIDNotUnique => "Cache.RepositoryIDNotUnique"@,
        MessageId::CacheRepositoryReplay => "Cache.RepositoryReplay"@,
        MessageId::BufferMemoryLimitExceeded => "Buffer.MemoryLimitExceeded"@,
        MessageId::ExtensionModuleError => "ExtensionModuleError"@,
        MessageId::IntegrityError => "IntegrityError"@,
        MessageId::NoManifestError => "NoManifestError"@,
        MessageId::PlaceholderError => "PlaceholderError"@,
        MessageId::KeyfileInvalidError => "KeyfileInvalidError"@,
        MessageId::KeyfileMismatchError => "KeyfileMismatchError"@,
        MessageId::KeyfileNotFoundError => "KeyfileNotFoundError"@,
        MessageId::PassphraseWrong => "PassphraseWrong"@,
        MessageId::PasswordRetriesExceeded => "PasswordRetriesExceeded"@,
        MessageId::RepoKeyNotFoundError => "RepoKeyNotFoundError"@,
        MessageId::UnsupportedManifestError => "UnsupportedManifestError"@,
        MessageId::UnsupportedPayloadError => "UnsupportedPayloadError"@,
        MessageId::NotABorgKeyFile => "NotABorgKeyFile"@,
        MessageId::RepoIdMismatch => "RepoIdMismatch"@,
        MessageId::UnencryptedRepo => "UnencryptedRepo"@,
        MessageId::UnknownKeyType => "UnknownKeyType"@,
        MessageId::LockError => "LockError"@,
        MessageId::LockErrorT => "LockErrorT"@,
        MessageId::ConnectionClosed => "ConnectionClosed"@,
        MessageId::InvalidRPCMethod => "InvalidRPCMethod"@,
        MessageId::PathNotAllowed => "PathNotAllowed"@,
        MessageId::NoPassphraseFailure => "NoPassphraseFailure"@,
        MessageId::RemoteRepositoryRPCServerOutdated => "RemoteRepository.RPCServerOutdated"@,
        MessageId::UnexpectedRPCDataFormatFromClient => "UnexpectedRPCDataFormatFromClient"@,
        MessageId::UnexpectedRPCDataFormatFromServer => "UnexpectedRPCDataFormatFromServer"@,
        MessageId::RepositoryAlreadyExists => "Repository.AlreadyExists"@,
        MessageId::RepositoryCheckNeeded => "Repository.CheckNeeded"@,
        MessageId::RepositoryDoesNotExist => "Repository.DoesNotExist"@,
        MessageId::RepositoryInsufficientFreeSpaceError => "Repository.InsufficientFreeSpaceError"@,
        MessageId::RepositoryInvalidRepository => "Repository.InvalidRepository"@,
        MessageId::RepositoryAtticRepository => "Repository.AtticRepository"@,
        MessageId::RepositoryObjectNotFound => "Repository.ObjectNotFound"@,
        MessageId::CacheBeginTransaction => "cache.begin_transaction"@,
        MessageId::CacheDownloadChunks => "cache.download_chunks"@,
        MessageId::CacheCommit => "cache.commit"@,
        MessageId::CacheSync => "cache.sync"@,
        MessageId::RepositoryCompactSegments => "repository.compact_segments"@,
        MessageId::RepositoryReplaySegments => "repository.replay_segments"@,
        MessageId::RepositoryCheck => "repository.check"@,
        MessageId::CheckVerifyData => "check.verify_data"@,
        MessageId::CheckRebuildManifest => "check.rebuild_manifest"@,
        MessageId::Extract => "extract"@,
        MessageId::ExtractPermissions => "extract.permissions"@,
        MessageId::ArchiveDelete => "archive.delete"@,
        MessageId::ArchiveCalcStats => "archive.calc_stats"@,
        MessageId::Prune => "prune"@,
        MessageId::UpgradeConvertSegments => "upgrade.convert_segments"@,
    }
}

/// The identifier a wire string denotes, if it is in the catalog.
pub open spec fn spec_msg_id_of(s: Seq<char>) -> Option<MessageId> {
    if s == "Archive.AlreadyExists"@ {
        Some(MessageId::ArchiveAlreadyExists)
    } else if s == "Archive.DoesNotExist"@ {
        Some(MessageId::ArchiveDoesNotExist)
    } else if s == "Archive.IncompatibleFilesystemEncodingError"@ {
        Some(MessageId::ArchiveIncompatibleFilesystemEncodingError)
    } else if s == "BackupFileNotFoundError"@ {
        Some(MessageId::BackupFileNotFoundError)
    } else if s == "Cache.CacheInitAbortedError"@ {
        Some(MessageId::CacheCacheInitAbortedError)
    } else if s == "Cache.EncryptionMethodMismatch"@ {
        Some(MessageId::CacheEncryptionMethodMismatch)
    } else if s == "Cache.RepositoryAccessAborted"@ {
        Some(MessageId::CacheRepositoryAccessAborted)
    } else if s == "Cache.RepositoryIDNotUnique"@ {
        Some(MessageId::CacheRepositoryIDNotUnique)
    } else if s == "Cache.RepositoryReplay"@ {
        Some(MessageId::CacheRepositoryReplay)
    } else if s == "Buffer.MemoryLimitExceeded"@ {
        Some(MessageId::BufferMemoryLimitExceeded)
    } else if s == "ExtensionModuleError"@ {
        Some(MessageId::ExtensionModuleError)
    } else if s == "IntegrityError"@ {
        Some(MessageId::IntegrityError)
    } else if s == "NoManifestError"@ {
        Some(MessageId::NoManifestError)
    } else if s == "PlaceholderError"@ {
        Some(MessageId::PlaceholderError)
    } else if s == "KeyfileInvalidError"@ {
        Some(MessageId::KeyfileInvalidError)
    } else if s == "KeyfileMismatchError"@ {
        Some(MessageId::KeyfileMismatchError)
    } else if s == "KeyfileNotFoundError"@ {
        Some(MessageId::KeyfileNotFoundError)
    } else if s == "PassphraseWrong"@ {
        Some(MessageId::PassphraseWrong)
    } else if s == "PasswordRetriesExceeded"@ {
        Some(MessageId::PasswordRetriesExceeded)
    } else if s == "RepoKeyNotFoundError"@ {
        Some(MessageId::RepoKeyNotFoundError)
    } else if s == "UnsupportedManifestError"@ {
        Some(MessageId::UnsupportedManifestError)
    } else if s == "UnsupportedPayloadError"@ {
        Some(MessageId::UnsupportedPayloadError)
    } else if s == "NotABorgKeyFile"@ {
        Some(MessageId::NotABorgKeyFile)
    } else if s == "RepoIdMismatch"@ {
        Some(MessageId::RepoIdMismatch)
    } else if s == "UnencryptedRepo"@ {
        Some(MessageId::UnencryptedRepo)
    } else if s == "UnknownKeyType"@ {
        Some(MessageId::UnknownKeyType)
    } else if s == "LockError"@ {
        Some(MessageId::LockError)
    } else if s == "LockErrorT"@ {
        Some(MessageId::LockErrorT)
    } else if s == "ConnectionClosed"@ {
        Some(MessageId::ConnectionClosed)
    } else if s == "InvalidRPCMethod"@ {
        Some(MessageId::InvalidRPCMethod)
    } else if s == "PathNotAllowed"@ {
        Some(MessageId::PathNotAllowed)
    } else if s == "NoPassphraseFailure"@ {
        Some(MessageId::NoPassphraseFailure)
    } else if s == "RemoteRepository.RPCServerOutdated"@ {
        Some(MessageId::RemoteRepositoryRPCServerOutdated)
    } else if s == "UnexpectedRPCDataFormatFromClient"@ {
        Some(MessageId::UnexpectedRPCDataFormatFromClient)
    } else if s == "UnexpectedRPCDataFormatFromServer"@ {
        Some(MessageId::UnexpectedRPCDataFormatFromServer)
    } else if s == "Repository.AlreadyExists"@ {
        Some(MessageId::RepositoryAlreadyExists)
    } else if s == "Repository.CheckNeeded"@ {
        Some(MessageId::RepositoryCheckNeeded)
    } else if s == "Repository.DoesNotExist"@ {
        Some(MessageId::RepositoryDoesNotExist)
    } else if s == "Repository.InsufficientFreeSpaceError"@ {
        Some(MessageId::RepositoryInsufficientFreeSpaceError)
    } else if s == "Repository.InvalidRepository"@ {
        Some(MessageId::RepositoryInvalidRepository)
    } else if s == "Repository.AtticRepository"@ {
        Some(MessageId::RepositoryAtticRepository)
    } else if s == "Repository.ObjectNotFound"@ {
        Some(MessageId::RepositoryObjectNotFound)
    } else if s == "cache.begin_transaction"@ {
        Some(MessageId::CacheBeginTransaction)
    } else if s == "cache.download_chunks"@ {
        Some(MessageId::CacheDownloadChunks)
    } else if s == "cache.commit"@ {
        Some(MessageId::CacheCommit)
    } else if s == "cache.sync"@ {
        Some(MessageId::CacheSync)
    } else if s == "repository.compact_segments"@ {
        Some(MessageId::RepositoryCompactSegments)
    } else if s == "repository.replay_segments"@ {
        Some(MessageId::RepositoryReplaySegments)
    } else if s == "repository.check"@ {
        Some(MessageId::RepositoryCheck)
    } else if s == "check.verify_data"@ {
        Some(MessageId::CheckVerifyData)
    } else if s == "check.rebuild_manifest"@ {
        Some(MessageId::CheckRebuildManifest)
    } else if s == "extract"@ {
        Some(MessageId::Extract)
    } else if s == "extract.permissions"@ {
        Some(MessageId::ExtractPermissions)
    } else if s == "archive.delete"@ {
        Some(MessageId::ArchiveDelete)
    } else if s == "archive.calc_stats"@ {
        Some(MessageId::ArchiveCalcStats)
    } else if s == "prune"@ {
        Some(MessageId::Prune)
    } else if s == "upgrade.convert_segments"@ {
        Some(MessageId::UpgradeConvertSegments)
    } else {
        None
    }
}

impl MessageId {
    /// The dotted string borg writes for this identifier.
    pub fn as_wire(&self) -> (r: &'static str)
        ensures
            r@ == spec_wire_of(*self),
    {
        match self {
            MessageId::ArchiveAlreadyExists => "Archive.AlreadyExists",
            MessageId::ArchiveDoesNotExist => "Archive.DoesNotExist",
            MessageId::ArchiveIncompatibleFilesystemEncodingError => "Archive.IncompatibleFilesystemEncodingError",
            MessageId::BackupFileNotFoundError => "BackupFileNotFoundError",
            MessageId::CacheCacheInitAbortedError => "Cache.CacheInitAbortedError",
            MessageId::CacheEncryptionMethodMismatch => "Cache.EncryptionMethodMismatch",
            MessageId::CacheRepositoryAccessAborted => "Cache.RepositoryAccessAborted",
            MessageId::CacheRepositoryIDNotUnique => "Cache.RepositoryIDNotUnique",
            MessageId::CacheRepositoryReplay => "Cache.RepositoryReplay",
            MessageId::BufferMemoryLimitExceeded => "Buffer.MemoryLimitExceeded",
            MessageId::ExtensionModuleError => "ExtensionModuleError",
            MessageId::IntegrityError => "IntegrityError",
            MessageId::NoManifestError => "NoManifestError",
            MessageId::PlaceholderError => "PlaceholderError",
            MessageId::KeyfileInvalidError => "KeyfileInvalidError",
            MessageId::KeyfileMismatchError => "KeyfileMismatchError",
            MessageId::KeyfileNotFoundError => "KeyfileNotFoundError",
            MessageId::PassphraseWrong => "PassphraseWrong",
            MessageId::PasswordRetriesExceeded => "PasswordRetriesExceeded",
            MessageId::RepoKeyNotFoundError => "RepoKeyNotFoundError",
            MessageId::UnsupportedManifestError => "UnsupportedManifestError",
            MessageId::UnsupportedPayloadError => "UnsupportedPayloadError",
            MessageId::NotABorgKeyFile => "NotABorgKeyFile",
            MessageId::RepoIdMismatch => "RepoIdMismatch",
            MessageId::UnencryptedRepo => "UnencryptedRepo",
            MessageId::UnknownKeyType => "UnknownKeyType",
            MessageId::LockError => "LockError",
            MessageId::LockErrorT => "LockErrorT",
            MessageId::ConnectionClosed => "ConnectionClosed",
            MessageId::InvalidRPCMethod => "InvalidRPCMethod",
            MessageId::PathNotAllowed => "PathNotAllowed",
            MessageId::NoPassphraseFailure => "NoPassphraseFailure",
            MessageId::RemoteRepositoryRPCServerOutdated => "RemoteRepository.RPCServerOutdated",
            MessageId::UnexpectedRPCDataFormatFromClient => "UnexpectedRPCDataFormatFromClient",
            MessageId::UnexpectedRPCDataFormatFromServer => "UnexpectedRPCDataFormatFromServer",
            MessageId::RepositoryAlreadyExists => "Repository.AlreadyExists",
            MessageId::RepositoryCheckNeeded => "Repository.CheckNeeded",
            MessageId::RepositoryDoesNotExist => "Repository.DoesNotExist",
            MessageId::RepositoryInsufficientFreeSpaceError => "Repository.InsufficientFreeSpaceError",
            MessageId::RepositoryInvalidRepository => "Repository.InvalidRepository",
            MessageId::RepositoryAtticRepository => "Repository.AtticRepository",
            MessageId::RepositoryObjectNotFound => "Repository.ObjectNotFound",
            MessageId::CacheBeginTransaction => "cache.begin_transaction",
            MessageId::CacheDownloadChunks => "cache.download_chunks",
            MessageId::CacheCommit => "cache.commit",
            MessageId::CacheSync => "cache.sync",
            MessageId::RepositoryCompactSegments => "repository.compact_segments",
            MessageId::RepositoryReplaySegments => "repository.replay_segments",
            MessageId::RepositoryCheck => "repository.check",
            MessageId::CheckVerifyData => "check.verify_data",
            MessageId::CheckRebuildManifest => "check.rebuild_manifest",
            MessageId::Extract => "extract",
            MessageId::ExtractPermissions => "extract.permissions",
            MessageId::ArchiveDelete => "archive.delete",
            MessageId::ArchiveCalcStats => "archive.calc_stats",
            MessageId::Prune => "prune",
            MessageId::UpgradeConvertSegments => "upgrade.convert_segments",
        }
    }

    /// Look a wire string up in the catalog.
    pub fn from_wire(s: &str) -> (r: Option<MessageId>)
        ensures
            r == spec_msg_id_of(s@),
    {
        if str_eq(s, "Archive.AlreadyExists") {
            Some(MessageId::ArchiveAlreadyExists)
        } else if str_eq(s, "Archive.DoesNotExist") {
            Some(MessageId::ArchiveDoesNotExist)
        } else if str_eq(s, "Archive.IncompatibleFilesystemEncodingError") {
            Some(MessageId::ArchiveIncompatibleFilesystemEncodingError)
        } else if str_eq(s, "BackupFileNotFoundError") {
            Some(MessageId::BackupFileNotFoundError)
        } else if str_eq(s, "Cache.CacheInitAbortedError") {
            Some(MessageId::CacheCacheInitAbortedError)
        } else if str_eq(s, "Cache.EncryptionMethodMismatch") {
            Some(MessageId::CacheEncryptionMethodMismatch)
        } else if str_eq(s, "Cache.RepositoryAccessAborted") {
            Some(MessageId::CacheRepositoryAccessAborted)
        } else if str_eq(s, "Cache.RepositoryIDNotUnique") {
            Some(MessageId::CacheRepositoryIDNotUnique)
        } else if str_eq(s, "Cache.RepositoryReplay") {
            Some(MessageId::CacheRepositoryReplay)
        } else if str_eq(s, "Buffer.MemoryLimitExceeded") {
            Some(MessageId::BufferMemoryLimitExceeded)
        } else if str_eq(s, "ExtensionModuleError") {
            Some(MessageId::ExtensionModuleError)
        } else if str_eq(s, "IntegrityError") {
            Some(MessageId::IntegrityError)
        } else if str_eq(s, "NoManifestError") {
            Some(MessageId::NoManifestError)
        } else if str_eq(s, "PlaceholderError") {
            Some(MessageId::PlaceholderError)
        } else if str_eq(s, "KeyfileInvalidError") {
            Some(MessageId::KeyfileInvalidError)
        } else if str_eq(s, "KeyfileMismatchError") {
            Some(MessageId::KeyfileMismatchError)
        } else if str_eq(s, "KeyfileNotFoundError") {
            Some(MessageId::KeyfileNotFoundError)
        } else if str_eq(s, "PassphraseWrong") {
            Some(MessageId::PassphraseWrong)
        } else if str_eq(s, "PasswordRetriesExceeded") {
            Some(MessageId::PasswordRetriesExceeded)
        } else if str_eq(s, "RepoKeyNotFoundError") {
            Some(MessageId::RepoKeyNotFoundError)
        } else if str_eq(s, "UnsupportedManifestError") {
            Some(MessageId::UnsupportedManifestError)
        } else if str_eq(s, "UnsupportedPayloadError") {
            Some(MessageId::UnsupportedPayloadError)
        } else if str_eq(s, "NotABorgKeyFile") {
            Some(MessageId::NotABorgKeyFile)
        } else if str_eq(s, "RepoIdMismatch") {
            Some(MessageId::RepoIdMismatch)
        } else if str_eq(s, "UnencryptedRepo") {
            Some(MessageId::UnencryptedRepo)
        } else if str_eq(s, "UnknownKeyType") {
            Some(MessageId::UnknownKeyType)
        } else if str_eq(s, "LockError") {
            Some(MessageId::LockError)
        } else if str_eq(s, "LockErrorT") {
            Some(MessageId::LockErrorT)
        } else if str_eq(s, "ConnectionClosed") {
            Some(MessageId::ConnectionClosed)
        } else if str_eq(s, "InvalidRPCMethod") {
            Some(MessageId::InvalidRPCMethod)
        } else if str_eq(s, "PathNotAllowed") {
            Some(MessageId::PathNotAllowed)
        } else if str_eq(s, "NoPassphraseFailure") {
            Some(MessageId::NoPassphraseFailure)
        } else if str_eq(s, "RemoteRepository.RPCServerOutdated") {
            Some(MessageId::RemoteRepositoryRPCServerOutdated)
        } else if str_eq(s, "UnexpectedRPCDataFormatFromClient") {
            Some(MessageId::UnexpectedRPCDataFormatFromClient)
        } else if str_eq(s, "UnexpectedRPCDataFormatFromServer") {
            Some(MessageId::UnexpectedRPCDataFormatFromServer)
        } else if str_eq(s, "Repository.AlreadyExists") {
            Some(MessageId::RepositoryAlreadyExists)
        } else if str_eq(s, "Repository.CheckNeeded") {
            Some(MessageId::RepositoryCheckNeeded)
        } else if str_eq(s, "Repository.DoesNotExist") {
            Some(MessageId::RepositoryDoesNotExist)
        } else if str_eq(s, "Repository.InsufficientFreeSpaceError") {
            Some(MessageId::RepositoryInsufficientFreeSpaceError)
        } else if str_eq(s, "Repository.InvalidRepository") {
            Some(MessageId::RepositoryInvalidRepository)
        } else if str_eq(s, "Repository.AtticRepository") {
            Some(MessageId::RepositoryAtticRepository)
        } else if str_eq(s, "Repository.ObjectNotFound") {
            Some(MessageId::RepositoryObjectNotFound)
        } else if str_eq(s, "cache.begin_transaction") {
            Some(MessageId::CacheBeginTransaction)
        } else if str_eq(s, "cache.download_chunks") {
            Some(MessageId::CacheDownloadChunks)
        } else if str_eq(s, "cache.commit") {
            Some(MessageId::CacheCommit)
        } else if str_eq(s, "cache.sync") {
            Some(MessageId::CacheSync)
        } else if str_eq(s, "repository.compact_segments") {
            Some(MessageId::RepositoryCompactSegments)
        } else if str_eq(s, "repository.replay_segments") {
            Some(MessageId::RepositoryReplaySegments)
        } else if str_eq(s, "repository.check") {
            Some(MessageId::RepositoryCheck)
        } else if str_eq(s, "check.verify_data") {
            Some(MessageId::CheckVerifyData)
        } else if str_eq(s, "check.rebuild_manifest") {
            Some(MessageId::CheckRebuildManifest)
        } else if str_eq(s, "extract") {
            Some(MessageId::Extract)
        } else if str_eq(s, "extract.permissions") {
            Some(MessageId::ExtractPermissions)
        } else if str_eq(s, "archive.delete") {
            Some(MessageId::ArchiveDelete)
        } else if str_eq(s, "archive.calc_stats") {
            Some(MessageId::ArchiveCalcStats)
        } else if str_eq(s, "prune") {
            Some(MessageId::Prune)
        } else if str_eq(s, "upgrade.convert_segments") {
            Some(MessageId::UpgradeConvertSegments)
        } else {
            None
        }
    }
}

/// Every identifier's wire string maps back to that identifier: the closed
/// catalog round-trips. The proof pins each wire literal's length and, for
/// the pairs of equal length, one character where they differ.
#[verifier::rlimit(100)]
pub proof fn lemma_msg_id_roundtrip(id: MessageId)
    ensures
        spec_msg_id_of(spec_wire_of(id)) == Some(id),
{
    reveal_strlit("Archive.AlreadyExists");
    reveal_strlit("Archive.DoesNotExist");
    reveal_strlit("Archive.IncompatibleFilesystemEncodingError");
    reveal_strlit("BackupFileNotFoundError");
    reveal_strlit("Cache.CacheInitAbortedError");
    reveal_strlit("Cache.EncryptionMethodMismatch");
    reveal_strlit("Cache.RepositoryAccessAborted");
    reveal_strlit("Cache.RepositoryIDNotUnique");
    reveal_strlit("Cache.RepositoryReplay");
    reveal_strlit("Buffer.MemoryLimitExceeded");
    reveal_strlit("ExtensionModuleError");
    reveal_strlit("IntegrityError");
    reveal_strlit("NoManifestError");
    reveal_strlit("PlaceholderError");
    reveal_strlit("KeyfileInvalidError");
    reveal_strlit("KeyfileMismatchError");
    reveal_strlit("KeyfileNotFoundError");
    reveal_strlit("PassphraseWrong");
    reveal_strlit("PasswordRetriesExceeded");
    reveal_strlit("RepoKeyNotFoundError");
    reveal_strlit("UnsupportedManifestError");
    reveal_strlit("UnsupportedPayloadError");
    reveal_strlit("NotABorgKeyFile");
    reveal_strlit("RepoIdMismatch");
    reveal_strlit("UnencryptedRepo");
    reveal_strlit("UnknownKeyType");
    reveal_strlit("LockError");
    reveal_strlit("LockErrorT");
    reveal_strlit("ConnectionClosed");
    reveal_strlit("InvalidRPCMethod");
    reveal_strlit("PathNotAllowed");
    reveal_strlit("NoPassphraseFailure");
    reveal_strlit("RemoteRepository.RPCServerOutdated");
    reveal_strlit("UnexpectedRPCDataFormatFromClient");
    reveal_strlit("UnexpectedRPCDataFormatFromServer");
    reveal_strlit("Repository.AlreadyExists");
    reveal_strlit("Repository.CheckNeeded");
    reveal_strlit("Repository.DoesNotExist");
    reveal_strlit("Repository.InsufficientFreeSpaceError");
    reveal_strlit("Repository.InvalidRepository");
    reveal_strlit("Repository.AtticRepository");
    reveal_strlit("Repository.ObjectNotFound");
    reveal_strlit("cache.begin_transaction");
    reveal_strlit("cache.download_chunks");
    reveal_strlit("cache.commit");
    reveal_strlit("cache.sync");
    reveal_strlit("repository.compact_segments");
    reveal_strlit("repository.replay_segments");
    reveal_strlit("repository.check");
    reveal_strlit("check.verify_data");
    reveal_strlit("check.rebuild_manifest");
    reveal_strlit("extract");
    reveal_strlit("extract.permissions");
    reveal_strlit("archive.delete");
    reveal_strlit("archive.calc_stats");
    reveal_strlit("prune");
    reveal_strlit("upgrade.convert_segments");
    assert("Archive.AlreadyExists"@.len() == 21);
    assert("Archive.DoesNotExist"@.len() == 20);
    assert("Archive.IncompatibleFilesystemEncodingError"@.len() == 43);
    assert("BackupFileNotFoundError"@.len() == 23);
    assert("Cache.CacheInitAbortedError"@.len() == 27);
    assert("Cache.EncryptionMethodMismatch"@.len() == 30);
    assert("Cache.RepositoryAccessAborted"@.len() == 29);
    assert("Cache.RepositoryIDNotUnique"@.len() == 27);
    assert("Cache.RepositoryReplay"@.len() == 22);
    assert("Buffer.MemoryLimitExceeded"@.len() == 26);
    assert("ExtensionModuleError"@.len() == 20);
    assert("IntegrityError"@.len() == 14);
    assert("NoManifestError"@.len() == 15);
    assert("PlaceholderError"@.len() == 16);
    assert("KeyfileInvalidError"@.len() == 19);
    assert("KeyfileMismatchError"@.len() == 20);
    assert("KeyfileNotFoundError"@.len() == 20);
    assert("PassphraseWrong"@.len() == 15);
    assert("PasswordRetriesExceeded"@.len() == 23);
    assert("RepoKeyNotFoundError"@.len() == 20);
    assert("UnsupportedManifestError"@.len() == 24);
    assert("UnsupportedPayloadError"@.len() == 23);
    assert("NotABorgKeyFile"@.len() == 15);
    assert("RepoIdMismatch"@.len() == 14);
    assert("UnencryptedRepo"@.len() == 15);
    assert("UnknownKeyType"@.len() == 14);
    assert("LockError"@.len() == 9);
    assert("LockErrorT"@.len() == 10);
    assert("ConnectionClosed"@.len() == 16);
    assert("InvalidRPCMethod"@.len() == 16);
    assert("PathNotAllowed"@.len() == 14);
    assert("NoPassphraseFailure"@.len() == 19);
    assert("RemoteRepository.RPCServerOutdated"@.len() == 34);
    assert("UnexpectedRPCDataFormatFromClient"@.len() == 33);
    assert("UnexpectedRPCDataFormatFromServer"@.len() == 33);
    assert("Repository.AlreadyExists"@.len() == 24);
    assert("Repository.CheckNeeded"@.len() == 22);
    assert("Repository.DoesNotExist"@.len() == 23);
    assert("Repository.InsufficientFreeSpaceError"@.len() == 37);
    assert("Repository.InvalidRepository"@.len() == 28);
    assert("Repository.AtticRepository"@.len() == 26);
    assert("Repository.ObjectNotFound"@.len() == 25);
    assert("cache.begin_transaction"@.len() == 23);
    assert("cache.download_chunks"@.len() == 21);
    assert("cache.commit"@.len() == 12);
    assert("cache.sync"@.len() == 10);
    assert("repository.compact_segments"@.len() == 27);
    assert("repository.replay_segments"@.len() == 26);
    assert("repository.check"@.len() == 16);
    assert("check.verify_data"@.len() == 17);
    assert("check.rebuild_manifest"@.len() == 22);
    assert("extract"@.len() == 7);
    assert("extract.permissions"@.len() == 19);
    assert("archive.delete"@.len() == 14);
    assert("archive.calc_stats"@.len() == 18);
    assert("prune"@.len() == 5);
    assert("upgrade.convert_segments"@.len() == 24);
    assert("LockErrorT"@[0] != "cache.sync"@[0]);
    assert("IntegrityError"@[0] != "RepoIdMismatch"@[0]);
    assert("IntegrityError"@[0] != "UnknownKeyType"@[0]);
    assert("IntegrityError"@[0] != "PathNotAllowed"@[0]);
    assert("IntegrityError"@[0] != "archive.delete"@[0]);
    assert("RepoIdMismatch"@[0] != "UnknownKeyType"@[0]);
    assert("RepoIdMismatch"@[0] != "PathNotAllowed"@[0]);
    assert("RepoIdMismatch"@[0] != "archive.delete"@[0]);
    assert("UnknownKeyType"@[0] != "PathNotAllowed"@[0]);
    assert("UnknownKeyType"@[0] != "archive.delete"@[0]);
    assert("PathNotAllowed"@[0] != "archive.delete"@[0]);
    assert("NoManifestError"@[0] != "PassphraseWrong"@[0]);
    assert("NoManifestError"@[2] != "NotABorgKeyFile"@[2]);
    assert("NoManifestError"@[0] != "UnencryptedRepo"@[0]);
    assert("PassphraseWrong"@[0] != "NotABorgKeyFile"@[0]);
    assert("PassphraseWrong"@[0] != "UnencryptedRepo"@[0]);
    assert("NotABorgKeyFile"@[0] != "UnencryptedRepo"@[0]);
    assert("PlaceholderError"@[0] != "ConnectionClosed"@[0]);
    assert("PlaceholderError"@[0] != "InvalidRPCMethod"@[0]);
    assert("PlaceholderError"@[0] != "repository.check"@[0]);
    assert("ConnectionClosed"@[0] != "InvalidRPCMethod"@[0]);
    assert("ConnectionClosed"@[0] != "repository.check"@[0]);
    assert("InvalidRPCMethod"@[0] != "repository.check"@[0]);
    assert("KeyfileInvalidError"@[0] != "NoPassphraseFailure"@[0]);
    assert("KeyfileInvalidError"@[0] != "extract.permissions"@[0]);
    assert("NoPassphraseFailure"@[0] != "extract.permissions"@[0]);
    assert("Archive.DoesNotExist"@[0] != "ExtensionModuleError"@[0]);
    assert("Archive.DoesNotExist"@[0] != "KeyfileMismatchError"@[0]);
    assert("Archive.DoesNotExist"@[0] != "KeyfileNotFoundError"@[0]);
    assert("Archive.DoesNotExist"@[0] != "RepoKeyNotFoundError"@[0]);
    assert("ExtensionModuleError"@[0] != "KeyfileMismatchError"@[0]);
    assert("ExtensionModuleError"@[0] != "KeyfileNotFoundError"@[0]);
    assert("ExtensionModuleError"@[0] != "RepoKeyNotFoundError"@[0]);
    assert("KeyfileMismatchError"@[7] != "KeyfileNotFoundError"@[7]);
    assert("KeyfileMismatchError"@[0] != "RepoKeyNotFoundError"@[0]);
    assert("KeyfileNotFoundError"@[0] != "RepoKeyNotFoundError"@[0]);
    assert("Archive.AlreadyExists"@[0] != "cache.download_chunks"@[0]);
    assert("Cache.RepositoryReplay"@[0] != "Repository.CheckNeeded"@[0]);
    assert("Cache.RepositoryReplay"@[0] != "check.rebuild_manifest"@[0]);
    assert("Repository.CheckNeeded"@[0] != "check.rebuild_manifest"@[0]);
    assert("BackupFileNotFoundError"@[0] != "PasswordRetriesExceeded"@[0]);
    assert("BackupFileNotFoundError"@[0] != "UnsupportedPayloadError"@[0]);
    assert("BackupFileNotFoundError"@[0] != "Repository.DoesNotExist"@[0]);
    assert("BackupFileNotFoundError"@[0] != "cache.begin_transaction"@[0]);
    assert("PasswordRetriesExceeded"@[0] != "UnsupportedPayloadError"@[0]);
    assert("PasswordRetriesExceeded"@[0] != "Repository.DoesNotExist"@[0]);
    assert("PasswordRetriesExceeded"@[0] != "cache.begin_transaction"@[0]);
    assert("UnsupportedPayloadError"@[0] != "Repository.DoesNotExist"@[0]);
    assert("UnsupportedPayloadError"@[0] != "cache.begin_transaction"@[0]);
    assert("Repository.DoesNotExist"@[0] != "cache.begin_transaction"@[0]);
    assert("UnsupportedManifestError"@[0] != "Repository.AlreadyExists"@[0]);
    assert("UnsupportedManifestError"@[0] != "upgrade.convert_segments"@[0]);
    assert("Repository.AlreadyExists"@[0] != "upgrade.convert_segments"@[0]);
    assert("Buffer.MemoryLimitExceeded"@[0] != "Repository.AtticRepository"@[0]);
    assert("Buffer.MemoryLimitExceeded"@[0] != "repository.replay_segments"@[0]);
    assert("Repository.AtticRepository"@[0] != "repository.replay_segments"@[0]);
    assert("Cache.CacheInitAbortedError"@[6] != "Cache.RepositoryIDNotUnique"@[6]);
    assert("Cache.CacheInitAbortedError"@[0] != "repository.compact_segments"@[0]);
    assert("Cache.RepositoryIDNotUnique"@[0] != "repository.compact_segments"@[0]);
    assert("UnexpectedRPCDataFormatFromClient"@[27] != "UnexpectedRPCDataFormatFromServer"@[27]);
}

/// A wire string outside the catalog denotes no identifier, and one inside it
/// denotes exactly the identifier it was written for.
pub proof fn lemma_msg_id_exact(s: Seq<char>, id: MessageId)
    ensures
        spec_msg_id_of(s) == Some(id) <==> s == spec_wire_of(id),
{
    lemma_msg_id_roundtrip(id);
}

/// The five log levels borg uses on its structured log channel.
#[derive(Debug, Clone, Copy, PartialEq, Eq, Structural)]
pub enum LevelName {
    /// Debug level
    Debug,
    /// Info level
    Info,
    /// Warning level
    Warning,
    /// Error level
    Error,
    /// Critical level
    Critical,
}

/// The wire form of a log level: the uppercase name borg writes in the
/// `levelname` field.
pub open spec fn spec_level_wire_of(l: LevelName) -> Seq<char> {
    match l {
        LevelName::Debug => "DEBUG"@,
        LevelName::Info => "INFO"@,
        LevelName::Warning => "WARNING"@,
        LevelName::Error => "ERROR"@,
        LevelName::Critical => "CRITICAL"@,
    }
}

/// The log level a wire string denotes, if any.
pub open spec fn spec_level_of(s: Seq<char>) -> Option<LevelName> {
    if s == "DEBUG"@ {
        Some(LevelName::Debug)
    } else if s == "INFO"@ {
        Some(LevelName::Info)
    } else if s == "WARNING"@ {
        Some(LevelName::Warning)
    } else if s == "ERROR"@ {
        Some(LevelName::Error)
    } else if s == "CRITICAL"@ {
        Some(LevelName::Critical)
    } else {
        None
    }
}

impl LevelName {
    /// The uppercase name borg writes for this level.
    pub fn as_wire(&self) -> (r: &'static str)
        ensures
            r@ == spec_level_wire_of(*self),
    {
        match self {
            LevelName::Debug => "DEBUG",
            LevelName::Info => "INFO",
            LevelName::Warning => "WARNING",
            LevelName::Error => "ERROR",
            LevelName::Critical => "CRITICAL",
        }
    }

    /// Look a wire string up among the five levels.
    pub fn from_wire(s: &str) -> (r: Option<LevelName>)
        ensures
            r == spec_level_of(s@),
    {
        if str_eq(s, "DEBUG") {
            Some(LevelName::Debug)
        } else if str_eq(s, "INFO") {
            Some(LevelName::Info)
        } else if str_eq(s, "WARNING") {
            Some(LevelName::Warning)
        } else if str_eq(s, "ERROR") {
            Some(LevelName::Error)
        } else if str_eq(s, "CRITICAL") {
            Some(LevelName::Critical)
        } else {
            None
        }
    }
}

/// Every level's wire string maps back to that level.
pub proof fn lemma_level_roundtrip(l: LevelName)
    ensures
        spec_level_of(spec_level_wire_of(l)) == Some(l),
{
    reveal_strlit("DEBUG");
    reveal_strlit("INFO");
    reveal_strlit("WARNING");
    reveal_strlit("ERROR");
    reveal_strlit("CRITICAL");
    assert("DEBUG"@.len() == 5);
    assert("INFO"@.len() == 4);
    assert("WARNING"@.len() == 7);
    assert("ERROR"@.len() == 5);
    assert("CRITICAL"@.len() == 8);
    assert("DEBUG"@[0] != "ERROR"@[0]);
}

/// One line of borg's structured log stream, decoded.
///
/// Each variant mirrors one tagged JSON record of the wire format; the one
/// exception is [`LoggingMessage::UMountError`], a recognized plain-text
/// failure line that is matched before JSON decoding is attempted. Timestamps
/// and the `info` array of `progress_percent` records are not interpreted by
/// any command: a timestamp is kept as the number's rendered text, and the
/// `info` field, checked to be an array when it is present at all, is dropped.
#[derive(Debug, Clone, PartialEq)]
pub enum LoggingMessage {
    /// A leveled diagnostic message.
    LogMessage {
        /// Unix timestamp, as the number's text
        time: String,
        /// The log level
        level_name: LevelName,
        /// Name of the emitting entity
        name: String,
        /// Formatted log message
        message: String,
        /// Machine-readable name of the condition, when borg gives one
        msg_id: Option<MessageId>,
    },
    /// A per-file status notice of borg create and borg recreate.
    FileStatus {
        /// Single-character status
        status: String,
        /// Path of the file system object
        path: String,
    },
    /// Bounded progress with a defined total and current value.
    ProgressPercent {
        /// Unique, opaque integer ID of the operation
        operation: u64,
        /// Message ID of the operation
        msg_id: Option<MessageId>,
        /// Unix timestamp, as the number's text
        time: String,
        /// Whether the operation has finished
        finished: bool,
        /// Current value; absent when finished
        current: Option<u64>,
        /// Total value; absent when finished
        total: Option<u64>,
    },
    /// Message-only progress with no numeric information.
    ProgressMessage {
        /// Unique, opaque integer ID of the operation
        operation: u64,
        /// Message ID of the operation
        msg_id: Option<MessageId>,
        /// Whether the operation has finished
        finished: bool,
        /// Current progress message, possibly absent
        message: Option<String>,
        /// Unix timestamp, as the number's text
        time: String,
    },
    /// Output during operations creating archives.
    ArchiveProgress {
        /// Original size of the data processed so far
        original_size: Option<u64>,
        /// Compressed size
        compressed_size: Option<u64>,
        /// Deduplicated size
        deduplicated_size: Option<u64>,
        /// Number of regular files processed so far
        nfiles: Option<u64>,
        /// Current path
        path: Option<String>,
        /// Unix timestamp, as the number's text
        time: String,
        /// Whether the operation has finished
        finished: bool,
    },
    /// A umount failure reported by fusermount as plain text rather than JSON.
    UMountError(String),
}

/// The mathematical form of a decoded log line.
pub enum RecordView {
    /// A leveled diagnostic message.
    LogMessage {
        /// Unix timestamp, as the number's text
        time: Seq<char>,
        /// The log level
        level_name: LevelName,
        /// Name of the emitting entity
        name: Seq<char>,
        /// Formatted log message
        message: Seq<char>,
        /// Machine-readable name of the condition
        msg_id: Option<MessageId>,
    },
    /// A per-file status notice.
    FileStatus {
        /// Single-character status
        status: Seq<char>,
        /// Path of the file system object
        path: Seq<char>,
    },
    /// Bounded progress.
    ProgressPercent {
        /// Operation ID
        operation: u64,
        /// Message ID of the operation
        msg_id: Option<MessageId>,
        /// Unix timestamp, as the number's text
        time: Seq<char>,
        /// Whether the operation has finished
        finished: bool,
        /// Current value
        current: Option<u64>,
        /// Total value
        total: Option<u64>,
    },
    /// Message-only progress.
    ProgressMessage {
        /// Operation ID
        operation: u64,
        /// Message ID of the operation
        msg_id: Option<MessageId>,
        /// Whether the operation has finished
        finished: bool,
        /// Current progress message
        message: Option<Seq<char>>,
        /// Unix timestamp, as the number's text
        time: Seq<char>,
    },
    /// Output during operations creating archives.
    ArchiveProgress {
        /// Original size of the data processed so far
        original_size: Option<u64>,
        /// Compressed size
        compressed_size: Option<u64>,
        /// Deduplicated size
        deduplicated_size: Option<u64>,
        /// Number of regular files processed so far
        nfiles: Option<u64>,
        /// Current path
        path: Option<Seq<char>>,
        /// Unix timestamp, as the number's text
        time: Seq<char>,
        /// Whether the operation has finished
        finished: bool,
    },
    /// A umount failure reported as plain text.
    UMountError(Seq<char>),
}

impl View for LoggingMessage {
    type V = RecordView;

    open spec fn view(&self) -> RecordView {
        match self {
            LoggingMessage::LogMessage { time, level_name, name, message, msg_id } => {
                RecordView::LogMessage {
                    time: time@,
                    level_name: *level_name,
                    name: name@,
                    message: message@,
                    msg_id: *msg_id,
                }
            },
            LoggingMessage::FileStatus { status, path } => {
                RecordView::FileStatus { status: status@, path: path@ }
            },
            LoggingMessage::ProgressPercent { operation, msg_id, time, finished, current, total } => {
                RecordView::ProgressPercent {
                    operation: *operation,
                    msg_id: *msg_id,
                    time: time@,
                    finished: *finished,
                    current: *current,
                    total: *total,
                }
            },
            LoggingMessage::ProgressMessage { operation, msg_id, finished, message, time } => {
                RecordView::ProgressMessage {
                    operation: *operation,
                    msg_id: *msg_id,
                    finished: *finished,
                    message: message.deep_view(),
                    time: time@,
                }
            },
            LoggingMessage::ArchiveProgress {
                original_size,
                compressed_size,
                deduplicated_size,
                nfiles,
                path,
                time,
                finished,
            } => {
                RecordView::ArchiveProgress {
                    original_size: *original_size,
                    compressed_size: *compressed_size,
                    deduplicated_size: *deduplicated_size,
                    nfiles: *nfiles,
                    path: path.deep_view(),
                    time: time@,
                    finished: *finished,
                }
            },
            LoggingMessage::UMountError(raw) => RecordView::UMountError(raw@),
        }
    }
}

/// The `msgid` field of a line: absent or null is no identifier, a known wire
/// string is that identifier, and anything else fails the line.
pub open spec fn spec_decode_msg_id(s: Seq<char>) -> Result<Option<MessageId>, ()> {
    if !json_present(s, "/msgid"@) {
        Ok(None)
    } else {
        match json_str(s, "/msgid"@) {
            None => Err(()),
            Some(w) => match spec_msg_id_of(w) {
                None => Err(()),
                Some(id) => Ok(Some(id)),
            },
        }
    }
}

/// An optional unsigned field: absent or null is `None`, a number is its
/// value, and anything else fails the line.
pub open spec fn spec_opt_u64(s: Seq<char>, ptr: Seq<char>) -> Result<Option<u64>, ()> {
    if !json_present(s, ptr) {
        Ok(None)
    } else {
        match json_u64(s, ptr) {
            None => Err(()),
            Some(n) => Ok(Some(n)),
        }
    }
}

/// An optional string field: absent or null is `None`, a string is its value,
/// and anything else fails the line.
pub open spec fn spec_opt_str(s: Seq<char>, ptr: Seq<char>) -> Result<Option<Seq<char>>, ()> {
    if !json_present(s, ptr) {
        Ok(None)
    } else {
        match json_str(s, ptr) {
            None => Err(()),
            Some(w) => Ok(Some(w)),
        }
    }
}

/// What a `log_message` line decodes to.
pub open spec fn spec_decode_log_message(s: Seq<char>) -> Option<RecordView> {
    match (
        json_num_text(s, "/time"@),
        json_str(s, "/levelname"@),
        json_str(s, "/name"@),
        json_str(s, "/message"@),
        spec_decode_msg_id(s),
    ) {
        (Some(time), Some(level), Some(name), Some(message), Ok(msg_id)) => match spec_level_of(
            level,
        ) {
            Some(level_name) => Some(
                RecordView::LogMessage { time, level_name, name, message, msg_id },
            ),
            None => None,
        },
        _ => None,
    }
}

/// What a `file_status` line decodes to.
pub open spec fn spec_decode_file_status(s: Seq<char>) -> Option<RecordView> {
    match (json_str(s, "/status"@), json_str(s, "/path"@)) {
        (Some(status), Some(path)) => Some(RecordView::FileStatus { status, path }),
        _ => None,
    }
}

/// The `info` field of a `progress_percent` line is well formed when it is
/// absent, null, or an array; its contents depend on the operation and no
/// command reads them.
pub open spec fn spec_info_well_formed(s: Seq<char>) -> bool {
    !json_present(s, "/info"@) || json_arr_len(s, "/info"@) is Some
}

/// What a `progress_percent` line decodes to.
pub open spec fn spec_decode_progress_percent(s: Seq<char>) -> Option<RecordView> {
    if !spec_info_well_formed(s) {
        None
    } else {
        match (
            json_u64(s, "/operation"@),
            spec_decode_msg_id(s),
            json_num_text(s, "/time"@),
            json_bool(s, "/finished"@),
            spec_opt_u64(s, "/current"@),
            spec_opt_u64(s, "/total"@),
        ) {
            (
                Some(operation),
                Ok(msg_id),
                Some(time),
                Some(finished),
                Ok(current),
                Ok(total),
            ) => Some(
                RecordView::ProgressPercent { operation, msg_id, time, finished, current, total },
            ),
            _ => None,
        }
    }
}

/// What a `progress_message` line decodes to.
pub open spec fn spec_decode_progress_message(s: Seq<char>) -> Option<RecordView> {
    match (
        json_u64(s, "/operation"@),
        spec_decode_msg_id(s),
        json_bool(s, "/finished"@),
        spec_opt_str(s, "/message"@),
        json_num_text(s, "/time"@),
    ) {
        (Some(operation), Ok(msg_id), Some(finished), Ok(message), Some(time)) => Some(
            RecordView::ProgressMessage { operation, msg_id, finished, message, time },
        ),
        _ => None,
    }
}

/// What an `archive_progress` line decodes to.
pub open spec fn spec_decode_archive_progress(s: Seq<char>) -> Option<RecordView> {
    match (
        spec_opt_u64(s, "/original_size"@),
        spec_opt_u64(s, "/compressed_size"@),
        spec_opt_u64(s, "/deduplicated_size"@),
        spec_opt_u64(s, "/nfiles"@),
        spec_opt_str(s, "/path"@),
        json_num_text(s, "/time"@),
        json_bool(s, "/finished"@),
    ) {
        (
            Ok(original_size),
            Ok(compressed_size),
            Ok(deduplicated_size),
            Ok(nfiles),
            Ok(path),
            Some(time),
            Some(finished),
        ) => Some(
            RecordView::ArchiveProgress {
                original_size,
                compressed_size,
                deduplicated_size,
                nfiles,
                path,
                time,
                finished,
            },
        ),
        _ => None,
    }
}

/// What one line of the structured log stream decodes to: the recognized
/// plain-text umount failure, or exactly one tagged JSON record, or nothing.
pub open spec fn spec_decode(s: Seq<char>) -> Option<RecordView> {
    if spec_has_prefix(s, "fusermount: entry for"@) {
        Some(RecordView::UMountError(s))
    } else if !json_object(s) {
        None
    } else {
        match json_str(s, "/type"@) {
            None => None,
            Some(t) => if t == "log_message"@ {
                spec_decode_log_message(s)
            } else if t == "file_status"@ {
                spec_decode_file_status(s)
            } else if t == "progress_percent"@ {
                spec_decode_progress_percent(s)
            } else if t == "progress_message"@ {
                spec_decode_progress_message(s)
            } else if t == "archive_progress"@ {
                spec_decode_archive_progress(s)
            } else {
                None
            },
        }
    }
}

/// The `msgid` field of a line, decoded against the catalog.
fn decode_msg_id(line: &str) -> (r: Result<Option<MessageId>, ()>)
    ensures
        r == spec_decode_msg_id(line@),
{
    if !has_value(line, "/msgid") {
        return Ok(None);
    }
    match get_str(line, "/msgid") {
        None => Err(()),
        Some(w) => match MessageId::from_wire(w.as_str()) {
            None => Err(()),
            Some(id) => Ok(Some(id)),
        },
    }
}

/// An optional unsigned field of a line.
fn decode_opt_u64(line: &str, ptr: &str) -> (r: Result<Option<u64>, ()>)
    ensures
        r == spec_opt_u64(line@, ptr@),
{
    if !has_value(line, ptr) {
        return Ok(None);
    }
    match get_u64(line, ptr) {
        None => Err(()),
        Some(n) => Ok(Some(n)),
    }
}

/// An optional string field of a line.
fn decode_opt_str(line: &str, ptr: &str) -> (r: Result<Option<String>, ()>)
    ensures
        match r {
            Ok(o) => spec_opt_str(line@, ptr@) == Ok::<Option<Seq<char>>, ()>(o.deep_view()),
            Err(()) => spec_opt_str(line@, ptr@) is Err,
        },
{
    if !has_value(line, ptr) {
        return Ok(None);
    }
    match get_str(line, ptr) {
        None => Err(()),
        Some(w) => Ok(Some(w)),
    }
}

fn decode_log_message(line: &str) -> (r: Option<LoggingMessage>)
    ensures
        spec_decode_log_message(line@) == match r {
            Some(m) => Some(m@),
            None => None::<RecordView>,
        },
{
    let time = match get_num_text(line, "/time") {
        Some(x) => x,
        None => {
            return None;
        },
    };
    let level = match get_str(line, "/levelname") {
        Some(x) => x,
        None => {
            return None;
        },
    };
    let name = match get_str(line, "/name") {
        Some(x) => x,
        None => {
            return None;
        },
    };
    let message = match get_str(line, "/message") {
        Some(x) => x,
        None => {
            return None;
        },
    };
    let msg_id = match decode_msg_id(line) {
        Ok(x) => x,
        Err(()) => {
            return None;
        },
    };
    let level_name = match LevelName::from_wire(level.as_str()) {
        Some(x) => x,
        None => {
            return None;
        },
    };
    Some(LoggingMessage::LogMessage { time, level_name, name, message, msg_id })
}

fn decode_file_status(line: &str) -> (r: Option<LoggingMessage>)
    ensures
        spec_decode_file_status(line@) == match r {
            Some(m) => Some(m@),
            None => None::<RecordView>,
        },
{
    let status = match get_str(line, "/status") {
        Some(x) => x,
        None => {
            return None;
        },
    };
    let path = match get_str(line, "/path") {
        Some(x) => x,
        None => {
            return None;
        },
    };
    Some(LoggingMessage::FileStatus { status, path })
}

fn decode_progress_percent(line: &str) -> (r: Option<LoggingMessage>)
    ensures
        spec_decode_progress_percent(line@) == match r {
            Some(m) => Some(m@),
            None => None::<RecordView>,
        },
{
    if has_value(line, "/info") {
        match get_arr_len(line, "/info") {
            Some(_) => {},
            None => {
                return None;
            },
        }
    }
    let operation = match get_u64(line, "/operation") {
        Some(x) => x,
        None => {
            return None;
        },
    };
    let msg_id = match decode_msg_id(line) {
        Ok(x) => x,
        Err(()) => {
            return None;
        },
    };
    let time = match get_num_text(line, "/time") {
        Some(x) => x,
        None => {
            return None;
        },
    };
    let finished = match get_bool(line, "/finished") {
        Some(x) => x,
        None => {
            return None;
        },
    };
    let current = match decode_opt_u64(line, "/current") {
        Ok(x) => x,
        Err(()) => {
            return None;
        },
    };
    let total = match decode_opt_u64(line, "/total") {
        Ok(x) => x,
        Err(()) => {
            return None;
        },
    };
    Some(LoggingMessage::ProgressPercent { operation, msg_id, time, finished, current, total })
}

fn decode_progress_message(line: &str) -> (r: Option<LoggingMessage>)
    ensures
        spec_decode_progress_message(line@) == match r {
            Some(m) => Some(m@),
            None => None::<RecordView>,
        },
{
    let operation = match get_u64(line, "/operation") {
        Some(x) => x,
        None => {
            return None;
        },
    };
    let msg_id = match decode_msg_id(line) {
        Ok(x) => x,
        Err(()) => {
            return None;
        },
    };
    let finished = match get_bool(line, "/finished") {
        Some(x) => x,
        None => {
            return None;
        },
    };
    let message = match decode_opt_str(line, "/message") {
        Ok(x) => x,
        Err(()) => {
            return None;
        },
    };
    let time = match get_num_text(line, "/time") {
        Some(x) => x,
        None => {
            return None;
        },
    };
    Some(LoggingMessage::ProgressMessage { operation, msg_id, finished, message, time })
}

fn decode_archive_progress(line: &str) -> (r: Option<LoggingMessage>)
    ensures
        spec_decode_archive_progress(line@) == match r {
            Some(m) => Some(m@),
            None => None::<RecordView>,
        },
{
    let original_size = match decode_opt_u64(line, "/original_size") {
        Ok(x) => x,
        Err(()) => {
            return None;
        },
    };
    let compressed_size = match decode_opt_u64(line, "/compressed_size") {
        Ok(x) => x,
        Err(()) => {
            return None;
        },
    };
    let deduplicated_size = match decode_opt_u64(line, "/deduplicated_size") {
        Ok(x) => x,
        Err(()) => {
            return None;
        },
    };
    let nfiles = match decode_opt_u64(line, "/nfiles") {
        Ok(x) => x,
        Err(()) => {
            return None;
        },
    };
    let path = match decode_opt_str(line, "/path") {
        Ok(x) => x,
        Err(()) => {
            return None;
        },
    };
    let time = match get_num_text(line, "/time") {
        Some(x) => x,
        None => {
            return None;
        },
    };
    let finished = match get_bool(line, "/finished") {
        Some(x) => x,
        None => {
            return None;
        },
    };
    Some(
        LoggingMessage::ArchiveProgress {
            original_size,
            compressed_size,
            deduplicated_size,
            nfiles,
            path,
            time,
            finished,
        },
    )
}

impl LoggingMessage {
    /// Decode one line of the structured log stream.
    ///
    /// The recognized plain-text umount failure is matched before JSON
    /// decoding is attempted; every other line is exactly one tagged JSON
    /// record or fails to decode.
    pub fn from_str(line: &str) -> (r: Option<LoggingMessage>)
        ensures
            spec_decode(line@) == match r {
                Some(m) => Some(m@),
                None => None::<RecordView>,
            },
    {
        if has_prefix(line, "fusermount: entry for") {
            return Some(LoggingMessage::UMountError(String::from_str(line)));
        }
        if !is_json_object(line) {
            return None;
        }
        let t = match get_str(line, "/type") {
            Some(t) => t,
            None => {
                return None;
            },
        };
        if str_eq(t.as_str(), "log_message") {
            decode_log_message(line)
        } else if str_eq(t.as_str(), "file_status") {
            decode_file_status(line)
        } else if str_eq(t.as_str(), "progress_percent") {
            decode_progress_percent(line)
        } else if str_eq(t.as_str(), "progress_message") {
            decode_progress_message(line)
        } else if str_eq(t.as_str(), "archive_progress") {
            decode_archive_progress(line)
        } else {
            None
        }
    }
}

/// Decoding is a pure function of the line: the same line always yields the
/// same record or fails both times.
pub proof fn lemma_decode_idempotent(a: Seq<char>, b: Seq<char>)
    requires
        a == b,
    ensures
        spec_decode(a) == spec_decode(b),
{
}


} // verus!
