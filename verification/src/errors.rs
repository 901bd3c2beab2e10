//! The closed error taxonomies of the borg commands.
//!
//! Every failure is a distinct, inspectable value. Where the underlying cause
//! is an operating-system or wire-level condition that the library does not
//! model (a spawn failure, an unreadable stream), the variant carries the
//! diagnostic text; a line or blob that failed to decode is carried verbatim.

use vstd::prelude::*;

use crate::logging::MessageId;

verus! {

/// The errors of a borg compact command.
#[derive(Debug, Clone, PartialEq)]
pub enum CompactError {
    /// An unknown error occurred; carries every structured-log line seen
    Unknown(String),
    /// Error while splitting the arguments
    ShlexError,
    /// The command failed to execute; carries the spawn error's text
    CommandFailed(String),
    /// Borg's output could not be read; carries the read error's text
    InvalidBorgOutput(String),
    /// A line or blob of borg's output did not decode; carries it verbatim
    DeserializeError(String),
    /// Borg was terminated by a signal
    TerminatedBySignal,
    /// Piping from stdout or stderr failed
    PipeFailed,
    /// An unexpected message id was received
    UnexpectedMessageId(MessageId),
}

/// The errors of a borg prune command.
#[derive(Debug, Clone, PartialEq)]
pub enum PruneError {
    /// An unknown error occurred; carries every structured-log line seen
    Unknown(String),
    /// Error while splitting the arguments
    ShlexError,
    /// The command failed to execute; carries the spawn error's text
    CommandFailed(String),
    /// Borg's output could not be read; carries the read error's text
    InvalidBorgOutput(String),
    /// A line or blob of borg's output did not decode; carries it verbatim
    DeserializeError(String),
    /// Borg was terminated by a signal
    TerminatedBySignal,
    /// Piping from stdout or stderr failed
    PipeFailed,
    /// The specified archive name already exists
    ArchiveAlreadyExists,
    /// An unexpected message id was received
    UnexpectedMessageId(MessageId),
}

/// The errors of a borg mount or umount command.
#[derive(Debug, Clone, PartialEq)]
pub enum MountError {
    /// An unknown error occurred; carries every structured-log line seen
    Unknown(String),
    /// Error while splitting the arguments
    ShlexError,
    /// The command failed to execute; carries the spawn error's text
    CommandFailed(String),
    /// Borg's output could not be read; carries the read error's text
    InvalidBorgOutput(String),
    /// A line or blob of borg's output did not decode; carries it verbatim
    DeserializeError(String),
    /// Borg was terminated by a signal
    TerminatedBySignal,
    /// Unmounting failed; carries fusermount's plain-text line
    UMountError(String),
    /// An unexpected message id was received
    UnexpectedMessageId(MessageId),
}

/// The errors of a borg list command.
#[derive(Debug, Clone, PartialEq)]
pub enum ListError {
    /// An unknown error occurred; carries every structured-log line seen
    Unknown(String),
    /// Error while splitting the arguments
    ShlexError,
    /// The command failed to execute; carries the spawn error's text
    CommandFailed(String),
    /// Borg's output could not be read; carries the read error's text
    InvalidBorgOutput(String),
    /// A line or blob of borg's output did not decode; carries it verbatim
    DeserializeError(String),
    /// Borg was terminated by a signal
    TerminatedBySignal,
    /// Piping from stdout or stderr failed
    PipeFailed,
    /// An unexpected message id was received
    UnexpectedMessageId(MessageId),
    /// The specified repository does not exist
    RepositoryDoesNotExist,
    /// The provided passphrase was incorrect
    PassphraseWrong,
}

/// The errors of a borg init command.
#[derive(Debug, Clone, PartialEq)]
pub enum InitError {
    /// Error while splitting the arguments
    ShlexError,
    /// The command failed to execute; carries the spawn error's text
    CommandFailed(String),
    /// Borg's output could not be read; carries the read error's text
    InvalidBorgOutput(String),
    /// A line or blob of borg's output did not decode; carries it verbatim
    DeserializeError(String),
    /// Borg was terminated by a signal
    TerminatedBySignal,
    /// The repository already exists
    RepositoryAlreadyExists,
    /// An unexpected message id was received
    UnexpectedMessageId(MessageId),
    /// An unknown error occurred; carries every structured-log line seen
    Unknown(String),
}

/// The errors of a borg create command.
#[derive(Debug, Clone, PartialEq)]
pub enum CreateError {
    /// Piping from stdout or stderr failed
    PipeFailed,
    /// The specified archive name already exists
    ArchiveAlreadyExists,
    /// The provided passphrase was incorrect
    PassphraseWrong,
    /// Error while splitting the arguments
    ShlexError,
    /// The command failed to execute; carries the spawn error's text
    CommandFailed(String),
    /// Borg's output could not be read; carries the read error's text
    InvalidBorgOutput(String),
    /// A line or blob of borg's output did not decode; carries it verbatim
    DeserializeError(String),
    /// Borg was terminated by a signal
    TerminatedBySignal,
    /// An unexpected message id was received
    UnexpectedMessageId(MessageId),
    /// An unknown error occurred; carries every structured-log line seen
    Unknown(String),
}

/// The mathematical form of [`CompactError`].
pub enum CompactErrorView {
    /// An unknown error occurred; carries every structured-log line seen
    Unknown(Seq<char>),
    /// Error while splitting the arguments
    ShlexError,
    /// The command failed to execute; carries the spawn error's text
    CommandFailed(Seq<char>),
    /// Borg's output could not be read; carries the read error's text
    InvalidBorgOutput(Seq<char>),
    /// A line or blob of borg's output did not decode; carries it verbatim
    DeserializeError(Seq<char>),
    /// Borg was terminated by a signal
    TerminatedBySignal,
    /// Piping from stdout or stderr failed
    PipeFailed,
    /// An unexpected message id was received
    UnexpectedMessageId(MessageId),
}

impl View for CompactError {
    type V = CompactErrorView;

    open spec fn view(&self) -> CompactErrorView {
        match self {
            CompactError::Unknown(s) => CompactErrorView::Unknown(s@),
            CompactError::ShlexError => CompactErrorView::ShlexError,
            CompactError::CommandFailed(s) => CompactErrorView::CommandFailed(s@),
            CompactError::InvalidBorgOutput(s) => CompactErrorView::InvalidBorgOutput(s@),
            CompactError::DeserializeError(s) => CompactErrorView::DeserializeError(s@),
            CompactError::TerminatedBySignal => CompactErrorView::TerminatedBySignal,
            CompactError::PipeFailed => CompactErrorView::PipeFailed,
            CompactError::UnexpectedMessageId(id) => CompactErrorView::UnexpectedMessageId(*id),
        }
    }
}

/// The mathematical form of [`PruneError`].
pub enum PruneErrorView {
    /// An unknown error occurred; carries every structured-log line seen
    Unknown(Seq<char>),
    /// Error while splitting the arguments
    ShlexError,
    /// The command failed to execute; carries the spawn error's text
    CommandFailed(Seq<char>),
    /// Borg's output could not be read; carries the read error's text
    InvalidBorgOutput(Seq<char>),
    /// A line or blob of borg's output did not decode; carries it verbatim
    DeserializeError(Seq<char>),
    /// Borg was terminated by a signal
    TerminatedBySignal,
    /// Piping from stdout or stderr failed
    PipeFailed,
    /// The specified archive name already exists
    ArchiveAlreadyExists,
    /// An unexpected message id was received
    UnexpectedMessageId(MessageId),
}

impl View for PruneError {
    type V = PruneErrorView;

    open spec fn view(&self) -> PruneErrorView {
        match self {
            PruneError::Unknown(s) => PruneErrorView::Unknown(s@),
            PruneError::ShlexError => PruneErrorView::ShlexError,
            PruneError::CommandFailed(s) => PruneErrorView::CommandFailed(s@),
            PruneError::InvalidBorgOutput(s) => PruneErrorView::InvalidBorgOutput(s@),
            PruneError::DeserializeError(s) => PruneErrorView::DeserializeError(s@),
            PruneError::TerminatedBySignal => PruneErrorView::TerminatedBySignal,
            PruneError::PipeFailed => PruneErrorView::PipeFailed,
            PruneError::ArchiveAlreadyExists => PruneErrorView::ArchiveAlreadyExists,
            PruneError::UnexpectedMessageId(id) => PruneErrorView::UnexpectedMessageId(*id),
        }
    }
}

/// The mathematical form of [`MountError`].
pub enum MountErrorView {
    /// An unknown error occurred; carries every structured-log line seen
    Unknown(Seq<char>),
    /// Error while splitting the arguments
    ShlexError,
    /// The command failed to execute; carries the spawn error's text
    CommandFailed(Seq<char>),
    /// Borg's output could not be read; carries the read error's text
    InvalidBorgOutput(Seq<char>),
    /// A line or blob of borg's output did not decode; carries it verbatim
    DeserializeError(Seq<char>),
    /// Borg was terminated by a signal
    TerminatedBySignal,
    /// Unmounting failed; carries fusermount's plain-text line
    UMountError(Seq<char>),
    /// An unexpected message id was received
    UnexpectedMessageId(MessageId),
}

impl View for MountError {
    type V = MountErrorView;

    open spec fn view(&self) -> MountErrorView {
        match self {
            MountError::Unknown(s) => MountErrorView::Unknown(s@),
            MountError::ShlexError => MountErrorView::ShlexError,
            MountError::CommandFailed(s) => MountErrorView::CommandFailed(s@),
            MountError::InvalidBorgOutput(s) => MountErrorView::InvalidBorgOutput(s@),
            MountError::DeserializeError(s) => MountErrorView::DeserializeError(s@),
            MountError::TerminatedBySignal => MountErrorView::TerminatedBySignal,
            MountError::UMountError(s) => MountErrorView::UMountError(s@),
            MountError::UnexpectedMessageId(id) => MountErrorView::UnexpectedMessageId(*id),
        }
    }
}

/// The mathematical form of [`ListError`].
pub enum ListErrorView {
    /// An unknown error occurred; carries every structured-log line seen
    Unknown(Seq<char>),
    /// Error while splitting the arguments
    ShlexError,
    /// The command failed to execute; carries the spawn error's text
    CommandFailed(Seq<char>),
    /// Borg's output could not be read; carries the read error's text
    InvalidBorgOutput(Seq<char>),
    /// A line or blob of borg's output did not decode; carries it verbatim
    DeserializeError(Seq<char>),
    /// Borg was terminated by a signal
    TerminatedBySignal,
    /// Piping from stdout or stderr failed
    PipeFailed,
    /// An unexpected message id was received
    UnexpectedMessageId(MessageId),
    /// The specified repository does not exist
    RepositoryDoesNotExist,
    /// The provided passphrase was incorrect
    PassphraseWrong,
}

impl View for ListError {
    type V = ListErrorView;

    open spec fn view(&self) -> ListErrorView {
        match self {
            ListError::Unknown(s) => ListErrorView::Unknown(s@),
            ListError::ShlexError => ListErrorView::ShlexError,
            ListError::CommandFailed(s) => ListErrorView::CommandFailed(s@),
            ListError::InvalidBorgOutput(s) => ListErrorView::InvalidBorgOutput(s@),
            ListError::DeserializeError(s) => ListErrorView::DeserializeError(s@),
            ListError::TerminatedBySignal => ListErrorView::TerminatedBySignal,
            ListError::PipeFailed => ListErrorView::PipeFailed,
            ListError::UnexpectedMessageId(id) => ListErrorView::UnexpectedMessageId(*id),
            ListError::RepositoryDoesNotExist => ListErrorView::RepositoryDoesNotExist,
            ListError::PassphraseWrong => ListErrorView::PassphraseWrong,
        }
    }
}

/// The mathematical form of [`InitError`].
pub enum InitErrorView {
    /// Error while splitting the arguments
    ShlexError,
    /// The command failed to execute; carries the spawn error's text
    CommandFailed(Seq<char>),
    /// Borg's output could not be read; carries the read error's text
    InvalidBorgOutput(Seq<char>),
    /// A line or blob of borg's output did not decode; carries it verbatim
    DeserializeError(Seq<char>),
    /// Borg was terminated by a signal
    TerminatedBySignal,
    /// The repository already exists
    RepositoryAlreadyExists,
    /// An unexpected message id was received
    UnexpectedMessageId(MessageId),
    /// An unknown error occurred; carries every structured-log line seen
    Unknown(Seq<char>),
}

impl View for InitError {
    type V = InitErrorView;

    open spec fn view(&self) -> InitErrorView {
        match self {
            InitError::ShlexError => InitErrorView::ShlexError,
            InitError::CommandFailed(s) => InitErrorView::CommandFailed(s@),
            InitError::InvalidBorgOutput(s) => InitErrorView::InvalidBorgOutput(s@),
            InitError::DeserializeError(s) => InitErrorView::DeserializeError(s@),
            InitError::TerminatedBySignal => InitErrorView::TerminatedBySignal,
            InitError::RepositoryAlreadyExists => InitErrorView::RepositoryAlreadyExists,
            InitError::UnexpectedMessageId(id) => InitErrorView::UnexpectedMessageId(*id),
            InitError::Unknown(s) => InitErrorView::Unknown(s@),
        }
    }
}

/// The mathematical form of [`CreateError`].
pub enum CreateErrorView {
    /// Piping from stdout or stderr failed
    PipeFailed,
    /// The specified archive name already exists
    ArchiveAlreadyExists,
    /// The provided passphrase was incorrect
    PassphraseWrong,
    /// Error while splitting the arguments
    ShlexError,
    /// The command failed to execute; carries the spawn error's text
    CommandFailed(Seq<char>),
    /// Borg's output could not be read; carries the read error's text
    InvalidBorgOutput(Seq<char>),
    /// A line or blob of borg's output did not decode; carries it verbatim
    DeserializeError(Seq<char>),
    /// Borg was terminated by a signal
    TerminatedBySignal,
    /// An unexpected message id was received
    UnexpectedMessageId(MessageId),
    /// An unknown error occurred; carries every structured-log line seen
    Unknown(Seq<char>),
}

impl View for CreateError {
    type V = CreateErrorView;

    open spec fn view(&self) -> CreateErrorView {
        match self {
            CreateError::PipeFailed => CreateErrorView::PipeFailed,
            CreateError::ArchiveAlreadyExists => CreateErrorView::ArchiveAlreadyExists,
            CreateError::PassphraseWrong => CreateErrorView::PassphraseWrong,
            CreateError::ShlexError => CreateErrorView::ShlexError,
            CreateError::CommandFailed(s) => CreateErrorView::CommandFailed(s@),
            CreateError::InvalidBorgOutput(s) => CreateErrorView::InvalidBorgOutput(s@),
            CreateError::DeserializeError(s) => CreateErrorView::DeserializeError(s@),
            CreateError::TerminatedBySignal => CreateErrorView::TerminatedBySignal,
            CreateError::UnexpectedMessageId(id) => CreateErrorView::UnexpectedMessageId(*id),
            CreateError::Unknown(s) => CreateErrorView::Unknown(s@),
        }
    }
}

} // verus!
