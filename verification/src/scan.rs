//! Scanning a fully captured structured-log stream, and the per-command
//! output parsing built on it.
//!
//! The synchronous commands capture the whole error stream before looking at
//! it. [`scan_lines`] walks the lines in order and stops at the first notable
//! one: a line that does not decode, the recognized plain-text umount failure,
//! or a message identifier that the command must act on. Each command then
//! maps that stop, the exit status and the captured standard output into its
//! own result.

use vstd::prelude::*;

use crate::create::{spec_create_terminal, spec_create_terminal_error};
use crate::errors::{
    CompactError, CompactErrorView, CreateError, CreateErrorView, InitError, InitErrorView,
    ListError, ListErrorView, MountError, MountErrorView, PruneError, PruneErrorView,
};
use crate::logging::{LoggingMessage, MessageId, RecordView, spec_decode};
use crate::output::{
    Create, CreateView, ListRepository, ListRepositoryView, spec_decode_create, spec_decode_list,
};

verus! {

/// The borg command a captured stream belongs to: each watches for its own
/// terminal identifiers.
#[derive(Debug, Clone, Copy, PartialEq, Eq, Structural)]
pub enum CommandKind {
    /// borg create
    Create,
    /// borg init
    Init,
    /// borg prune
    Prune,
    /// borg mount or umount
    Mount,
    /// borg list
    List,
    /// borg compact
    Compact,
}

/// The first notable line of a captured stream.
#[derive(Debug, Clone, PartialEq)]
pub enum ScanStop {
    /// A line did not decode; carries it verbatim
    Undecodable(String),
    /// A terminal identifier for the scanned command arrived
    Terminal(MessageId),
    /// An identifier arrived that the command does not handle, at a severity
    /// the exit code marks as fatal
    Unexpected(MessageId),
    /// The recognized plain-text umount failure arrived; carries the raw line
    UMountFailed(String),
}

/// The mathematical form of [`ScanStop`].
pub enum ScanStopView {
    /// A line did not decode
    Undecodable(Seq<char>),
    /// A terminal identifier arrived
    Terminal(MessageId),
    /// An unhandled identifier arrived at fatal severity
    Unexpected(MessageId),
    /// The plain-text umount failure arrived
    UMountFailed(Seq<char>),
}

impl View for ScanStop {
    type V = ScanStopView;

    open spec fn view(&self) -> ScanStopView {
        match self {
            ScanStop::Undecodable(s) => ScanStopView::Undecodable(s@),
            ScanStop::Terminal(id) => ScanStopView::Terminal(*id),
            ScanStop::Unexpected(id) => ScanStopView::Unexpected(*id),
            ScanStop::UMountFailed(s) => ScanStopView::UMountFailed(s@),
        }
    }
}

/// Whether a message identifier stops the scan for a command, and how.
///
/// The create and list commands have identifiers that decide the outcome
/// whatever the exit code, as does an existing repository for init; any other
/// identifier is unexpected only when the exit code already marks failure,
/// and is otherwise no more than a logged diagnostic.
pub open spec fn spec_msgid_stop(kind: CommandKind, exit_code: i32, id: MessageId) -> Option<
    ScanStopView,
> {
    match kind {
        CommandKind::Create => if spec_create_terminal(id) {
            Some(ScanStopView::Terminal(id))
        } else if exit_code > 1 {
            Some(ScanStopView::Unexpected(id))
        } else {
            None
        },
        CommandKind::Init => if id == MessageId::RepositoryAlreadyExists {
            Some(ScanStopView::Terminal(id))
        } else if exit_code > 1 {
            Some(ScanStopView::Unexpected(id))
        } else {
            None
        },
        CommandKind::List => if id == MessageId::RepositoryDoesNotExist || id
            == MessageId::PassphraseWrong {
            Some(ScanStopView::Terminal(id))
        } else if exit_code > 1 {
            Some(ScanStopView::Unexpected(id))
        } else {
            None
        },
        _ => if exit_code > 1 {
            Some(ScanStopView::Unexpected(id))
        } else {
            None
        },
    }
}

/// Whether one line stops the scan, and how.
pub open spec fn spec_line_stop(kind: CommandKind, exit_code: i32, s: Seq<char>) -> Option<
    ScanStopView,
> {
    match spec_decode(s) {
        None => Some(ScanStopView::Undecodable(s)),
        Some(rec) => match rec {
            RecordView::UMountError(raw) => Some(ScanStopView::UMountFailed(raw)),
            RecordView::LogMessage { msg_id, .. } => match msg_id {
                Some(id) => spec_msgid_stop(kind, exit_code, id),
                None => None,
            },
            _ => None,
        },
    }
}

/// The first stop over a whole stream, in line order.
pub open spec fn spec_scan_stop(kind: CommandKind, exit_code: i32, lines: Seq<Seq<char>>) -> Option<
    ScanStopView,
>
    decreases lines.len(),
{
    if lines.len() == 0 {
        None
    } else {
        match spec_line_stop(kind, exit_code, lines[0]) {
            Some(v) => Some(v),
            None => spec_scan_stop(kind, exit_code, lines.drop_first()),
        }
    }
}

/// The lines joined back into one text, each line followed by a newline.
pub open spec fn spec_join_lines(lines: Seq<Seq<char>>) -> Seq<char>
    decreases lines.len(),
{
    if lines.len() == 0 {
        Seq::empty()
    } else {
        spec_join_lines(lines.drop_last()) + lines.last() + seq!['\n']
    }
}

fn msgid_stop(kind: CommandKind, exit_code: i32, id: MessageId) -> (r: Option<ScanStop>)
    ensures
        spec_msgid_stop(kind, exit_code, id) == match r {
            Some(v) => Some(v@),
            None => None::<ScanStopView>,
        },
{
    match kind {
        CommandKind::Create => {
            if matches!(id, MessageId::ArchiveAlreadyExists) || matches!(
                id,
                MessageId::PassphraseWrong,
            ) {
                Some(ScanStop::Terminal(id))
            } else if exit_code > 1 {
                Some(ScanStop::Unexpected(id))
            } else {
                None
            }
        },
        CommandKind::Init => {
            if matches!(id, MessageId::RepositoryAlreadyExists) {
                Some(ScanStop::Terminal(id))
            } else if exit_code > 1 {
                Some(ScanStop::Unexpected(id))
            } else {
                None
            }
        },
        CommandKind::List => {
            if matches!(id, MessageId::RepositoryDoesNotExist) || matches!(
                id,
                MessageId::PassphraseWrong,
            ) {
                Some(ScanStop::Terminal(id))
            } else if exit_code > 1 {
                Some(ScanStop::Unexpected(id))
            } else {
                None
            }
        },
        _ => {
            if exit_code > 1 {
                Some(ScanStop::Unexpected(id))
            } else {
                None
            }
        },
    }
}

/// Walk a captured stream in order. Returns the collected text of the lines
/// seen, each followed by a newline, and the first stop if there is one; when
/// no line stops the scan, the collected text covers the whole stream.
pub fn scan_lines(kind: CommandKind, exit_code: i32, lines: &Vec<String>) -> (r: (
    String,
    Option<ScanStop>,
))
    ensures
        ({
            let stop = spec_scan_stop(kind, exit_code, lines.deep_view());
            &&& match r.1 {
                Some(v) => stop == Some(v@),
                None => stop is None,
            }
            &&& r.1 is None ==> r.0@ == spec_join_lines(lines.deep_view())
        }),
{
    proof {
        reveal_strlit("");
        reveal_strlit("\n");
    }
    let mut collected = String::from_str("");
    let mut i: usize = 0;
    proof {
        assert(lines.deep_view().skip(0) =~= lines.deep_view());
        assert(lines.deep_view().subrange(0, 0) =~= Seq::<Seq<char>>::empty());
        assert(collected@ =~= spec_join_lines(lines.deep_view().subrange(0, 0)));
    }
    while i < lines.len()
        invariant
            i <= lines@.len(),
            lines.deep_view().len() == lines@.len(),
            spec_scan_stop(kind, exit_code, lines.deep_view()) == spec_scan_stop(
                kind,
                exit_code,
                lines.deep_view().skip(i as int),
            ),
            collected@ == spec_join_lines(lines.deep_view().subrange(0, i as int)),
        decreases lines@.len() - i,
    {
        let ghost pre = lines.deep_view();
        let ghost old_collected = collected@;
        let line = &lines[i];
        collected.append(line.as_str());
        collected.append("\n");
        proof {
            reveal_strlit("\n");
            assert(pre[i as int] == lines@[i as int]@);
            assert(pre.subrange(0, i + 1 as int).drop_last() =~= pre.subrange(0, i as int));
            assert(pre.subrange(0, i + 1 as int).last() == pre[i as int]);
            assert(collected@ =~= spec_join_lines(pre.subrange(0, i + 1 as int)));
            assert(pre.skip(i as int)[0] == pre[i as int]);
            assert(pre.skip(i as int).drop_first() =~= pre.skip(i + 1 as int));
        }
        let stop: Option<ScanStop> = match LoggingMessage::from_str(line.as_str()) {
            None => Some(ScanStop::Undecodable(line.clone())),
            Some(rec) => match rec {
                LoggingMessage::UMountError(raw) => Some(ScanStop::UMountFailed(raw)),
                LoggingMessage::LogMessage { msg_id, .. } => match msg_id {
                    Some(id) => msgid_stop(kind, exit_code, id),
                    None => None,
                },
                _ => None,
            },
        };
        match stop {
            Some(v) => {
                return (collected, Some(v));
            },
            None => {},
        }
        i += 1;
    }
    proof {
        assert(lines.deep_view().skip(lines@.len() as int) =~= Seq::<Seq<char>>::empty());
        assert(lines.deep_view().subrange(0, lines@.len() as int) =~= lines.deep_view());
    }
    (collected, None)
}

/// What a captured create invocation amounts to.
pub open spec fn spec_create_parse(
    exit_code: Option<i32>,
    lines: Seq<Seq<char>>,
    stdout: Seq<char>,
) -> Result<CreateView, CreateErrorView> {
    match exit_code {
        None => Err(CreateErrorView::TerminatedBySignal),
        Some(code) => match spec_scan_stop(CommandKind::Create, code, lines) {
            Some(ScanStopView::Undecodable(l)) => Err(CreateErrorView::DeserializeError(l)),
            Some(ScanStopView::UMountFailed(raw)) => Err(CreateErrorView::DeserializeError(raw)),
            Some(ScanStopView::Terminal(id)) => Err(spec_create_terminal_error(id)),
            Some(ScanStopView::Unexpected(id)) => Err(CreateErrorView::UnexpectedMessageId(id)),
            None => if code > 1 {
                Err(CreateErrorView::Unknown(spec_join_lines(lines)))
            } else {
                match spec_decode_create(stdout) {
                    Some(c) => Ok(c),
                    None => Err(CreateErrorView::DeserializeError(stdout)),
                }
            },
        },
    }
}

/// Classify a captured create invocation: the exit status, every line of the
/// error stream in order, and the full standard output.
///
/// A missing exit code is a signal termination and outweighs everything. A
/// line that does not decode fails the call with that line. An archive that
/// already exists and a wrong passphrase are terminal whatever the exit code;
/// any other identifier is unexpected when the exit code is above one. An
/// exit code above one with no more specific cause carries the whole stream
/// as diagnostic; otherwise the standard output must decode to the result.
pub fn create_parse_output(exit_code: Option<i32>, stderr_lines: &Vec<String>, stdout: &str) -> (r:
    Result<Create, CreateError>)
    ensures
        spec_create_parse(exit_code, stderr_lines.deep_view(), stdout@) == match r {
            Ok(c) => Ok::<CreateView, CreateErrorView>(c@),
            Err(e) => Err::<CreateView, CreateErrorView>(e@),
        },
{
    let code = match exit_code {
        None => {
            return Err(CreateError::TerminatedBySignal);
        },
        Some(code) => code,
    };
    let (collected, stop) = scan_lines(CommandKind::Create, code, stderr_lines);
    match stop {
        Some(ScanStop::Undecodable(l)) => Err(CreateError::DeserializeError(l)),
        Some(ScanStop::UMountFailed(raw)) => Err(CreateError::DeserializeError(raw)),
        Some(ScanStop::Terminal(id)) => match id {
            MessageId::ArchiveAlreadyExists => Err(CreateError::ArchiveAlreadyExists),
            MessageId::PassphraseWrong => Err(CreateError::PassphraseWrong),
            _ => Err(CreateError::UnexpectedMessageId(id)),
        },
        Some(ScanStop::Unexpected(id)) => Err(CreateError::UnexpectedMessageId(id)),
        None => {
            if code > 1 {
                Err(CreateError::Unknown(collected))
            } else {
                match Create::from_str(stdout) {
                    Some(c) => Ok(c),
                    None => Err(CreateError::DeserializeError(String::from_str(stdout))),
                }
            }
        },
    }
}

/// What a captured init invocation amounts to.
pub open spec fn spec_init_parse(exit_code: Option<i32>, lines: Seq<Seq<char>>) -> Result<
    (),
    InitErrorView,
> {
    match exit_code {
        None => Err(InitErrorView::TerminatedBySignal),
        Some(code) => match spec_scan_stop(CommandKind::Init, code, lines) {
            Some(ScanStopView::Undecodable(l)) => Err(InitErrorView::DeserializeError(l)),
            Some(ScanStopView::UMountFailed(raw)) => Err(InitErrorView::DeserializeError(raw)),
            Some(ScanStopView::Terminal(id)) => if id == MessageId::RepositoryAlreadyExists {
                Err(InitErrorView::RepositoryAlreadyExists)
            } else {
                Err(InitErrorView::UnexpectedMessageId(id))
            },
            Some(ScanStopView::Unexpected(id)) => Err(InitErrorView::UnexpectedMessageId(id)),
            None => if code > 1 {
                Err(InitErrorView::Unknown(spec_join_lines(lines)))
            } else {
                Ok(())
            },
        },
    }
}

/// Classify a captured init invocation.
///
/// A repository that already exists is terminal whatever the exit code; any
/// other identifier is unexpected when the exit code is above one. An
/// undecodable line fails the call with that line; a missing exit code is a
/// signal termination; an exit code above one with no more specific cause
/// carries the whole stream as diagnostic.
pub fn init_parse_result(exit_code: Option<i32>, stderr_lines: &Vec<String>) -> (r: Result<
    (),
    InitError,
>)
    ensures
        spec_init_parse(exit_code, stderr_lines.deep_view()) == match r {
            Ok(()) => Ok::<(), InitErrorView>(()),
            Err(e) => Err::<(), InitErrorView>(e@),
        },
{
    let code = match exit_code {
        None => {
            return Err(InitError::TerminatedBySignal);
        },
        Some(code) => code,
    };
    let (collected, stop) = scan_lines(CommandKind::Init, code, stderr_lines);
    match stop {
        Some(ScanStop::Undecodable(l)) => Err(InitError::DeserializeError(l)),
        Some(ScanStop::UMountFailed(raw)) => Err(InitError::DeserializeError(raw)),
        Some(ScanStop::Terminal(id)) => match id {
            MessageId::RepositoryAlreadyExists => Err(InitError::RepositoryAlreadyExists),
            _ => Err(InitError::UnexpectedMessageId(id)),
        },
        Some(ScanStop::Unexpected(id)) => Err(InitError::UnexpectedMessageId(id)),
        None => {
            if code > 1 {
                Err(InitError::Unknown(collected))
            } else {
                Ok(())
            }
        },
    }
}

/// What a captured prune invocation amounts to.
pub open spec fn spec_prune_parse(exit_code: Option<i32>, lines: Seq<Seq<char>>) -> Result<
    (),
    PruneErrorView,
> {
    match exit_code {
        None => Err(PruneErrorView::TerminatedBySignal),
        Some(code) => match spec_scan_stop(CommandKind::Prune, code, lines) {
            Some(ScanStopView::Undecodable(l)) => Err(PruneErrorView::DeserializeError(l)),
            Some(ScanStopView::UMountFailed(raw)) => Err(PruneErrorView::DeserializeError(raw)),
            Some(ScanStopView::Terminal(id)) => Err(PruneErrorView::UnexpectedMessageId(id)),
            Some(ScanStopView::Unexpected(id)) => Err(PruneErrorView::UnexpectedMessageId(id)),
            None => if code > 1 {
                Err(PruneErrorView::Unknown(spec_join_lines(lines)))
            } else {
                Ok(())
            },
        },
    }
}

/// Classify a captured prune invocation. Any identifier is unexpected when
/// the exit code is above one; the other rules are as for init.
pub fn prune_parse_output(exit_code: Option<i32>, stderr_lines: &Vec<String>) -> (r: Result<
    (),
    PruneError,
>)
    ensures
        spec_prune_parse(exit_code, stderr_lines.deep_view()) == match r {
            Ok(()) => Ok::<(), PruneErrorView>(()),
            Err(e) => Err::<(), PruneErrorView>(e@),
        },
{
    let code = match exit_code {
        None => {
            return Err(PruneError::TerminatedBySignal);
        },
        Some(code) => code,
    };
    let (collected, stop) = scan_lines(CommandKind::Prune, code, stderr_lines);
    match stop {
        Some(ScanStop::Undecodable(l)) => Err(PruneError::DeserializeError(l)),
        Some(ScanStop::UMountFailed(raw)) => Err(PruneError::DeserializeError(raw)),
        Some(ScanStop::Terminal(id)) => Err(PruneError::UnexpectedMessageId(id)),
        Some(ScanStop::Unexpected(id)) => Err(PruneError::UnexpectedMessageId(id)),
        None => {
            if code > 1 {
                Err(PruneError::Unknown(collected))
            } else {
                Ok(())
            }
        },
    }
}

/// What a captured mount or umount invocation amounts to.
pub open spec fn spec_mount_parse(exit_code: Option<i32>, lines: Seq<Seq<char>>) -> Result<
    (),
    MountErrorView,
> {
    match exit_code {
        None => Err(MountErrorView::TerminatedBySignal),
        Some(code) => match spec_scan_stop(CommandKind::Mount, code, lines) {
            Some(ScanStopView::Undecodable(l)) => Err(MountErrorView::DeserializeError(l)),
            Some(ScanStopView::UMountFailed(raw)) => Err(MountErrorView::UMountError(raw)),
            Some(ScanStopView::Terminal(id)) => Err(MountErrorView::UnexpectedMessageId(id)),
            Some(ScanStopView::Unexpected(id)) => Err(MountErrorView::UnexpectedMessageId(id)),
            None => if code > 1 {
                Err(MountErrorView::Unknown(spec_join_lines(lines)))
            } else {
                Ok(())
            },
        },
    }
}

/// Classify a captured mount or umount invocation. The recognized plain-text
/// fusermount failure line is its own error and carries the raw line; the
/// other rules are as for prune.
pub fn mount_parse_output(exit_code: Option<i32>, stderr_lines: &Vec<String>) -> (r: Result<
    (),
    MountError,
>)
    ensures
        spec_mount_parse(exit_code, stderr_lines.deep_view()) == match r {
            Ok(()) => Ok::<(), MountErrorView>(()),
            Err(e) => Err::<(), MountErrorView>(e@),
        },
{
    let code = match exit_code {
        None => {
            return Err(MountError::TerminatedBySignal);
        },
        Some(code) => code,
    };
    let (collected, stop) = scan_lines(CommandKind::Mount, code, stderr_lines);
    match stop {
        Some(ScanStop::Undecodable(l)) => Err(MountError::DeserializeError(l)),
        Some(ScanStop::UMountFailed(raw)) => Err(MountError::UMountError(raw)),
        Some(ScanStop::Terminal(id)) => Err(MountError::UnexpectedMessageId(id)),
        Some(ScanStop::Unexpected(id)) => Err(MountError::UnexpectedMessageId(id)),
        None => {
            if code > 1 {
                Err(MountError::Unknown(collected))
            } else {
                Ok(())
            }
        },
    }
}

/// What a captured compact invocation amounts to.
pub open spec fn spec_compact_parse(exit_code: Option<i32>, lines: Seq<Seq<char>>) -> Result<
    (),
    CompactErrorView,
> {
    match exit_code {
        None => Err(CompactErrorView::TerminatedBySignal),
        Some(code) => match spec_scan_stop(CommandKind::Compact, code, lines) {
            Some(ScanStopView::Undecodable(l)) => Err(CompactErrorView::DeserializeError(l)),
            Some(ScanStopView::UMountFailed(raw)) => Err(CompactErrorView::DeserializeError(raw)),
            Some(ScanStopView::Terminal(id)) => Err(CompactErrorView::UnexpectedMessageId(id)),
            Some(ScanStopView::Unexpected(id)) => Err(CompactErrorView::UnexpectedMessageId(id)),
            None => if code > 1 {
                Err(CompactErrorView::Unknown(spec_join_lines(lines)))
            } else {
                Ok(())
            },
        },
    }
}

/// Classify a captured compact invocation, by the same rules as prune.
pub fn compact_parse_output(exit_code: Option<i32>, stderr_lines: &Vec<String>) -> (r: Result<
    (),
    CompactError,
>)
    ensures
        spec_compact_parse(exit_code, stderr_lines.deep_view()) == match r {
            Ok(()) => Ok::<(), CompactErrorView>(()),
            Err(e) => Err::<(), CompactErrorView>(e@),
        },
{
    let code = match exit_code {
        None => {
            return Err(CompactError::TerminatedBySignal);
        },
        Some(code) => code,
    };
    let (collected, stop) = scan_lines(CommandKind::Compact, code, stderr_lines);
    match stop {
        Some(ScanStop::Undecodable(l)) => Err(CompactError::DeserializeError(l)),
        Some(ScanStop::UMountFailed(raw)) => Err(CompactError::DeserializeError(raw)),
        Some(ScanStop::Terminal(id)) => Err(CompactError::UnexpectedMessageId(id)),
        Some(ScanStop::Unexpected(id)) => Err(CompactError::UnexpectedMessageId(id)),
        None => {
            if code > 1 {
                Err(CompactError::Unknown(collected))
            } else {
                Ok(())
            }
        },
    }
}

/// What a captured list invocation amounts to.
pub open spec fn spec_list_parse(
    exit_code: Option<i32>,
    lines: Seq<Seq<char>>,
    stdout: Seq<char>,
) -> Result<ListRepositoryView, ListErrorView> {
    match exit_code {
        None => Err(ListErrorView::TerminatedBySignal),
        Some(code) => match spec_scan_stop(CommandKind::List, code, lines) {
            Some(ScanStopView::Undecodable(l)) => Err(ListErrorView::DeserializeError(l)),
            Some(ScanStopView::UMountFailed(raw)) => Err(ListErrorView::DeserializeError(raw)),
            Some(ScanStopView::Terminal(id)) => if id == MessageId::RepositoryDoesNotExist {
                Err(ListErrorView::RepositoryDoesNotExist)
            } else if id == MessageId::PassphraseWrong {
                Err(ListErrorView::PassphraseWrong)
            } else {
                Err(ListErrorView::UnexpectedMessageId(id))
            },
            Some(ScanStopView::Unexpected(id)) => Err(ListErrorView::UnexpectedMessageId(id)),
            None => if code > 1 {
                Err(ListErrorView::Unknown(spec_join_lines(lines)))
            } else {
                match spec_decode_list(stdout) {
                    Some(l) => Ok(l),
                    None => Err(ListErrorView::DeserializeError(stdout)),
                }
            },
        },
    }
}

/// Classify a captured list invocation. A repository that does not exist and
/// a wrong passphrase are terminal whatever the exit code; otherwise the
/// rules of create apply, with the standard output decoding to the archive
/// listing.
pub fn list_parse_output(exit_code: Option<i32>, stderr_lines: &Vec<String>, stdout: &str) -> (r:
    Result<ListRepository, ListError>)
    ensures
        spec_list_parse(exit_code, stderr_lines.deep_view(), stdout@) == match r {
            Ok(l) => Ok::<ListRepositoryView, ListErrorView>(l@),
            Err(e) => Err::<ListRepositoryView, ListErrorView>(e@),
        },
{
    let code = match exit_code {
        None => {
            return Err(ListError::TerminatedBySignal);
        },
        Some(code) => code,
    };
    let (collected, stop) = scan_lines(CommandKind::List, code, stderr_lines);
    match stop {
        Some(ScanStop::Undecodable(l)) => Err(ListError::DeserializeError(l)),
        Some(ScanStop::UMountFailed(raw)) => Err(ListError::DeserializeError(raw)),
        Some(ScanStop::Terminal(id)) => match id {
            MessageId::RepositoryDoesNotExist => Err(ListError::RepositoryDoesNotExist),
            MessageId::PassphraseWrong => Err(ListError::PassphraseWrong),
            _ => Err(ListError::UnexpectedMessageId(id)),
        },
        Some(ScanStop::Unexpected(id)) => Err(ListError::UnexpectedMessageId(id)),
        None => {
            if code > 1 {
                Err(ListError::Unknown(collected))
            } else {
                match ListRepository::from_str(stdout) {
                    Some(l) => Ok(l),
                    None => Err(ListError::DeserializeError(String::from_str(stdout))),
                }
            }
        },
    }
}

} // verus!
