//! The create command's streaming progress protocol.
//!
//! Every decision the streaming orchestrator makes is a pure function here:
//! [`CreateRun`] is the per-invocation state, [`CreateRun::on_line`] classifies
//! one structured-log line into an action, and [`CreateRun::finalize`] turns
//! the observed exit status and captured standard output into the final typed
//! result or error. The caller owns the process, the channel and the log sink:
//! it feeds lines in the order they were read, performs the returned actions,
//! and must not feed lines it never read. No send outcome enters the state
//! machine, so the final result is a function of the lines, the exit status
//! and the captured standard output alone: a receiver that stops listening
//! can never change it. [`run_create_stream`] drives the same state machine
//! over a fully materialized stream.

use vstd::prelude::*;

use crate::errors::{CreateError, CreateErrorView};
use crate::logging::{LevelName, LoggingMessage, MessageId, RecordView, spec_decode};
use crate::output::{Create, CreateView, spec_decode_create};
use crate::text::{spec_dec, u64_to_string};

verus! {

/// The progress of a borg create command, as projected into the public
/// progress channel.
#[derive(Debug, Clone, PartialEq)]
pub enum CreateProgress {
    /// The current progress of the archive
    Progress {
        /// The size of the original files
        original_size: u64,
        /// The size of the compressed files
        compressed_size: u64,
        /// The size of the deduplicated files
        deduplicated_size: u64,
        /// The current number of files
        nfiles: u64,
        /// The path to the current file
        path: String,
    },
    /// The creation of the archive has finished
    Finished,
}

/// The mathematical form of [`CreateProgress`].
pub enum CreateProgressView {
    /// The current progress of the archive
    Progress {
        /// The size of the original files
        original_size: u64,
        /// The size of the compressed files
        compressed_size: u64,
        /// The size of the deduplicated files
        deduplicated_size: u64,
        /// The current number of files
        nfiles: u64,
        /// The path to the current file
        path: Seq<char>,
    },
    /// The creation of the archive has finished
    Finished,
}

impl View for CreateProgress {
    type V = CreateProgressView;

    open spec fn view(&self) -> CreateProgressView {
        match self {
            CreateProgress::Progress {
                original_size,
                compressed_size,
                deduplicated_size,
                nfiles,
                path,
            } => CreateProgressView::Progress {
                original_size: *original_size,
                compressed_size: *compressed_size,
                deduplicated_size: *deduplicated_size,
                nfiles: *nfiles,
                path: path@,
            },
            CreateProgress::Finished => CreateProgressView::Finished,
        }
    }
}

/// The one-line rendering of a progress value.
pub open spec fn spec_describe_progress(p: CreateProgressView) -> Seq<char> {
    match p {
        CreateProgressView::Progress {
            original_size,
            compressed_size,
            deduplicated_size,
            nfiles,
            path,
        } => "O "@ + spec_dec(original_size as int) + " C "@ + spec_dec(compressed_size as int)
            + " D "@ + spec_dec(deduplicated_size as int) + " N "@ + spec_dec(nfiles as int)
            + " "@ + path,
        CreateProgressView::Finished => "Finished"@,
    }
}

impl CreateProgress {
    /// Render the progress value on one line.
    pub fn describe(&self) -> (r: String)
        ensures
            r@ == spec_describe_progress(self@),
    {
        match self {
            CreateProgress::Progress {
                original_size,
                compressed_size,
                deduplicated_size,
                nfiles,
                path,
            } => {
                let mut s = String::from_str("O ");
                s.append(u64_to_string(*original_size).as_str());
                s.append(" C ");
                s.append(u64_to_string(*compressed_size).as_str());
                s.append(" D ");
                s.append(u64_to_string(*deduplicated_size).as_str());
                s.append(" N ");
                s.append(u64_to_string(*nfiles).as_str());
                s.append(" ");
                s.append(path.as_str());
                s
            },
            CreateProgress::Finished => String::from_str("Finished"),
        }
    }
}

/// What became of the child's standard output: its full text, or the text of
/// the error that kept it from being read.
#[derive(Debug, Clone, PartialEq)]
pub enum StdoutCapture {
    /// Standard output was read to its end
    Text(String),
    /// Reading standard output failed; carries the read error's text
    Unreadable(String),
}

/// The mathematical form of [`StdoutCapture`].
pub enum StdoutCaptureView {
    /// Standard output was read to its end
    Text(Seq<char>),
    /// Reading standard output failed
    Unreadable(Seq<char>),
}

impl View for StdoutCapture {
    type V = StdoutCaptureView;

    open spec fn view(&self) -> StdoutCaptureView {
        match self {
            StdoutCapture::Text(s) => StdoutCaptureView::Text(s@),
            StdoutCapture::Unreadable(s) => StdoutCaptureView::Unreadable(s@),
        }
    }
}

/// The action one structured-log line asks of the caller.
#[derive(Debug, Clone, PartialEq)]
pub enum LineOutcome {
    /// Send this event on the progress channel; a send failure must not abort
    /// the run
    Emit(CreateProgress),
    /// Forward this diagnostic to the leveled log sink
    Log {
        /// The log level
        level: LevelName,
        /// Unix timestamp, as the number's text
        time: String,
        /// Name of the emitting entity
        name: String,
        /// The log text
        message: String,
    },
    /// Nothing to do for this line
    Ignored,
    /// The line did not decode, or violated the progress protocol: stop
    /// reading lines and wait for the process to exit
    Malformed,
}

/// The mathematical form of [`LineOutcome`].
pub enum LineOutcomeView {
    /// Send this event on the progress channel
    Emit(CreateProgressView),
    /// Forward this diagnostic to the leveled log sink
    Log {
        /// The log level
        level: LevelName,
        /// Unix timestamp, as the number's text
        time: Seq<char>,
        /// Name of the emitting entity
        name: Seq<char>,
        /// The log text
        message: Seq<char>,
    },
    /// Nothing to do for this line
    Ignored,
    /// The line did not decode, or violated the progress protocol
    Malformed,
}

impl View for LineOutcome {
    type V = LineOutcomeView;

    open spec fn view(&self) -> LineOutcomeView {
        match self {
            LineOutcome::Emit(p) => LineOutcomeView::Emit(p@),
            LineOutcome::Log { level, time, name, message } => LineOutcomeView::Log {
                level: *level,
                time: time@,
                name: name@,
                message: message@,
            },
            LineOutcome::Ignored => LineOutcomeView::Ignored,
            LineOutcome::Malformed => LineOutcomeView::Malformed,
        }
    }
}

/// Whether a message identifier is terminal for the create command: its
/// presence decides the outcome regardless of a merely-nonzero exit code.
pub open spec fn spec_create_terminal(id: MessageId) -> bool {
    id == MessageId::ArchiveAlreadyExists || id == MessageId::PassphraseWrong
}

/// The error a terminal identifier of the create command maps to.
pub open spec fn spec_create_terminal_error(id: MessageId) -> CreateErrorView {
    if id == MessageId::ArchiveAlreadyExists {
        CreateErrorView::ArchiveAlreadyExists
    } else if id == MessageId::PassphraseWrong {
        CreateErrorView::PassphraseWrong
    } else {
        CreateErrorView::UnexpectedMessageId(id)
    }
}

/// The state of one streaming create invocation.
pub struct CreateRun {
    terminal: Option<MessageId>,
    finished_seen: bool,
    reading: bool,
    collected: String,
}

/// The mathematical form of [`CreateRun`].
pub struct RunView {
    /// The first terminal identifier recorded, if any
    pub terminal: Option<MessageId>,
    /// Whether a finished progress record has been seen: the progress
    /// sub-protocol is over
    pub finished_seen: bool,
    /// Whether lines are still being read
    pub reading: bool,
    /// Every line seen so far, each followed by a newline
    pub collected: Seq<char>,
}

impl View for CreateRun {
    type V = RunView;

    closed spec fn view(&self) -> RunView {
        RunView {
            terminal: self.terminal,
            finished_seen: self.finished_seen,
            reading: self.reading,
            collected: self.collected@,
        }
    }
}

/// The state a run starts in.
pub open spec fn spec_run_init() -> RunView {
    RunView { terminal: None, finished_seen: false, reading: true, collected: Seq::empty() }
}

/// What one line does to the run: the successor state and the action asked of
/// the caller. A line arriving after reading has stopped changes nothing.
pub open spec fn spec_on_line(st: RunView, s: Seq<char>) -> (RunView, LineOutcomeView) {
    if !st.reading {
        (st, LineOutcomeView::Ignored)
    } else {
        let collected = st.collected + s + seq!['\n'];
        match spec_decode(s) {
            None => (
                RunView { terminal: st.terminal, finished_seen: st.finished_seen, reading: false, collected },
                LineOutcomeView::Malformed,
            ),
            Some(rec) => match rec {
                RecordView::ArchiveProgress {
                    original_size,
                    compressed_size,
                    deduplicated_size,
                    nfiles,
                    path,
                    finished,
                    ..
                } => {
                    if finished {
                        if st.finished_seen {
                            (
                                RunView { terminal: st.terminal, finished_seen: true, reading: true, collected },
                                LineOutcomeView::Ignored,
                            )
                        } else {
                            (
                                RunView { terminal: st.terminal, finished_seen: true, reading: true, collected },
                                LineOutcomeView::Emit(CreateProgressView::Finished),
                            )
                        }
                    } else if st.finished_seen {
                        (
                            RunView { terminal: st.terminal, finished_seen: true, reading: true, collected },
                            LineOutcomeView::Ignored,
                        )
                    } else if original_size is Some && compressed_size is Some
                        && deduplicated_size is Some && nfiles is Some && path is Some {
                        (
                            RunView { terminal: st.terminal, finished_seen: false, reading: true, collected },
                            LineOutcomeView::Emit(
                                CreateProgressView::Progress {
                                    original_size: original_size->Some_0,
                                    compressed_size: compressed_size->Some_0,
                                    deduplicated_size: deduplicated_size->Some_0,
                                    nfiles: nfiles->Some_0,
                                    path: path->Some_0,
                                },
                            ),
                        )
                    } else {
                        (
                            RunView { terminal: st.terminal, finished_seen: false, reading: false, collected },
                            LineOutcomeView::Malformed,
                        )
                    }
                },
                RecordView::LogMessage { time, level_name, name, message, msg_id } => {
                    let terminal = if st.terminal is None && (msg_id matches Some(id)
                        && spec_create_terminal(id)) {
                        msg_id
                    } else {
                        st.terminal
                    };
                    (
                        RunView { terminal, finished_seen: st.finished_seen, reading: true, collected },
                        LineOutcomeView::Log { level: level_name, time, name, message },
                    )
                },
                _ => (
                    RunView { terminal: st.terminal, finished_seen: st.finished_seen, reading: true, collected },
                    LineOutcomeView::Ignored,
                ),
            },
        }
    }
}

/// The final outcome of a run, from the recorded state, the exit status and
/// the captured standard output.
///
/// Precedence: a signal termination outweighs everything; unreadable standard
/// output outweighs a recorded terminal identifier; a terminal identifier
/// outweighs a merely-nonzero exit code; an exit code above one fails with
/// every collected line as diagnostic; otherwise the output blob decides.
pub open spec fn spec_finalize(
    st: RunView,
    exit_code: Option<i32>,
    out: StdoutCaptureView,
) -> Result<CreateView, CreateErrorView> {
    match exit_code {
        None => Err(CreateErrorView::TerminatedBySignal),
        Some(code) => match out {
            StdoutCaptureView::Unreadable(m) => Err(CreateErrorView::InvalidBorgOutput(m)),
            StdoutCaptureView::Text(doc) => match st.terminal {
                Some(id) => Err(spec_create_terminal_error(id)),
                None => if code > 1 {
                    Err(CreateErrorView::Unknown(st.collected))
                } else {
                    match spec_decode_create(doc) {
                        Some(c) => Ok(c),
                        None => Err(CreateErrorView::DeserializeError(doc)),
                    }
                },
            },
        },
    }
}

impl CreateRun {
    /// Start a run: nothing recorded, still reading.
    pub fn new() -> (r: CreateRun)
        ensures
            r@ == spec_run_init(),
    {
        proof {
            reveal_strlit("");
        }
        let r = CreateRun {
            terminal: None,
            finished_seen: false,
            reading: true,
            collected: String::from_str(""),
        };
        assert(r@.collected =~= spec_run_init().collected);
        r
    }

    /// Classify one line of the error stream and update the run.
    pub fn on_line(&mut self, line: &str) -> (r: LineOutcome)
        ensures
            ({
                let (st, out) = spec_on_line(old(self)@, line@);
                final(self)@ == st && r@ == out
            }),
    {
        if !self.reading {
            return LineOutcome::Ignored;
        }
        proof {
            reveal_strlit("\n");
        }
        self.collected.append(line);
        self.collected.append("\n");
        proof {
            assert(self.collected@ =~= old(self)@.collected + line@ + seq!['\n']);
        }
        match LoggingMessage::from_str(line) {
            None => {
                self.reading = false;
                LineOutcome::Malformed
            },
            Some(rec) => match rec {
                LoggingMessage::ArchiveProgress {
                    original_size,
                    compressed_size,
                    deduplicated_size,
                    nfiles,
                    path,
                    finished,
                    ..
                } => {
                    if finished {
                        if self.finished_seen {
                            LineOutcome::Ignored
                        } else {
                            self.finished_seen = true;
                            LineOutcome::Emit(CreateProgress::Finished)
                        }
                    } else if self.finished_seen {
                        LineOutcome::Ignored
                    } else {
                        match (original_size, compressed_size, deduplicated_size, nfiles, path) {
                            (Some(o), Some(c), Some(d), Some(n), Some(p)) => LineOutcome::Emit(
                                CreateProgress::Progress {
                                    original_size: o,
                                    compressed_size: c,
                                    deduplicated_size: d,
                                    nfiles: n,
                                    path: p,
                                },
                            ),
                            _ => {
                                self.reading = false;
                                LineOutcome::Malformed
                            },
                        }
                    }
                },
                LoggingMessage::LogMessage { time, level_name, name, message, msg_id } => {
                    if self.terminal.is_none() {
                        match msg_id {
                            Some(id) => {
                                if matches!(id, MessageId::ArchiveAlreadyExists)
                                    || matches!(id, MessageId::PassphraseWrong) {
                                    self.terminal = Some(id);
                                }
                            },
                            None => {},
                        }
                    }
                    LineOutcome::Log { level: level_name, time, name, message }
                },
                _ => LineOutcome::Ignored,
            },
        }
    }

    /// Note that the line source failed or ended: reading is over.
    pub fn on_read_error(&mut self)
        ensures
            final(self)@ == (RunView {
                reading: false,
                terminal: old(self)@.terminal,
                finished_seen: old(self)@.finished_seen,
                collected: old(self)@.collected,
            }),
    {
        self.reading = false;
    }

    /// Turn the run's recorded state, the exit status and the captured
    /// standard output into the final result or error.
    pub fn finalize(&self, exit_code: Option<i32>, out: &StdoutCapture) -> (r: Result<
        Create,
        CreateError,
    >)
        ensures
            spec_finalize(self@, exit_code, out@) == match r {
                Ok(c) => Ok::<CreateView, CreateErrorView>(c@),
                Err(e) => Err::<CreateView, CreateErrorView>(e@),
            },
    {
        let code = match exit_code {
            None => {
                return Err(CreateError::TerminatedBySignal);
            },
            Some(code) => code,
        };
        let doc = match out {
            StdoutCapture::Unreadable(m) => {
                return Err(CreateError::InvalidBorgOutput(m.clone()));
            },
            StdoutCapture::Text(doc) => doc,
        };
        match &self.terminal {
            Some(id) => match id {
                MessageId::ArchiveAlreadyExists => Err(CreateError::ArchiveAlreadyExists),
                MessageId::PassphraseWrong => Err(CreateError::PassphraseWrong),
                _ => Err(CreateError::UnexpectedMessageId(*id)),
            },
            None => {
                if code > 1 {
                    Err(CreateError::Unknown(self.collected.clone()))
                } else {
                    match Create::from_str(doc.as_str()) {
                        Some(c) => Ok(c),
                        None => Err(CreateError::DeserializeError(doc.clone())),
                    }
                }
            },
        }
    }
}

/// The state and emitted events after a whole stream of lines.
pub open spec fn spec_stream(st0: RunView, lines: Seq<Seq<char>>) -> (RunView, Seq<
    CreateProgressView,
>)
    decreases lines.len(),
{
    if lines.len() == 0 {
        (st0, Seq::empty())
    } else {
        let (st1, evs) = spec_stream(st0, lines.drop_last());
        let (st2, out) = spec_on_line(st1, lines.last());
        match out {
            LineOutcomeView::Emit(p) => (st2, evs.push(p)),
            _ => (st2, evs),
        }
    }
}

/// Drive one create invocation over a fully materialized stream: classify
/// every line in order, then finalize against the exit status and the
/// captured standard output. Returns the progress events in emission order
/// and the final result.
pub fn run_create_stream(
    lines: &Vec<String>,
    exit_code: Option<i32>,
    out: &StdoutCapture,
) -> (r: (Vec<CreateProgress>, Result<Create, CreateError>))
    ensures
        ({
            let (st, evs) = spec_stream(spec_run_init(), lines.deep_view());
            &&& Seq::new(r.0@.len(), |i: int| r.0@[i]@) == evs
            &&& spec_finalize(st, exit_code, out@) == match r.1 {
                Ok(c) => Ok::<CreateView, CreateErrorView>(c@),
                Err(e) => Err::<CreateView, CreateErrorView>(e@),
            }
        }),
{
    let mut run = CreateRun::new();
    let mut events: Vec<CreateProgress> = Vec::new();
    let mut i: usize = 0;
    proof {
        assert(lines.deep_view().subrange(0, 0) =~= Seq::<Seq<char>>::empty());
    }
    while i < lines.len()
        invariant
            i <= lines@.len(),
            lines.deep_view().len() == lines@.len(),
            ({
                let (st, evs) = spec_stream(
                    spec_run_init(),
                    lines.deep_view().subrange(0, i as int),
                );
                run@ == st && Seq::new(events@.len(), |j: int| events@[j]@) == evs
            }),
        decreases lines@.len() - i,
    {
        let ghost prefix = lines.deep_view().subrange(0, i as int);
        let ghost evs_old = Seq::new(events@.len(), |j: int| events@[j]@);
        let outcome = run.on_line(lines[i].as_str());
        proof {
            assert(lines.deep_view()[i as int] == lines@[i as int]@);
            assert(lines.deep_view().subrange(0, i + 1 as int).drop_last() =~= prefix);
            assert(lines.deep_view().subrange(0, i + 1 as int).last() == lines@[i as int]@);
        }
        match outcome {
            LineOutcome::Emit(p) => {
                events.push(p);
                proof {
                    assert(Seq::new(events@.len(), |j: int| events@[j]@) =~= evs_old.push(p@));
                }
            },
            _ => {
                proof {
                    assert(Seq::new(events@.len(), |j: int| events@[j]@) =~= evs_old);
                }
            },
        }
        i += 1;
    }
    proof {
        assert(lines.deep_view().subrange(0, lines@.len() as int) =~= lines.deep_view());
    }
    let result = run.finalize(exit_code, out);
    (events, result)
}

/// A well-formed unfinished progress line: it decodes to an archive-progress
/// record that is not finished and carries all five fields.
pub open spec fn spec_full_progress_line(s: Seq<char>) -> bool {
    spec_decode(s) matches Some(RecordView::ArchiveProgress {
        finished: false,
        original_size: Some(_),
        compressed_size: Some(_),
        deduplicated_size: Some(_),
        nfiles: Some(_),
        path: Some(_),
        ..
    })
}

/// The event a well-formed unfinished progress line projects to.
pub open spec fn spec_progress_event_of(s: Seq<char>) -> CreateProgressView
    recommends
        spec_full_progress_line(s),
{
    match spec_decode(s) {
        Some(
            RecordView::ArchiveProgress {
                original_size,
                compressed_size,
                deduplicated_size,
                nfiles,
                path,
                ..
            },
        ) => CreateProgressView::Progress {
            original_size: original_size->Some_0,
            compressed_size: compressed_size->Some_0,
            deduplicated_size: deduplicated_size->Some_0,
            nfiles: nfiles->Some_0,
            path: path->Some_0,
        },
        _ => CreateProgressView::Finished,
    }
}

proof fn lemma_progress_stream_general(st: RunView, lines: Seq<Seq<char>>)
    requires
        st.reading,
        !st.finished_seen,
        forall|i: int| 0 <= i < lines.len() ==> spec_full_progress_line(#[trigger] lines[i]),
    ensures
        ({
            let (st2, evs) = spec_stream(st, lines);
            &&& st2.reading
            &&& !st2.finished_seen
            &&& st2.terminal == st.terminal
            &&& evs =~= Seq::new(lines.len(), |i: int| spec_progress_event_of(lines[i]))
        }),
    decreases lines.len(),
{
    if lines.len() == 0 {
        assert(spec_stream(st, lines).1 =~= Seq::new(
            lines.len(),
            |i: int| spec_progress_event_of(lines[i]),
        ));
    } else {
        lemma_progress_stream_general(st, lines.drop_last());
        let (st1, evs1) = spec_stream(st, lines.drop_last());
        let (st2, out) = spec_on_line(st1, lines.last());
        assert(spec_full_progress_line(lines.last()));
        assert(out == LineOutcomeView::Emit(spec_progress_event_of(lines.last())));
        assert(spec_stream(st, lines).1 =~= Seq::new(
            lines.len(),
            |i: int| spec_progress_event_of(lines[i]),
        ));
    }
}

/// For a stream of well-formed unfinished progress lines, the orchestrator
/// emits exactly one progress event per line, carrying the same four sizes
/// and path, in the order the lines were received.
pub proof fn lemma_progress_events_in_order(lines: Seq<Seq<char>>)
    requires
        forall|i: int| 0 <= i < lines.len() ==> spec_full_progress_line(#[trigger] lines[i]),
    ensures
        ({
            let (st, evs) = spec_stream(spec_run_init(), lines);
            &&& evs.len() == lines.len()
            &&& forall|i: int| 0 <= i < lines.len() ==> evs[i] == spec_progress_event_of(lines[i])
        }),
{
    lemma_progress_stream_general(spec_run_init(), lines);
}

proof fn lemma_finished_general(st: RunView, lines: Seq<Seq<char>>)
    ensures
        ({
            let (st2, evs) = spec_stream(st, lines);
            &&& st.finished_seen ==> (st2.finished_seen && evs.len() == 0)
            &&& forall|i: int|
                0 <= i < evs.len() && evs[i] is Finished ==> i == evs.len() - 1
                    && st2.finished_seen
            &&& st2.finished_seen <==> (st.finished_seen || exists|i: int|
                0 <= i < evs.len() && (#[trigger] evs[i]) is Finished)
        }),
    decreases lines.len(),
{
    if lines.len() > 0 {
        lemma_finished_general(st, lines.drop_last());
        let (st1, evs1) = spec_stream(st, lines.drop_last());
        let (st2, out) = spec_on_line(st1, lines.last());
        let evs = spec_stream(st, lines).1;
        if st2.finished_seen && !st1.finished_seen {
            assert(out == LineOutcomeView::Emit(CreateProgressView::Finished));
            assert(evs[evs.len() - 1] is Finished);
        }
        if !st2.finished_seen {
            assert(forall|i: int| 0 <= i < evs1.len() ==> !((#[trigger] evs1[i]) is Finished));
            assert(forall|i: int| 0 <= i < evs.len() ==> !((#[trigger] evs[i]) is Finished));
        }
    }
}

/// A finished record ends the progress sub-protocol: in any stream's emitted
/// events, a Finished event is the last event, so at most one is emitted and
/// no Progress event follows it, whatever lines arrive afterwards; and one is
/// emitted exactly when the run records the sub-protocol as finished.
pub proof fn lemma_finished_is_terminal(lines: Seq<Seq<char>>)
    ensures
        ({
            let (st, evs) = spec_stream(spec_run_init(), lines);
            &&& forall|i: int| 0 <= i < evs.len() && evs[i] is Finished ==> i == evs.len() - 1
            &&& st.finished_seen <==> exists|i: int|
                0 <= i < evs.len() && (#[trigger] evs[i]) is Finished
        }),
{
    lemma_finished_general(spec_run_init(), lines);
}

/// A signal termination outranks everything that was recorded mid-stream,
/// including a terminal message identifier.
pub proof fn lemma_signal_outranks_terminal(st: RunView, out: StdoutCaptureView)
    ensures
        spec_finalize(st, None, out) == Err::<CreateView, CreateErrorView>(
            CreateErrorView::TerminatedBySignal,
        ),
{
}

/// A recorded terminal identifier outranks a merely-nonzero exit code: with
/// readable standard output, the identifier's error is the outcome whatever
/// the code.
pub proof fn lemma_terminal_outranks_exit(st: RunView, id: MessageId, code: i32, doc: Seq<char>)
    requires
        st.terminal == Some(id),
    ensures
        spec_finalize(st, Some(code), StdoutCaptureView::Text(doc)) == Err::<
            CreateView,
            CreateErrorView,
        >(spec_create_terminal_error(id)),
{
}

/// Classification is a pure function: the same recorded state, exit status
/// and captured output always classify to the same outcome.
pub proof fn lemma_classification_pure(
    a: RunView,
    b: RunView,
    exit_a: Option<i32>,
    exit_b: Option<i32>,
    out_a: StdoutCaptureView,
    out_b: StdoutCaptureView,
)
    requires
        a == b,
        exit_a == exit_b,
        out_a == out_b,
    ensures
        spec_finalize(a, exit_a, out_a) == spec_finalize(b, exit_b, out_b),
{
}


/// An archive-progress line that violates the progress protocol: not
/// finished, yet missing one of the five fields a Progress event needs.
pub open spec fn spec_violating_progress_line(s: Seq<char>) -> bool {
    spec_decode(s) matches Some(RecordView::ArchiveProgress {
        original_size,
        compressed_size,
        deduplicated_size,
        nfiles,
        path,
        finished: false,
        ..
    }) && !(original_size is Some && compressed_size is Some && deduplicated_size is Some
        && nfiles is Some && path is Some)
}

proof fn lemma_stream_append(st: RunView, a: Seq<Seq<char>>, b: Seq<Seq<char>>)
    ensures
        ({
            let (st1, e1) = spec_stream(st, a);
            let (st2, e2) = spec_stream(st1, b);
            spec_stream(st, a + b) == (st2, e1 + e2)
        }),
    decreases b.len(),
{
    let (st1, e1) = spec_stream(st, a);
    if b.len() == 0 {
        assert(a + b =~= a);
        assert(e1 + Seq::<CreateProgressView>::empty() =~= e1);
    } else {
        lemma_stream_append(st, a, b.drop_last());
        assert((a + b).drop_last() =~= a + b.drop_last());
        assert((a + b).last() == b.last());
        let (st2p, e2p) = spec_stream(st1, b.drop_last());
        let (st3, out) = spec_on_line(st2p, b.last());
        match out {
            LineOutcomeView::Emit(p) => {
                assert(e1 + e2p.push(p) =~= (e1 + e2p).push(p));
            },
            _ => {},
        }
    }
}

proof fn lemma_stopped_stream_is_inert(st: RunView, lines: Seq<Seq<char>>)
    requires
        !st.reading,
    ensures
        spec_stream(st, lines) == (st, Seq::<CreateProgressView>::empty()),
    decreases lines.len(),
{
    if lines.len() > 0 {
        lemma_stopped_stream_is_inert(st, lines.drop_last());
    }
}

/// A protocol-violating progress line ends the read part of the run without
/// an event: whatever lines follow it, no further event is emitted and no
/// further state is recorded, so the outcome of the whole stream is decided
/// by the exit status and the captured standard output against what stood
/// recorded before the violation — with no terminal identifier recorded
/// before it, by the exit status and standard output alone.
pub proof fn lemma_violation_defers_to_exit(
    pre: Seq<Seq<char>>,
    bad: Seq<char>,
    post: Seq<Seq<char>>,
    exit_code: Option<i32>,
    out: StdoutCaptureView,
)
    requires
        spec_violating_progress_line(bad),
        spec_stream(spec_run_init(), pre).0.reading,
        !spec_stream(spec_run_init(), pre).0.finished_seen,
    ensures
        ({
            let (st1, evs1) = spec_stream(spec_run_init(), pre);
            let stopped = RunView {
                terminal: st1.terminal,
                finished_seen: false,
                reading: false,
                collected: st1.collected + bad + seq!['\n'],
            };
            &&& spec_stream(spec_run_init(), pre.push(bad) + post) == (stopped, evs1)
            &&& spec_finalize(
                spec_stream(spec_run_init(), pre.push(bad) + post).0,
                exit_code,
                out,
            ) == spec_finalize(stopped, exit_code, out)
        }),
{
    let (st1, evs1) = spec_stream(spec_run_init(), pre);
    assert(pre.push(bad).drop_last() =~= pre);
    assert(pre.push(bad).last() == bad);
    let (st2, out2) = spec_on_line(st1, bad);
    assert(out2 == LineOutcomeView::Malformed);
    lemma_stream_append(spec_run_init(), pre.push(bad), post);
    lemma_stopped_stream_is_inert(st2, post);
    assert(evs1 + Seq::<CreateProgressView>::empty() =~= evs1);
}

} // verus!
