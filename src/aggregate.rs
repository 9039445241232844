//! Folding the events of a running process into its result.
//!
//! The aggregator is a state machine: the caller reads each event off the
//! process, hands it over, forwards the log entry it gets back, and asks for
//! the outcome once the stream is exhausted.

use vstd::prelude::*;

use crate::outcome::{
    classify, classify_spec, stderr_entry, IngestionResult, IngestionResultView, LogEntry,
    LogEntryView, RunError, RunErrorView,
};
use crate::text::{decode_lossy, lossy_text};

verus! {

/// One thing that a supervised process reports.
#[derive(Debug, Clone)]
pub enum ProcessEvent {
    /// A chunk of standard output.
    Stdout(Vec<u8>),
    /// A chunk of error output.
    Stderr(Vec<u8>),
    /// The process ended, with its exit code unless a signal ended it.
    Terminated(Option<i32>),
    /// The process could not be run.
    SpawnError(String),
}

/// An event with its output decoded to characters.
pub enum EventView {
    Stdout(Seq<char>),
    Stderr(Seq<char>),
    Terminated(Option<i32>),
    SpawnError(Seq<char>),
}

impl View for ProcessEvent {
    type V = EventView;

    open spec fn view(&self) -> EventView {
        match self {
            ProcessEvent::Stdout(b) => EventView::Stdout(lossy_text(b@)),
            ProcessEvent::Stderr(b) => EventView::Stderr(lossy_text(b@)),
            ProcessEvent::Terminated(c) => EventView::Terminated(*c),
            ProcessEvent::SpawnError(m) => EventView::SpawnError(m@),
        }
    }
}

/// The outcome of a run as plain characters.
pub type OutcomeView = Result<IngestionResultView, RunErrorView>;

/// The view of an outcome.
pub open spec fn outcome_view(r: Result<IngestionResult, RunError>) -> OutcomeView {
    match r {
        Ok(v) => Ok(v@),
        Err(e) => Err(e@),
    }
}

/// The aggregator's state: both buffers, and the outcome once one is decided.
pub struct AggregatorView {
    pub stdout: Seq<char>,
    pub stderr: Seq<char>,
    pub verdict: Option<OutcomeView>,
}

/// The state before any event.
pub open spec fn initial_state() -> AggregatorView {
    AggregatorView { stdout: Seq::empty(), stderr: Seq::empty(), verdict: None }
}

/// The state after one more event. Output is appended until an outcome is
/// decided; the first termination or spawn error decides it, and every later
/// event is drained without effect.
pub open spec fn step(s: AggregatorView, e: EventView) -> AggregatorView {
    if s.verdict is Some {
        s
    } else {
        match e {
            EventView::Stdout(t) => AggregatorView { stdout: s.stdout + t, ..s },
            EventView::Stderr(t) => AggregatorView { stderr: s.stderr + t + seq!['\n'], ..s },
            EventView::Terminated(code) => AggregatorView {
                verdict: Some(Ok(classify_spec(code, s.stdout, s.stderr))),
                ..s
            },
            EventView::SpawnError(m) => AggregatorView {
                verdict: Some(Err(RunErrorView::Spawn(m))),
                ..s
            },
        }
    }
}

/// The log entry that one more event produces: each chunk of error output
/// that arrives before an outcome is decided is forwarded as it is.
pub open spec fn log_of(s: AggregatorView, e: EventView) -> Option<LogEntryView> {
    if s.verdict is None && e is Stderr {
        Some(stderr_entry(e->Stderr_0))
    } else {
        None
    }
}

/// The state after a whole sequence of events.
pub open spec fn fold_events(events: Seq<EventView>) -> AggregatorView
    decreases events.len(),
{
    if events.len() == 0 {
        initial_state()
    } else {
        step(fold_events(events.drop_last()), events.last())
    }
}

/// The log entries that a whole sequence of events produces, in order.
pub open spec fn logs_of(events: Seq<EventView>) -> Seq<LogEntryView>
    decreases events.len(),
{
    if events.len() == 0 {
        Seq::empty()
    } else {
        let before = fold_events(events.drop_last());
        let earlier = logs_of(events.drop_last());
        match log_of(before, events.last()) {
            Some(entry) => earlier.push(entry),
            None => earlier,
        }
    }
}

/// The outcome of a state once the stream is exhausted: the decided one, or a
/// hard error where the process never terminated.
pub open spec fn finish_spec(s: AggregatorView) -> OutcomeView {
    match s.verdict {
        Some(v) => v,
        None => Err(RunErrorView::StreamEnded),
    }
}

/// Accumulates a process's output and decides its outcome.
pub struct Aggregator {
    stdout: String,
    stderr: String,
    verdict: Option<Result<IngestionResult, RunError>>,
}

impl View for Aggregator {
    type V = AggregatorView;

    closed spec fn view(&self) -> AggregatorView {
        AggregatorView {
            stdout: self.stdout@,
            stderr: self.stderr@,
            verdict: match self.verdict {
                Some(v) => Some(outcome_view(v)),
                None => None,
            },
        }
    }
}

impl Aggregator {
    /// An aggregator that has seen no event.
    pub fn new() -> (r: Aggregator)
        ensures
            r@ == initial_state(),
    {
        Aggregator { stdout: String::new(), stderr: String::new(), verdict: None }
    }

    /// Takes one event whose output is already decoded; returns the log entry
    /// to forward, if any.
    pub fn accept_decoded(&mut self, event: DecodedEvent) -> (r: Option<LogEntry>)
        ensures
            final(self)@ == step(old(self)@, event@),
            log_view(r) == log_of(old(self)@, event@),
    {
        if self.verdict.is_some() {
            return None;
        }
        match event {
            DecodedEvent::Stdout(t) => {
                let mut out = String::new();
                std::mem::swap(&mut out, &mut self.stdout);
                out.append(t.as_str());
                self.stdout = out;
                None
            },
            DecodedEvent::Stderr(t) => {
                let mut err = String::new();
                std::mem::swap(&mut err, &mut self.stderr);
                err.append(t.as_str());
                err.append("\n");
                proof {
                    reveal_strlit("\n");
                }
                assert(err@ =~= old(self).stderr@ + t@ + seq!['\n']);
                self.stderr = err;
                Some(LogEntry::stderr(t.as_str()))
            },
            DecodedEvent::Terminated(code) => {
                let out = self.stdout.clone();
                let err = self.stderr.clone();
                self.verdict = Some(Ok(classify(code, out, err)));
                None
            },
            DecodedEvent::SpawnError(m) => {
                self.verdict = Some(Err(RunError::Spawn(m)));
                None
            },
        }
    }

    /// Takes one event from the process; returns the log entry to forward, if
    /// any.
    pub fn accept(&mut self, event: &ProcessEvent) -> (r: Option<LogEntry>)
        ensures
            final(self)@ == step(old(self)@, event@),
            log_view(r) == log_of(old(self)@, event@),
    {
        let decoded = match event {
            ProcessEvent::Stdout(b) => DecodedEvent::Stdout(decode_lossy(b.as_slice())),
            ProcessEvent::Stderr(b) => DecodedEvent::Stderr(decode_lossy(b.as_slice())),
            ProcessEvent::Terminated(c) => DecodedEvent::Terminated(*c),
            ProcessEvent::SpawnError(m) => DecodedEvent::SpawnError(m.clone()),
        };
        self.accept_decoded(decoded)
    }

    /// The outcome, once the stream is exhausted.
    pub fn finish(self) -> (r: Result<IngestionResult, RunError>)
        ensures
            outcome_view(r) == finish_spec(self@),
    {
        match self.verdict {
            Some(v) => v,
            None => Err(RunError::StreamEnded),
        }
    }
}

/// An event whose output has been decoded to text.
#[derive(Debug, Clone)]
pub enum DecodedEvent {
    Stdout(String),
    Stderr(String),
    Terminated(Option<i32>),
    SpawnError(String),
}

impl View for DecodedEvent {
    type V = EventView;

    open spec fn view(&self) -> EventView {
        match self {
            DecodedEvent::Stdout(t) => EventView::Stdout(t@),
            DecodedEvent::Stderr(t) => EventView::Stderr(t@),
            DecodedEvent::Terminated(c) => EventView::Terminated(*c),
            DecodedEvent::SpawnError(m) => EventView::SpawnError(m@),
        }
    }
}

/// The view of an optional log entry.
pub open spec fn log_view(r: Option<LogEntry>) -> Option<LogEntryView> {
    match r {
        Some(e) => Some(e@),
        None => None,
    }
}

/// The views of a sequence of events.
pub open spec fn events_view(events: Seq<ProcessEvent>) -> Seq<EventView> {
    events.map_values(|e: ProcessEvent| e@)
}

/// Drains a whole stream of events: returns the outcome and every log entry
/// forwarded on the way, in arrival order.
pub fn drain(events: Vec<ProcessEvent>) -> (r: (Result<IngestionResult, RunError>, Vec<LogEntry>))
    ensures
        outcome_view(r.0) == finish_spec(fold_events(events_view(events@))),
        r.1@.map_values(|e: LogEntry| e@) == logs_of(events_view(events@)),
{
    let mut agg = Aggregator::new();
    let mut logs: Vec<LogEntry> = Vec::new();
    let ghost all = events_view(events@);
    let mut i: usize = 0;
    while i < events.len()
        invariant
            i <= events@.len(),
            all == events_view(events@),
            agg@ == fold_events(all.subrange(0, i as int)),
            logs@.map_values(|e: LogEntry| e@) == logs_of(all.subrange(0, i as int)),
        decreases events@.len() - i,
    {
        let ghost prefix = all.subrange(0, i + 1);
        assert(prefix.drop_last() =~= all.subrange(0, i as int));
        let entry = agg.accept(&events[i]);
        match entry {
            Some(e) => {
                logs.push(e);
            },
            None => {},
        }
        assert(logs@.map_values(|e: LogEntry| e@) =~= logs_of(prefix));
        i = i + 1;
    }
    assert(all.subrange(0, i as int) =~= all);
    (agg.finish(), logs)
}

/// A stream that carries only the given chunks of error output, in order.
pub open spec fn stderr_events(chunks: Seq<Seq<char>>) -> Seq<EventView> {
    chunks.map_values(|t: Seq<char>| EventView::Stderr(t))
}

/// The chunks, each followed by a line separator, one after another.
pub open spec fn lines_of(chunks: Seq<Seq<char>>) -> Seq<char>
    decreases chunks.len(),
{
    if chunks.len() == 0 {
        Seq::empty()
    } else {
        lines_of(chunks.drop_last()) + chunks.last() + seq!['\n']
    }
}

/// Each chunk of error output is forwarded to the log on its own and in
/// arrival order, while the error buffer collects every chunk, each followed
/// by a line separator.
pub proof fn lemma_stderr_forwarded(chunks: Seq<Seq<char>>)
    ensures
        fold_events(stderr_events(chunks)) == (AggregatorView {
            stdout: Seq::empty(),
            stderr: lines_of(chunks),
            verdict: None,
        }),
        logs_of(stderr_events(chunks)) == chunks.map_values(|t: Seq<char>| stderr_entry(t)),
    decreases chunks.len(),
{
    if chunks.len() > 0 {
        let rest = chunks.drop_last();
        lemma_stderr_forwarded(rest);
        assert(stderr_events(chunks).drop_last() =~= stderr_events(rest));
        assert(chunks.map_values(|t: Seq<char>| stderr_entry(t)) =~= rest.map_values(
            |t: Seq<char>| stderr_entry(t),
        ).push(stderr_entry(chunks.last())));
    } else {
        assert(chunks.map_values(|t: Seq<char>| stderr_entry(t)) =~= Seq::empty());
    }
}

/// A run whose error output arrives in chunks and that then ends with a code
/// other than 0, or by a signal, fails with every chunk in its error text, and
/// has forwarded each chunk to the log in order.
pub proof fn lemma_failed_run_reports_stderr(chunks: Seq<Seq<char>>, exit_code: Option<i32>)
    requires
        exit_code != Some(0i32),
    ensures
        finish_spec(fold_events(stderr_events(chunks).push(EventView::Terminated(exit_code))))
            == Ok::<IngestionResultView, RunErrorView>(
            IngestionResultView { success: false, manifest_json: None, error: Some(lines_of(chunks)) },
        ),
        logs_of(stderr_events(chunks).push(EventView::Terminated(exit_code))) == chunks.map_values(
            |t: Seq<char>| stderr_entry(t),
        ),
{
    lemma_stderr_forwarded(chunks);
    let events = stderr_events(chunks).push(EventView::Terminated(exit_code));
    assert(events.drop_last() =~= stderr_events(chunks));
}

/// A spawn error as the only event ends the run with a hard error that
/// carries its message, and with no result.
pub proof fn lemma_spawn_error_is_hard(message: Seq<char>)
    ensures
        finish_spec(fold_events(seq![EventView::SpawnError(message)]))
            == Err::<IngestionResultView, RunErrorView>(RunErrorView::Spawn(message)),
{
    let events = seq![EventView::SpawnError(message)];
    assert(events.drop_last() =~= Seq::<EventView>::empty());
    assert(fold_events(events.drop_last()) == initial_state());
    assert(events.last() == EventView::SpawnError(message));
}

} // verus!
