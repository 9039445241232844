//! What an ingestion run reports: log entries on the way, and its result or
//! hard error at the end.

use vstd::prelude::*;

use crate::command::{opt_text, BuildError, BuildErrorView};
use crate::text::{decode_lossy, joined, lossy_text};

verus! {

/// A progress notification for the user interface.
#[derive(Debug, Clone)]
pub struct LogEntry {
    pub log_type: String,
    pub message: String,
}

/// A log entry as plain characters.
pub struct LogEntryView {
    pub log_type: Seq<char>,
    pub message: Seq<char>,
}

impl View for LogEntry {
    type V = LogEntryView;

    open spec fn view(&self) -> LogEntryView {
        LogEntryView { log_type: self.log_type@, message: self.message@ }
    }
}

/// The entry that forwards one chunk of the tool's error output.
pub open spec fn stderr_entry(text: Seq<char>) -> LogEntryView {
    LogEntryView { log_type: "stderr"@, message: text }
}

/// The entry announced before a marketplace's dependencies are synced.
pub open spec fn sync_notice_entry(source: Seq<char>) -> LogEntryView {
    LogEntryView { log_type: "info"@, message: "Syncing "@ + source + " dependencies..."@ }
}

impl LogEntry {
    /// An entry that forwards a chunk of error output.
    pub fn stderr(text: &str) -> (r: LogEntry)
        ensures
            r@ == stderr_entry(text@),
    {
        LogEntry { log_type: "stderr".to_string(), message: text.to_string() }
    }

    /// The entry announced before syncing the dependencies of `source`.
    pub fn sync_notice(source: &str) -> (r: LogEntry)
        ensures
            r@ == sync_notice_entry(source@),
    {
        let head = joined("Syncing ", source);
        let message = joined(head.as_str(), " dependencies...");
        LogEntry { log_type: "info".to_string(), message }
    }
}

/// How an ingestion run ended: the manifest on success, the error output on
/// failure.
#[derive(Debug, Clone)]
pub struct IngestionResult {
    pub success: bool,
    pub manifest_json: Option<String>,
    pub error: Option<String>,
}

/// An ingestion result as plain characters.
pub struct IngestionResultView {
    pub success: bool,
    pub manifest_json: Option<Seq<char>>,
    pub error: Option<Seq<char>>,
}

impl View for IngestionResult {
    type V = IngestionResultView;

    open spec fn view(&self) -> IngestionResultView {
        IngestionResultView {
            success: self.success,
            manifest_json: opt_text(self.manifest_json),
            error: opt_text(self.error),
        }
    }
}

/// The result for an exit status: exit code 0 is success and carries the
/// standard output; any other code, or none at all, is failure and carries the
/// error output.
pub open spec fn classify_spec(
    exit_code: Option<i32>,
    stdout: Seq<char>,
    stderr: Seq<char>,
) -> IngestionResultView {
    if exit_code == Some(0i32) {
        IngestionResultView { success: true, manifest_json: Some(stdout), error: None }
    } else {
        IngestionResultView { success: false, manifest_json: None, error: Some(stderr) }
    }
}

/// Classifies a finished process by its exit status alone.
pub fn classify(exit_code: Option<i32>, stdout: String, stderr: String) -> (r: IngestionResult)
    ensures
        r@ == classify_spec(exit_code, stdout@, stderr@),
{
    match exit_code {
        Some(0i32) => IngestionResult { success: true, manifest_json: Some(stdout), error: None },
        _ => IngestionResult { success: false, manifest_json: None, error: Some(stderr) },
    }
}

/// A failure that ends an ingestion without a result.
#[derive(Debug, Clone)]
pub enum RunError {
    /// No command could be built from the configuration.
    Build(BuildError),
    /// The process could not be started or reported an error of its own.
    Spawn(String),
    /// The dependency sync before a marketplace ingestion failed.
    SyncFailed(String),
    /// The process's events ended before it terminated.
    StreamEnded,
}

/// A run error as plain characters.
pub enum RunErrorView {
    Build(BuildErrorView),
    Spawn(Seq<char>),
    SyncFailed(Seq<char>),
    StreamEnded,
}

impl View for RunError {
    type V = RunErrorView;

    open spec fn view(&self) -> RunErrorView {
        match self {
            RunError::Build(e) => RunErrorView::Build(e@),
            RunError::Spawn(m) => RunErrorView::Spawn(m@),
            RunError::SyncFailed(m) => RunErrorView::SyncFailed(m@),
            RunError::StreamEnded => RunErrorView::StreamEnded,
        }
    }
}

/// The message of a run error.
pub open spec fn run_error_message(e: RunErrorView) -> Seq<char> {
    match e {
        RunErrorView::Build(b) => crate::command::build_error_message(b),
        RunErrorView::Spawn(m) => "Command error: "@ + m,
        RunErrorView::SyncFailed(m) => "Dependency sync failed: "@ + m,
        RunErrorView::StreamEnded => "Process ended unexpectedly"@,
    }
}

impl RunError {
    /// The message shown to the user for this error.
    pub fn message(&self) -> (r: String)
        ensures
            r@ == run_error_message(self@),
    {
        match self {
            RunError::Build(b) => b.message(),
            RunError::Spawn(m) => joined("Command error: ", m.as_str()),
            RunError::SyncFailed(m) => joined("Dependency sync failed: ", m.as_str()),
            RunError::StreamEnded => "Process ended unexpectedly".to_string(),
        }
    }
}

/// Decides on the dependency sync once it has run: it passes when it
/// succeeded, and otherwise fails with its error output as text.
pub fn check_sync_text(succeeded: bool, stderr_text: String) -> (r: Result<(), RunError>)
    ensures
        succeeded ==> r is Ok,
        !succeeded ==> r is Err && r->Err_0@ == RunErrorView::SyncFailed(stderr_text@),
{
    if succeeded {
        Ok(())
    } else {
        Err(RunError::SyncFailed(stderr_text))
    }
}

/// Decides on the dependency sync from its raw error output; its standard
/// output plays no part.
pub fn check_sync(succeeded: bool, stderr: &[u8]) -> (r: Result<(), RunError>)
    ensures
        succeeded ==> r is Ok,
        !succeeded ==> r is Err && r->Err_0@ == RunErrorView::SyncFailed(lossy_text(stderr@)),
{
    if succeeded {
        Ok(())
    } else {
        check_sync_text(false, decode_lossy(stderr))
    }
}

/// A process that ends with exit code 0 succeeds and hands over its whole
/// standard output; one that ends with any other code, or by a signal, fails
/// and hands over its whole error output. What the output says plays no part.
pub proof fn lemma_exit_status_decides(exit_code: Option<i32>, stdout: Seq<char>, stderr: Seq<char>)
    ensures
        classify_spec(exit_code, stdout, stderr).success <==> exit_code == Some(0i32),
        exit_code is None ==> !classify_spec(exit_code, stdout, stderr).success,
        classify_spec(exit_code, stdout, stderr).success ==> classify_spec(
            exit_code,
            stdout,
            stderr,
        ).manifest_json == Some(stdout) && classify_spec(exit_code, stdout, stderr).error is None,
        !classify_spec(exit_code, stdout, stderr).success ==> classify_spec(
            exit_code,
            stdout,
            stderr,
        ).manifest_json is None && classify_spec(exit_code, stdout, stderr).error == Some(stderr),
{
}

} // verus!
