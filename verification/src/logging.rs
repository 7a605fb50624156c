//! Structured log records emitted by the supervisor. The host owns the
//! process-wide logging facility; the supervisor only appends records to
//! its log, and the host forwards each record to that sink at the record's
//! severity.

use vstd::prelude::*;
use crate::process::SpawnError;

verus! {

/// Severity of a log record.
#[derive(Clone, Copy, Debug, PartialEq, Eq, Structural)]
pub enum LogLevel {
    Info,
    Warn,
    Error,
}

/// Spec-level value of a [`LogRecord`].
pub enum LogRecordView {
    DevModeNoSidecar,
    SpawnedBackend { pid: u32 },
    SpawnFailed { reason: SpawnError },
    BackendOutput { line: Seq<char> },
    KillSucceeded { pid: u32 },
    KillFailed { pid: u32 },
}

/// One structured record: mode selection, a spawn outcome with its process
/// ID, a relayed line of backend output, or a kill outcome.
#[derive(Clone, Debug, PartialEq, Eq)]
pub enum LogRecord {
    /// Development mode selected: no sidecar is spawned.
    DevModeNoSidecar,
    /// The sidecar started; `pid` is the child's process ID.
    SpawnedBackend { pid: u32 },
    /// The spawn attempt failed for the given reason.
    SpawnFailed { reason: SpawnError },
    /// One line of the child's standard output, relayed verbatim.
    BackendOutput { line: String },
    /// The close-time kill signal reached the process.
    KillSucceeded { pid: u32 },
    /// The close-time kill signal failed; the failure is swallowed.
    KillFailed { pid: u32 },
}

impl View for LogRecord {
    type V = LogRecordView;

    open spec fn view(&self) -> LogRecordView {
        match self {
            LogRecord::DevModeNoSidecar => LogRecordView::DevModeNoSidecar,
            LogRecord::SpawnedBackend { pid } => LogRecordView::SpawnedBackend { pid: *pid },
            LogRecord::SpawnFailed { reason } => LogRecordView::SpawnFailed { reason: *reason },
            LogRecord::BackendOutput { line } => LogRecordView::BackendOutput { line: line@ },
            LogRecord::KillSucceeded { pid } => LogRecordView::KillSucceeded { pid: *pid },
            LogRecord::KillFailed { pid } => LogRecordView::KillFailed { pid: *pid },
        }
    }
}

/// Severity of each record: spawn failures are errors, kill failures are
/// warnings, everything else is informational.
pub open spec fn level_of(r: LogRecordView) -> LogLevel {
    match r {
        LogRecordView::SpawnFailed { .. } => LogLevel::Error,
        LogRecordView::KillFailed { .. } => LogLevel::Warn,
        _ => LogLevel::Info,
    }
}

impl LogRecord {
    /// The severity at which the host forwards this record.
    pub fn level(&self) -> (l: LogLevel)
        ensures
            l == level_of(self@),
    {
        match self {
            LogRecord::SpawnFailed { .. } => LogLevel::Error,
            LogRecord::KillFailed { .. } => LogLevel::Warn,
            _ => LogLevel::Info,
        }
    }
}

/// The view of a record sequence.
pub open spec fn log_view(l: Seq<LogRecord>) -> Seq<LogRecordView> {
    l.map_values(|r: LogRecord| r@)
}

/// Appending a record to the log appends its view to the log's view.
pub proof fn lemma_log_view_push(l: Seq<LogRecord>, r: LogRecord)
    ensures
        log_view(l.push(r)) == log_view(l).push(r@),
{
    assert(log_view(l.push(r)) =~= log_view(l).push(r@));
}

/// The text that lossy UTF-8 decoding yields for a byte sequence: a pure
/// function of the bytes alone.
pub uninterp spec fn lossy_decode(bytes: Seq<u8>) -> Seq<char>;

/// Relies on `String::from_utf8_lossy`: decodes the bytes as UTF-8,
/// replacing invalid sequences and never rejecting; the result depends on
/// the bytes alone.
#[verifier::external_body]
pub(crate) fn decode_lossy(bytes: &Vec<u8>) -> (r: String)
    ensures
        r@ == lossy_decode(bytes@),
{
    String::from_utf8_lossy(bytes).into_owned()
}

} // verus!
