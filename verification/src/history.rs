//! The canonical history record, and how a McFly row becomes one.

use vstd::prelude::*;
use crate::entry::{EntryView, McFlyEntry};
use crate::timestamp::{instant, secs_in_range, utc_instant, Timestamp, NANOS_PER_SEC};

verus! {

/// Why a row cannot be imported, or the database not be found.
#[derive(Clone, Copy, Debug, PartialEq, Eq, Structural)]
pub enum ImportError {
    /// No history file lies at the path that was looked up.
    PathNotFound,
    /// The row's id is negative, or a whole second or more when counted in
    /// nanoseconds.
    IdOutOfRange { id: i64 },
    /// The row's time lies outside the dates that a timestamp can hold.
    TimeOutOfRange { when_run: i64 },
}

/// The text that tells a user of an error. Where the history file was not
/// found it names the variable by which its place can be given.
pub open spec fn message_of(e: ImportError) -> Seq<char> {
    match e {
        ImportError::PathNotFound => "Could not find history file. Try setting $MCFLY_HISTORY_FILE"@,
        ImportError::IdOutOfRange { .. } => "Row id cannot be used as the nanoseconds of a timestamp"@,
        ImportError::TimeOutOfRange { .. } => "Time of the command is outside the range of timestamps"@,
    }
}

impl ImportError {
    /// The text that tells a user of this error.
    pub fn message(&self) -> (text: String)
        ensures
            text@ == message_of(*self),
    {
        match self {
            ImportError::PathNotFound => {
                "Could not find history file. Try setting $MCFLY_HISTORY_FILE".to_owned()
            },
            ImportError::IdOutOfRange { .. } => {
                "Row id cannot be used as the nanoseconds of a timestamp".to_owned()
            },
            ImportError::TimeOutOfRange { .. } => {
                "Time of the command is outside the range of timestamps".to_owned()
            },
        }
    }
}

/// One command of the shell history, as the rest of the pipeline reads it.
#[derive(Clone, Debug, PartialEq, Eq)]
pub struct History {
    pub timestamp: Timestamp,
    pub command: String,
    pub cwd: String,
    pub exit: i64,
    /// How long the command ran; 0 where that is not known.
    pub duration: i64,
    pub session: Option<String>,
    pub hostname: Option<String>,
}

/// What a [`History`] holds, as mathematical values.
pub struct HistoryView {
    pub secs: int,
    pub nanos: int,
    pub command: Seq<char>,
    pub cwd: Seq<char>,
    pub exit: int,
    pub duration: int,
    pub session: Option<Seq<char>>,
    pub hostname: Option<Seq<char>>,
}

/// The characters of an optional string.
pub open spec fn opt_chars(s: Option<String>) -> Option<Seq<char>> {
    match s {
        Some(text) => Some(text@),
        None => None,
    }
}

impl View for History {
    type V = HistoryView;

    open spec fn view(&self) -> HistoryView {
        HistoryView {
            secs: self.timestamp.secs as int,
            nanos: self.timestamp.nanos as int,
            command: self.command@,
            cwd: self.cwd@,
            exit: self.exit as int,
            duration: self.duration as int,
            session: opt_chars(self.session),
            hostname: opt_chars(self.hostname),
        }
    }
}

/// Whether a row's id can stand as the nanosecond part of a timestamp.
pub open spec fn id_in_range(id: int) -> bool {
    0 <= id < NANOS_PER_SEC
}

/// Whether a row can be imported: its id is a valid count of nanoseconds
/// and its time a second that a timestamp can hold.
pub open spec fn importable(row: EntryView) -> bool {
    id_in_range(row.id) && secs_in_range(row.when_run)
}

/// The record that an importable row becomes. The seconds are those of
/// `when_run`; the nanoseconds are the row's id, which orders the rows of one
/// second and measures nothing. The run time is unknown, and so are the
/// session and the host.
pub open spec fn record_of(row: EntryView) -> HistoryView {
    HistoryView {
        secs: row.when_run,
        nanos: row.id,
        command: row.cmd,
        cwd: row.dir,
        exit: row.exit_code,
        duration: 0,
        session: None,
        hostname: None,
    }
}

/// What importing a row gives: its record, or the reason why it has none.
/// An id out of range is reported before a time out of range.
pub open spec fn import_of(row: EntryView) -> Result<HistoryView, ImportError> {
    if !id_in_range(row.id) {
        Err(ImportError::IdOutOfRange { id: row.id as i64 })
    } else if !secs_in_range(row.when_run) {
        Err(ImportError::TimeOutOfRange { when_run: row.when_run as i64 })
    } else {
        Ok(record_of(row))
    }
}

/// The view of a conversion's result.
pub open spec fn import_view(r: Result<History, ImportError>) -> Result<HistoryView, ImportError> {
    match r {
        Ok(h) => Ok(h@),
        Err(e) => Err(e),
    }
}

impl History {
    /// Makes the record of a row. A row whose id is no valid count of
    /// nanoseconds is rejected, neither clamped nor wrapped; so is one whose
    /// time no timestamp can hold.
    pub fn from(entry: McFlyEntry) -> (r: Result<History, ImportError>)
        ensures
            import_view(r) == import_of(entry@),
            r is Ok <==> importable(entry@),
    {
        if entry.id < 0 || entry.id >= NANOS_PER_SEC as i64 {
            return Err(ImportError::IdOutOfRange { id: entry.id });
        }
        let nanos: u32 = entry.id as u32;
        match utc_instant(entry.when_run, nanos) {
            Some(timestamp) => Ok(
                History {
                    timestamp,
                    command: entry.cmd,
                    cwd: entry.dir,
                    exit: entry.exit_code,
                    duration: 0,
                    session: None,
                    hostname: None,
                },
            ),
            None => Err(ImportError::TimeOutOfRange { when_run: entry.when_run }),
        }
    }
}

/// The record of an importable row has the row's id as its nanoseconds and
/// the row's `when_run` as its seconds, passes the command, the directory
/// and the exit code through, and has a duration of 0 and neither session
/// nor host.
pub proof fn lemma_record_keeps_row(row: EntryView)
    requires
        importable(row),
    ensures
        import_of(row) is Ok,
        import_of(row)->Ok_0.nanos == row.id,
        import_of(row)->Ok_0.secs == row.when_run,
        import_of(row)->Ok_0.command == row.cmd,
        import_of(row)->Ok_0.cwd == row.dir,
        import_of(row)->Ok_0.exit == row.exit_code,
        import_of(row)->Ok_0.duration == 0,
        import_of(row)->Ok_0.session is None,
        import_of(row)->Ok_0.hostname is None,
{
}

/// Two importable rows come out in the order of their ids where they ran in
/// the same second, and in the order of their seconds otherwise: the
/// timestamps of the records are ordered as the pairs of `when_run` and id.
pub proof fn lemma_timestamps_ordered(a: EntryView, b: EntryView)
    requires
        importable(a),
        importable(b),
        a.when_run < b.when_run || (a.when_run == b.when_run && a.id < b.id),
    ensures
        ({
            let x = import_of(a)->Ok_0;
            let y = import_of(b)->Ok_0;
            x.secs * NANOS_PER_SEC + x.nanos < y.secs * NANOS_PER_SEC + y.nanos
        }),
{
    assert((a.when_run + 1) * NANOS_PER_SEC <= b.when_run * NANOS_PER_SEC || a.when_run == b.when_run)
        by (nonlinear_arith)
        requires
            a.when_run <= b.when_run,
    ;
}

} // verus!
