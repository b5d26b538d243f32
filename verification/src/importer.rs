//! The importer: where the database lies, and the buffer of records that is
//! drained into a loader.

use std::collections::VecDeque;
use vstd::prelude::*;
use crate::entry::{EntryView, McFlyEntry};
use crate::history::{
    import_of, importable, message_of, record_of, History, HistoryView, ImportError,
};
use crate::sink::{Loader, Sink};

verus! {

/// The importer of McFly's history: the records of all rows, in the order of
/// the rows, until they are loaded.
#[derive(Debug)]
pub struct McFly {
    records: VecDeque<History>,
}

/// What an import does next while its records are drained.
#[derive(Debug)]
pub enum Step<E> {
    /// Hand this record to the loader, and come back with its answer.
    Push(History),
    /// Every record was delivered.
    Done,
    /// The loader refused the last record, with this error.
    Failed(E),
}

impl View for McFly {
    type V = Seq<HistoryView>;

    closed spec fn view(&self) -> Seq<HistoryView> {
        self.records@.map_values(|h: History| h@)
    }
}

/// The rows as mathematical values.
pub open spec fn rows_view(rows: Seq<McFlyEntry>) -> Seq<EntryView> {
    rows.map_values(|row: McFlyEntry| row@)
}

/// The records of rows that are all importable, in the order of the rows.
pub open spec fn records_of(rows: Seq<EntryView>) -> Seq<HistoryView> {
    rows.map_values(|row: EntryView| record_of(row))
}

/// Whether `at` is the place of the first row that cannot be imported.
pub open spec fn first_refused(rows: Seq<EntryView>, at: int) -> bool {
    &&& 0 <= at < rows.len()
    &&& !importable(rows[at])
    &&& forall|j: int| 0 <= j < at ==> importable(#[trigger] rows[j])
}

/// The variable of the environment that names the history file, where the
/// file is not at its default place.
pub fn history_file_var() -> (name: &'static str)
    ensures
        name@ == "MCFLY_HISTORY_FILE"@,
{
    "MCFLY_HISTORY_FILE"
}

/// The one query that reads the history: the five columns that the import
/// uses, of every row of the `commands` table, in the order of the ids.
pub fn commands_query() -> (sql: &'static str)
    ensures
        sql@
            == "select commands.id, commands.when_run, commands.exit_code, commands.cmd, commands.dir from commands order by commands.id"@,
{
    "select commands.id, commands.when_run, commands.exit_code, commands.cmd, commands.dir from commands order by commands.id"
}

/// Where the history file lies by default, from the user's home directory.
pub fn default_relative_path() -> (path: &'static str)
    ensures
        path@ == ".mcfly/history.db"@,
{
    ".mcfly/history.db"
}

/// Whether every row can be imported.
pub open spec fn all_importable(rows: Seq<EntryView>) -> bool {
    forall|i: int| 0 <= i < rows.len() ==> importable(#[trigger] rows[i])
}

/// Whether the ids of the rows ascend from each row to the next.
pub open spec fn ids_ascend(rows: Seq<EntryView>) -> bool {
    forall|i: int, j: int| 0 <= i < j < rows.len() ==> (#[trigger] rows[i]).id < (#[trigger] rows[j]).id
}

/// The records are as many as the rows and stand in the order of the rows:
/// each record is that of the row at its place, with the row's id as its
/// nanoseconds. So rows numbered from 1 give records numbered from 1, and
/// rows whose ids ascend give records whose nanoseconds ascend.
pub proof fn lemma_records_keep_order(rows: Seq<EntryView>)
    ensures
        records_of(rows).len() == rows.len(),
        forall|i: int| 0 <= i < rows.len() ==> #[trigger] records_of(rows)[i] == record_of(rows[i]),
        forall|i: int| 0 <= i < rows.len() ==> (#[trigger] records_of(rows)[i]).nanos == rows[i].id,
        (forall|i: int| 0 <= i < rows.len() ==> (#[trigger] rows[i]).id == i + 1) ==> (forall|i: int|
            0 <= i < rows.len() ==> (#[trigger] records_of(rows)[i]).nanos == i + 1),
        ids_ascend(rows) ==> (forall|i: int, j: int|
            0 <= i < j < rows.len() ==> (#[trigger] records_of(rows)[i]).nanos < (
            #[trigger] records_of(rows)[j]).nanos),
{
}

/// The message of a history file that was not found ends in the name of the
/// variable that gives its place, after a `$`.
pub proof fn lemma_not_found_names_variable()
    ensures
        message_of(ImportError::PathNotFound) == "Could not find history file. Try setting $"@
            + "MCFLY_HISTORY_FILE"@,
{
    reveal_strlit("Could not find history file. Try setting $MCFLY_HISTORY_FILE");
    reveal_strlit("Could not find history file. Try setting $");
    reveal_strlit("MCFLY_HISTORY_FILE");
    assert(message_of(ImportError::PathNotFound) =~= "Could not find history file. Try setting $"@
        + "MCFLY_HISTORY_FILE"@);
}

impl McFly {
    /// The path at which the history file is looked for: the value of the
    /// variable [`history_file_var`] where it is set, whether or not a file
    /// lies there and whether or not a home directory is known; and else the
    /// default path under the home directory, where there is one.
    /// The paths are of any one type, a `String` or a `PathBuf`.
    pub fn path_candidate<P>(override_path: Option<P>, default_path: Option<P>) -> (path: Option<P>)
        ensures
            path == match override_path {
                Some(given) => Some(given),
                None => default_path,
            },
    {
        match override_path {
            Some(given) => Some(given),
            None => default_path,
        }
    }

    /// The candidate path where a file lies at it, and `PathNotFound` where
    /// none does.
    pub fn path<P>(candidate: P, on_disk: bool) -> (r: Result<P, ImportError>)
        ensures
            on_disk ==> r == Ok::<P, ImportError>(candidate),
            !on_disk ==> r == Err::<P, ImportError>(ImportError::PathNotFound),
    {
        if on_disk {
            Ok(candidate)
        } else {
            Err(ImportError::PathNotFound)
        }
    }

    /// Makes the importer of the rows, which come in the order of their ids.
    /// Every row becomes a record or none does: the first row that cannot
    /// be imported gives the error.
    pub fn new(rows: Vec<McFlyEntry>) -> (r: Result<McFly, ImportError>)
        ensures
            r is Ok <==> all_importable(rows_view(rows@)),
            match r {
                Ok(importer) => importer@ == records_of(rows_view(rows@)),
                Err(e) => exists|at: int|
                    first_refused(rows_view(rows@), at) && import_of(#[trigger] rows_view(rows@)[at])
                        == Err::<HistoryView, ImportError>(e),
            },
    {
        let ghost input = rows@;
        let ghost all = rows_view(input);
        let mut records: VecDeque<History> = VecDeque::new();
        for row in iter: rows
            invariant
                input == iter.seq(),
                all == rows_view(input),
                records@.len() == iter.index(),
                forall|j: int| 0 <= j < iter.index() ==> importable(#[trigger] all[j]),
                forall|j: int| 0 <= j < iter.index() ==> (#[trigger] records@[j])@ == record_of(all[j]),
        {
            let ghost at = iter.index();
            assert(all[at] == row@);
            match History::from(row) {
                Ok(record) => {
                    records.push_back(record);
                },
                Err(e) => {
                    assert(first_refused(all, at));
                    return Err(e);
                },
            }
        }
        let importer = McFly { records };
        assert(importer@ =~= records_of(all));
        Ok(importer)
    }

    /// How many records the importer holds.
    pub fn entries(&self) -> (count: usize)
        ensures
            count == self@.len(),
    {
        self.records.len()
    }

    /// One step of draining the records: what to do after the loader's
    /// `answer` to the record pushed last, or after `Ok(())` where none was
    /// pushed yet. After a refusal the import has failed and nothing more is
    /// handed out; else the first record still held leaves the importer to be
    /// pushed, and where none is left the import is done.
    pub fn step<E>(&mut self, answer: Result<(), E>) -> (next: Step<E>)
        ensures
            match answer {
                Err(e) => next == Step::Failed(e) && final(self)@ == old(self)@,
                Ok(_) => if old(self)@.len() == 0 {
                    next is Done && final(self)@ == old(self)@
                } else {
                    &&& next is Push
                    &&& next->Push_0@ == old(self)@[0]
                    &&& final(self)@ == old(self)@.skip(1)
                },
            },
    {
        match answer {
            Err(e) => Step::Failed(e),
            Ok(_) => match self.records.pop_front() {
                Some(record) => {
                    assert(self@ =~= old(self)@.skip(1));
                    Step::Push(record)
                },
                None => Step::Done,
            },
        }
    }

    /// Hands the records to the loader, in their order, each one after the
    /// loader has answered for the one before. Where the loader takes them
    /// all, each was pushed once and is delivered. Where it refuses one, the
    /// import stops with the loader's error: the records before that one stay
    /// delivered, that one was offered and is not delivered, and none after
    /// it was pushed.
    pub fn load<L: Loader>(self, h: &mut Sink<L>) -> (r: Result<(), L::Error>)
        ensures
            self@.len() == 0 ==> r is Ok,
            match r {
                Ok(_) => {
                    &&& final(h).offered() == old(h).offered() + self@
                    &&& final(h).delivered() == old(h).delivered() + self@
                    &&& final(h).refusals() == old(h).refusals()
                },
                Err(e) => exists|accepted: int|
                    {
                        &&& 0 <= accepted < self@.len()
                        &&& final(h).offered() == old(h).offered() + #[trigger] self@.take(
                            accepted + 1,
                        )
                        &&& final(h).delivered() == old(h).delivered() + self@.take(accepted)
                        &&& final(h).refusals() == old(h).refusals().push(e)
                    },
            },
    {
        let ghost all = self@;
        let mut rest = self;
        let mut answer: Result<(), L::Error> = Ok(());
        let ghost mut pushed: int = 0;
        loop
            invariant
                all == self@,
                0 <= pushed <= all.len(),
                rest@ == all.skip(pushed),
                h.offered() == old(h).offered() + all.take(pushed),
                answer is Ok ==> h.delivered() == old(h).delivered() + all.take(pushed)
                    && h.refusals() == old(h).refusals(),
                answer is Err ==> pushed >= 1 && h.delivered() == old(h).delivered() + all.take(
                    pushed - 1,
                ) && h.refusals() == old(h).refusals().push(answer->Err_0),
            decreases all.len() - pushed + (if answer is Ok { 1int } else { 0int }),
        {
            match rest.step(answer) {
                Step::Push(record) => {
                    assert(all.take(pushed + 1) =~= all.take(pushed).push(all[pushed]));
                    assert(all.skip(pushed).skip(1) =~= all.skip(pushed + 1));
                    answer = h.push(record);
                    proof {
                        pushed = pushed + 1;
                    }
                },
                Step::Done => {
                    assert(all.take(pushed) =~= all);
                    return Ok(());
                },
                Step::Failed(e) => {
                    assert(h.offered() == old(h).offered() + self@.take((pushed - 1) + 1));
                    return Err(e);
                },
            }
        }
    }
}

} // verus!
