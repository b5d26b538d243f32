//! The rows read from McFly's database.

use vstd::prelude::*;

verus! {

/// The row of a query that counts the commands in the database.
#[derive(Debug)]
pub struct McFlyEntryCount {
    pub count: usize,
}

/// One row of McFly's `commands` table, with the columns that the import
/// reads. `when_run` is in seconds since the Unix epoch, taken as UTC.
#[derive(Debug)]
pub struct McFlyEntry {
    pub id: i64,
    pub when_run: i64,
    pub exit_code: i64,
    pub cmd: String,
    pub dir: String,
}

/// What a [`McFlyEntry`] holds, as mathematical values.
pub struct EntryView {
    pub id: int,
    pub when_run: int,
    pub exit_code: int,
    pub cmd: Seq<char>,
    pub dir: Seq<char>,
}

impl View for McFlyEntry {
    type V = EntryView;

    open spec fn view(&self) -> EntryView {
        EntryView {
            id: self.id as int,
            when_run: self.when_run as int,
            exit_code: self.exit_code as int,
            cmd: self.cmd@,
            dir: self.dir@,
        }
    }
}

} // verus!
