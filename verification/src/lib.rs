//! Import of McFly shell history into canonical history records.
//!
//! The rows of McFly's `commands` table are turned into [`History`] records
//! in the order of their ids. McFly stores no sub-second precision, so the
//! row id is reused as the nanosecond part of each timestamp: rows run in the
//! same second keep their order, and no two of them share a timestamp.
//! The [`McFly`] importer buffers the records and drains them into a
//! [`Loader`], one at a time; a [`Sink`] keeps the account of what the loader
//! took.

pub mod entry;
pub mod history;
pub mod importer;
pub mod sink;
pub mod timestamp;

pub use entry::{EntryView, McFlyEntry, McFlyEntryCount};
pub use history::{History, HistoryView, ImportError};
pub use importer::{
    commands_query, default_relative_path, history_file_var, McFly, Step,
};
pub use sink::{Loader, Sink};
pub use timestamp::{Timestamp, MAX_SECS, MIN_SECS, NANOS_PER_SEC};
