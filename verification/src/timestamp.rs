//! UTC instants at nanosecond resolution, made through `chrono`.

use vstd::prelude::*;

verus! {

/// Nanoseconds in one second: the nanosecond part of a timestamp lies below it.
pub const NANOS_PER_SEC: u32 = 1_000_000_000;

/// The first second that `chrono` can represent: midnight of January 1st in
/// the year -262143, counted from the Unix epoch.
pub const MIN_SECS: i64 = -8_334_601_228_800;

/// The last second that `chrono` can represent: 23:59:59 of December 31st in
/// the year 262142, counted from the Unix epoch.
pub const MAX_SECS: i64 = 8_210_266_876_799;

/// A UTC instant: whole seconds since the Unix epoch, and the nanoseconds
/// since the last whole second.
#[derive(Clone, Copy, Debug, PartialEq, Eq, Structural)]
pub struct Timestamp {
    pub secs: i64,
    pub nanos: u32,
}

/// Whether `secs` seconds since the Unix epoch fall inside the range of
/// dates that `chrono` represents.
pub open spec fn secs_in_range(secs: int) -> bool {
    MIN_SECS <= secs <= MAX_SECS
}

/// The instant of `secs` seconds and `nanos` nanoseconds, where there is one.
pub open spec fn instant(secs: int, nanos: int) -> Option<Timestamp>
    recommends
        0 <= nanos < NANOS_PER_SEC,
{
    if secs_in_range(secs) {
        Some(Timestamp { secs: secs as i64, nanos: nanos as u32 })
    } else {
        None
    }
}

/// Calls `chrono::DateTime::<Utc>::from_timestamp` and reads the instant back
/// with `timestamp` and `timestamp_subsec_nanos`.
///
/// Unproved: for a nanosecond part below one second, `chrono` makes an
/// instant exactly when the seconds lie between [`MIN_SECS`] and
/// [`MAX_SECS`] (its years -262143 to 262142), and what is read back is what
/// was put in.
#[verifier::external_body]
pub(crate) fn utc_instant(secs: i64, nanos: u32) -> (r: Option<Timestamp>)
    requires
        nanos < NANOS_PER_SEC,
    ensures
        r == instant(secs as int, nanos as int),
{
    match chrono::DateTime::from_timestamp(secs, nanos) {
        Some(dt) => Some(Timestamp { secs: dt.timestamp(), nanos: dt.timestamp_subsec_nanos() }),
        None => None,
    }
}

impl Timestamp {
    /// The instant of `secs` seconds and `nanos` nanoseconds since the Unix
    /// epoch, or `None` where the nanoseconds make a whole second or more, or
    /// the seconds lie outside the dates that can be represented.
    pub fn new(secs: i64, nanos: u32) -> (r: Option<Timestamp>)
        ensures
            r == if nanos < NANOS_PER_SEC {
                instant(secs as int, nanos as int)
            } else {
                None
            },
    {
        if nanos < NANOS_PER_SEC {
            utc_instant(secs, nanos)
        } else {
            None
        }
    }
}

} // verus!
