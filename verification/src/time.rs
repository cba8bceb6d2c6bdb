//! Points in time.
use vstd::prelude::*;

use crate::model::Model;

verus! {

/// A point in time: seconds since the epoch, and nanoseconds.
#[derive(Debug, Clone, Copy, PartialEq, Eq)]
pub struct Timestamp {
    pub seconds: i64,
    pub nanos: u32,
}

impl Model for Timestamp {
    type M = Timestamp;

    open spec fn model(&self) -> Timestamp {
        *self
    }
}

/// Whether `a` is later than `b`.
pub open spec fn is_later(a: Timestamp, b: Timestamp) -> bool {
    a.seconds > b.seconds || (a.seconds == b.seconds && a.nanos > b.nanos)
}

/// Whether `a` is later than `b`.
pub fn later(a: &Timestamp, b: &Timestamp) -> (r: bool)
    ensures
        r == is_later(*a, *b),
{
    a.seconds > b.seconds || (a.seconds == b.seconds && a.nanos > b.nanos)
}

/// The first second that a calendar date stands for: January 1st of the year -262143.
pub const FIRST_SECOND: i64 = -8334601228800;

/// The last second that a calendar date stands for: the end of the year 262142.
pub const LAST_SECOND: i64 = 8210266876799;

/// `chrono::DateTime::from_timestamp` with no nanoseconds: the point in time `seconds` after the
/// epoch, where its date lies in the calendar's range.
#[verifier::external_body]
fn chrono_from_timestamp(seconds: i64) -> (r: Option<i64>)
    ensures
        r == (if FIRST_SECOND <= seconds <= LAST_SECOND {
            Some(seconds)
        } else {
            None::<i64>
        }),
{
    chrono::DateTime::from_timestamp(seconds, 0).map(|t| t.timestamp())
}

/// The time that a commit records, or `now` where no calendar date stands for it.
pub open spec fn commit_time(seconds: i64, now: Timestamp) -> Timestamp {
    if FIRST_SECOND <= seconds <= LAST_SECOND {
        Timestamp { seconds, nanos: 0 }
    } else {
        now
    }
}

/// The time that a commit records, or `now` where no calendar date stands for it.
pub fn time_of_commit(seconds: i64, now: Timestamp) -> (r: Timestamp)
    ensures
        r == commit_time(seconds, now),
{
    match chrono_from_timestamp(seconds) {
        Some(s) => Timestamp { seconds: s, nanos: 0 },
        None => now,
    }
}

} // verus!
