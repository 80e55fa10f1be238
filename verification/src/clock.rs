//! The wall clock from which a written sample takes its timestamp.

use vstd::prelude::*;

verus! {

/// Reads the wall clock through `chrono::Utc::now` and takes the whole
/// seconds since the Unix epoch from it with `DateTime::timestamp`.
///
/// Nothing is claimed of what comes back: it is whatever the clock of the
/// machine shows, and nothing ties one reading to the next.
#[verifier::external_body]
pub(crate) fn unix_seconds() -> i64 {
    chrono::Utc::now().timestamp()
}

/// The timestamp of a sample taken `seconds` after the Unix epoch.
pub open spec fn timestamp_at(seconds: i64) -> u64 {
    seconds as u64
}

/// Turns seconds since the Unix epoch into the timestamp of a sample. The
/// seconds are taken as they are; a count from before the epoch wraps round.
pub fn timestamp_from_seconds(seconds: i64) -> (timestamp: u64)
    ensures
        timestamp == timestamp_at(seconds),
        0 <= seconds ==> timestamp == seconds,
{
    seconds as u64
}

} // verus!
