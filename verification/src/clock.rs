//! The wall clock: instants since the Unix epoch, in whole seconds for the
//! expiry of tokens, in nanoseconds for the records of the database.

use vstd::prelude::*;

verus! {

/// The instant that a raw clock reading stands for. A reading before the
/// epoch counts as an instant in the far future, so that every token has
/// expired by then.
pub open spec fn instant_of(raw: i64) -> u64 {
    if raw >= 0 {
        raw as u64
    } else {
        (raw + 0x1_0000_0000_0000_0000) as u64
    }
}

/// Calls `time::OffsetDateTime::now_utc`, and `unix_timestamp` on what it
/// gives. Nothing is claimed of the result: it is the time of day.
#[verifier::external_body]
pub(crate) fn unix_seconds() -> i64 {
    time::OffsetDateTime::now_utc().unix_timestamp()
}

/// Calls `time::OffsetDateTime::now_utc`, and `unix_timestamp_nanos` on what
/// it gives. Nothing is claimed of the result: it is the time of day.
#[verifier::external_body]
pub(crate) fn unix_nanos() -> i128 {
    time::OffsetDateTime::now_utc().unix_timestamp_nanos()
}

/// The instant that a raw clock reading stands for.
pub fn instant(raw: i64) -> (t: u64)
    ensures
        t == instant_of(raw),
{
    if raw >= 0 {
        raw as u64
    } else {
        let back: u64 = (-(raw + 1)) as u64;
        u64::MAX - back
    }
}

/// The current instant.
pub fn now() -> u64 {
    instant(unix_seconds())
}

} // verus!
