//! The wall clock that stamps bids.

use vstd::prelude::*;
use crate::models::v1::timestamp::Timestamp;

verus! {

/// Reads the system clock through `chrono::Utc::now` and returns the reading
/// as seconds and nanoseconds since the start of 1970 (`DateTime::timestamp`
/// and `DateTime::timestamp_subsec_nanos`).
///
/// Nothing is proved of this function. Its contract claims one thing, which
/// holds of every reading: chrono builds the value from a `Duration` since the
/// epoch, whose sub-second part is below one second, so a reading is never
/// inside a leap second. Which instant comes back is left open, and two
/// readings need not be in order. chrono panics if the system clock is set
/// before 1970.
#[verifier::external_body]
pub(crate) fn now() -> (reading: Timestamp)
    ensures
        reading.nanos < 1_000_000_000,
{
    let utc = chrono::Utc::now();
    Timestamp { secs: utc.timestamp(), nanos: utc.timestamp_subsec_nanos() }
}

} // verus!
