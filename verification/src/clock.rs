//! The wall clock.

use crate::model::Timestamp;
use vstd::prelude::*;

verus! {

/// Reads the wall clock with `chrono::Utc::now` and takes the reading apart
/// with `DateTime::timestamp` and `DateTime::timestamp_subsec_nanos`.
///
/// Trusted: the sub-second part of a reading is below one second (the clock
/// never reports a leap second). Nothing is claimed about how a reading
/// relates to an earlier one: the wall clock can be set back. The call
/// panics when the system time lies before 1970.
#[verifier::external_body]
pub(crate) fn now() -> (t: Timestamp)
    ensures
        t.is_normal(),
{
    let reading = chrono::Utc::now();
    Timestamp { secs: reading.timestamp(), nanos: reading.timestamp_subsec_nanos() }
}

} // verus!
