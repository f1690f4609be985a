//! The wall clock that stamps readings.

use crate::device::Timestamp;
use vstd::prelude::*;

verus! {

/// The current instant in UTC: chrono's conversion of `SystemTime` to
/// `DateTime<Utc>`, applied to `SystemTime::now()` and taken apart with
/// `DateTime::timestamp` and `DateTime::timestamp_subsec_nanos`. Nothing is
/// claimed of the value. The conversion takes a clock set before 1970 as it
/// is; it refuses only an instant outside the years that chrono can hold.
#[verifier::external_body]
pub(crate) fn now() -> (instant: Timestamp) {
    let current = chrono::DateTime::<chrono::Utc>::from(std::time::SystemTime::now());
    Timestamp { secs: current.timestamp(), nanos: current.timestamp_subsec_nanos() }
}

} // verus!
