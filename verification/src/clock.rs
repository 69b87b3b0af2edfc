//! The wall-clock reading that saves are stamped with.

use vstd::prelude::*;

verus! {

/// Relies on chrono's `Utc::now` and `DateTime::timestamp_millis`: the
/// current time of the system clock, as milliseconds since the Unix epoch.
/// Nothing is promised of the result: the clock can be set to anything, and
/// two readings may come back in any order, so callers must hold for every
/// value. (chrono itself aborts when the system clock is set before 1970.)
#[verifier::external_body]
pub fn now_millis() -> i64 {
    chrono::Utc::now().timestamp_millis()
}

} // verus!
