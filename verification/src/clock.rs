//! Wall-clock readings. Time is an outside fact: nothing is promised of the
//! values beyond the documented ranges of the calendar components.

use vstd::prelude::*;
use chrono::Datelike;
use chrono::Timelike;

verus! {

/// Relies on `chrono::Utc::now().timestamp_millis()`: milliseconds since the
/// Unix epoch. Nothing is promised of the value.
#[verifier::external_body]
pub fn utc_now_ms() -> i64 {
    chrono::Utc::now().timestamp_millis()
}

/// Relies on `chrono::Local::now()` with the `Datelike` and `Timelike`
/// accessors: month is 1 to 12, day 1 to 31, hour under 24, minute and
/// second under 60.
#[verifier::external_body]
pub fn local_now_parts() -> (r: (i32, u32, u32, u32, u32, u32))
    ensures
        1 <= r.1 <= 12,
        1 <= r.2 <= 31,
        r.3 < 24,
        r.4 < 60,
        r.5 < 60,
{
    let now = chrono::Local::now();
    (now.year(), now.month(), now.day(), now.hour(), now.minute(), now.second())
}

} // verus!
