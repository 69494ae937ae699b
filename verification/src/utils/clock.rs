//! The wall clock, as milliseconds since the Unix epoch.

use vstd::prelude::*;

verus! {

/// The number of milliseconds in a day.
pub const MILLIS_PER_DAY: i64 = 86_400_000;

/// The number of days for which a processed event stays recorded, unless
/// told otherwise.
pub const DEFAULT_RETENTION_DAYS: i32 = 7;

/// The number of hours between two sweeps of the processed events, unless
/// told otherwise.
pub const DEFAULT_SWEEP_INTERVAL_HOURS: u64 = 24;

/// Reads the current time with `chrono::Utc::now` and gives it as
/// `DateTime::timestamp_millis` does. The result depends on when the call is
/// made, so nothing is claimed of it. `Utc::now` panics where the system
/// clock stands before the Unix epoch.
#[verifier::external_body]
pub(crate) fn now_millis() -> i64 {
    chrono::Utc::now().timestamp_millis()
}

/// The instant `days` days before `now`, held within the range of the clock.
pub open spec fn days_before(now: i64, days: i32) -> int {
    let t = now - days * MILLIS_PER_DAY;
    if t < i64::MIN {
        i64::MIN as int
    } else if t > i64::MAX {
        i64::MAX as int
    } else {
        t
    }
}

/// The instant before which processed events are swept: `retention_days`
/// days before `now`.
pub fn retention_cutoff(now: i64, retention_days: i32) -> (r: i64)
    ensures
        r == days_before(now, retention_days),
{
    let span: i64 = (retention_days as i64) * MILLIS_PER_DAY;
    match now.checked_sub(span) {
        Some(t) => t,
        None => if span > 0 {
            i64::MIN
        } else {
            i64::MAX
        },
    }
}

} // verus!
