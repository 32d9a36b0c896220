use vstd::prelude::*;

verus! {

/// The latest time the clock can show, in milliseconds since the epoch: the
/// last millisecond of the year 262142, where `chrono`'s range ends.
pub const CLOCK_MAX_MS: i64 = 8_210_266_876_799_999;

/// Whether `now` is a time the clock can show: at or after the epoch and
/// within `chrono`'s range.
pub open spec fn clock_reading(now: i64) -> bool {
    0 <= now <= CLOCK_MAX_MS
}

/// The current time in milliseconds since the epoch, read from
/// `chrono::Utc::now` through `timestamp_millis`. `Utc::now` returns only for
/// a system time at or after the epoch and inside `chrono`'s range, so the
/// reading lies between zero and `CLOCK_MAX_MS`. Nothing else is claimed of
/// it: it differs from call to call. Not proved.
#[verifier::external_body]
pub(crate) fn current_millis() -> (now: i64)
    ensures
        clock_reading(now),
{
    chrono::Utc::now().timestamp_millis()
}

} // verus!
