//! Start and end times of what a player does, in milliseconds since the
//! Unix epoch (UTC), and the time it took.

use vstd::prelude::*;

verus! {

/// The current time from `chrono::Utc::now`, in milliseconds since the Unix
/// epoch. It depends on the clock: nothing is promised of the value.
#[verifier::external_body]
pub(crate) fn now_millis() -> (r: i64) {
    chrono::Utc::now().timestamp_millis()
}

/// The time from `start` to `end`, when both are known and the difference
/// fits in an `i64`.
pub open spec fn spec_elapsed(start: Option<i64>, end: Option<i64>) -> Option<int> {
    match (start, end) {
        (Some(s), Some(e)) => if i64::MIN <= e - s <= i64::MAX { Some(e - s) } else { None },
        _ => None,
    }
}

/// Something that is timed.
pub trait Timed {
    /// Records the current time as the start.
    fn start(&mut self);

    /// Records the current time as the end.
    fn update_end_time(&mut self);

    /// The time between start and end, in milliseconds.
    fn elapsed_time(&self) -> Option<i64>;

    /// The start, in milliseconds since the Unix epoch.
    fn start_time(&self) -> Option<i64>;

    /// The end, in milliseconds since the Unix epoch.
    fn end_time(&self) -> Option<i64>;
}

/// The difference `end - start`, when both are known and it fits.
pub fn elapsed_between(start: Option<i64>, end: Option<i64>) -> (r: Option<i64>)
    ensures
        r matches Some(d) ==> spec_elapsed(start, end) == Some(d as int),
        r is None ==> spec_elapsed(start, end) is None,
{
    match (start, end) {
        (Some(s), Some(e)) => e.checked_sub(s),
        _ => None,
    }
}

} // verus!
