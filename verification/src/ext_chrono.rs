//! What the library takes from `chrono`.
use vstd::prelude::*;
use chrono::TimeZone;

verus! {

/// A date and time without a time zone, carried through unread.
#[verifier::external_type_specification]
#[verifier::external_body]
pub struct ExNaiveDateTime(chrono::NaiveDateTime);

/// A moment in time: whole seconds since the Unix epoch, and nanoseconds
/// past that second.
#[derive(Debug, Clone, Copy, PartialEq, Eq, Structural)]
pub struct Instant {
    pub secs: i64,
    pub nanos: u32,
}

/// The smallest and largest whole number of seconds that a `chrono::TimeDelta`
/// can hold (`i64::MAX` milliseconds either way, rounded inwards).
pub open spec fn time_delta_secs_valid(secs: int) -> bool {
    -9_223_372_036_854_775 <= secs <= 9_223_372_036_854_775
}

/// Whether `chrono::TimeDelta::new(secs, 0)` gives a value. Its source
/// returns `None` exactly when `secs` is below `MIN.secs`, above `MAX.secs`,
/// or equal to `MIN.secs` with fewer nanoseconds than `MIN.nanos`; with no
/// nanoseconds that is the range of `time_delta_secs_valid`.
#[verifier::external_body]
pub(crate) fn time_delta_exists(secs: i64) -> (r: bool)
    ensures
        r == time_delta_secs_valid(secs as int),
{
    chrono::TimeDelta::new(secs, 0).is_some()
}

/// Whether `secs` seconds after the Unix epoch fall between the first and the
/// last instant that `chrono` can represent: from -262143-01-01T00:00:00 to
/// 262142-12-31T23:59:59, UTC.
pub open spec fn chrono_timestamp_valid(secs: int) -> bool {
    -8_334_601_228_800 <= secs <= 8_210_266_876_799
}

/// `chrono::Local.timestamp_opt(secs, 0).earliest().is_some()`. Its source
/// builds the instant with `DateTime::from_timestamp`, which fails exactly
/// out of the range of `NaiveDate` (the years -262143 to 262142), and then
/// always gives a single local time.
#[verifier::external_body]
pub(crate) fn local_datetime_exists(secs: i64) -> (r: bool)
    ensures
        r == chrono_timestamp_valid(secs as int),
{
    chrono::Local.timestamp_opt(secs, 0).earliest().is_some()
}

/// The current time (`chrono::Local::now()`). Nothing is promised of the
/// value: it is the clock's.
#[verifier::external_body]
pub(crate) fn local_now() -> (r: Instant) {
    let now = chrono::Local::now();
    Instant { secs: now.timestamp(), nanos: now.timestamp_subsec_nanos() }
}

} // verus!
