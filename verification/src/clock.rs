//! The wall clock.

use vstd::prelude::*;

verus! {

/// Reads the system clock with `std::time::SystemTime::now`, turns it into
/// a `chrono::DateTime<Utc>` with chrono's `From<SystemTime>` and calls
/// `DateTime::timestamp`: the time in whole seconds since the Unix epoch,
/// counted backwards where the clock is set before it. chrono holds any
/// time within some 262 000 years of the epoch, which is beyond what a
/// system clock can be set to. Nothing is claimed of the value.
#[verifier::external_body]
pub(crate) fn unix_now() -> (now: i64) {
    chrono::DateTime::<chrono::Utc>::from(std::time::SystemTime::now()).timestamp()
}

/// The pattern of a calendar date: year, month and day.
pub const DATE_PATTERN: &'static str = "%Y-%m-%d";

/// Reads the system clock with `std::time::SystemTime::now`, turns it into
/// a `chrono::DateTime<Local>` with chrono's `From<SystemTime>`, formats it
/// with `DateTime::format` and turns the outcome into a string. Only the
/// date pattern is admitted, for which the formatting cannot fail; the
/// conversion is the one of [`unix_now`]. Nothing is claimed of the value,
/// which depends on the clock and on the machine's time zone.
#[verifier::external_body]
pub(crate) fn local_date(pattern: &str) -> (today: String)
    requires
        pattern@ == DATE_PATTERN@,
{
    chrono::DateTime::<chrono::Local>::from(std::time::SystemTime::now())
        .format(pattern)
        .to_string()
}

} // verus!
