//! Trusted wrappers around the system clock and the timestamp formatter.

use vstd::prelude::*;

verus! {

/// The text that the timestamp format `%FT%T%z` yields in UTC for a given
/// count of whole seconds since the Unix epoch. The rendering depends on
/// that count alone.
pub uninterp spec fn format_iso_of(secs: int) -> Seq<char>;

/// Seconds from the Unix epoch up to the end of year 9999: every count in
/// this window renders as a timestamp with a four-digit year.
pub open spec fn in_format_range(secs: int) -> bool {
    0 <= secs < 253402300800
}

/// Relies on chrono::Utc::now: the current UTC time, truncated to whole
/// seconds since the Unix epoch. Nothing is promised of the clock's
/// reading.
#[verifier::external_body]
pub(crate) fn now_epoch_seconds() -> i64 {
    chrono::Utc::now().timestamp()
}

/// Relies on chrono::DateTime::from_timestamp and formatting with
/// `%FT%T%z`: the text depends on `secs` alone; every count from the epoch
/// to the end of year 9999 is accepted and renders as the 24 characters
/// `YYYY-MM-DDTHH:MM:SS+0000`.
#[verifier::external_body]
pub(crate) fn format_epoch_iso(secs: i64) -> (r: Option<String>)
    ensures
        r matches Some(s) ==> s@ == format_iso_of(secs as int),
        in_format_range(secs as int) ==> r is Some,
        in_format_range(secs as int) ==> (r matches Some(s) ==> s@.len() == 24),
{
    chrono::DateTime::<chrono::Utc>::from_timestamp(secs, 0).map(
        |dt| dt.format("%FT%T%z").to_string(),
    )
}

} // verus!
