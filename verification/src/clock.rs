//! Points in time as UTC timestamps (whole seconds since
//! 1970-01-01T00:00:00), the range of them that chrono can represent, and
//! the calls into chrono that read and write them as text.

use vstd::prelude::*;

verus! {

/// The timestamp of -262143-01-01T00:00:00, the earliest that chrono represents.
pub const MIN_TIMESTAMP: i64 = -8334601228800i64;

/// The timestamp of +262142-12-31T23:59:59, the latest whole second that
/// chrono represents.
pub const MAX_TIMESTAMP: i64 = 8210266876799i64;

/// The timestamp can be held by a chrono `DateTime<Utc>`.
pub open spec fn representable(ts: int) -> bool {
    MIN_TIMESTAMP <= ts <= MAX_TIMESTAMP
}

/// The hour of the day (0 to 23, UTC) of a timestamp.
pub open spec fn spec_hour_of(ts: int) -> int {
    (ts % 86400) / 3600
}

/// The hour of the day (0 to 23, UTC) of a timestamp, as chrono's
/// `Timelike::hour` gives it for a `DateTime<Utc>`.
pub fn hour_of(ts: i64) -> (h: u32)
    ensures
        h == spec_hour_of(ts as int),
        h < 24,
{
    let secs = ts.checked_rem_euclid(86400).unwrap();
    (secs / 3600) as u32
}

/// The text that chrono writes for a timestamp with the pattern
/// "%a %b %e, %Y - %H:%M %P" (such as "Sat Jan  2, 2021 - 14:30 pm").
pub uninterp spec fn human_time_text(ts: int) -> Seq<char>;

/// Calls `DateTime::from_timestamp(ts, 0)` and, where that gives a date,
/// formats it with the pattern "%a %b %e, %Y - %H:%M %P"; the text is named
/// `human_time_text`. chrono's source shows that `from_timestamp` gives a
/// date exactly for the timestamps from `MIN_TIMESTAMP` to `MAX_TIMESTAMP`.
#[verifier::external_body]
pub(crate) fn format_human_time(ts: i64) -> (r: Option<String>)
    ensures
        r is Some <==> representable(ts as int),
        r matches Some(s) ==> s@ == human_time_text(ts as int),
{
    match chrono::DateTime::from_timestamp(ts, 0) {
        Some(t) => Some(t.format("%a %b %e, %Y - %H:%M %P").to_string()),
        None => None,
    }
}

/// What `NaiveDateTime::parse_from_str(text, "%Y-%m-%dT%H:%M")` reads from
/// the text, as the timestamp of that moment taken as UTC; `None` where it
/// reports an error.
pub uninterp spec fn parsed_minute(text: Seq<char>) -> Option<i64>;

/// Calls `NaiveDateTime::parse_from_str(text, "%Y-%m-%dT%H:%M")` and takes
/// the moment read as UTC; the result is named `parsed_minute`.
#[verifier::external_body]
pub(crate) fn parse_minute(text: &String) -> (r: Option<i64>)
    ensures
        r == parsed_minute(text@),
{
    match chrono::NaiveDateTime::parse_from_str(text, "%Y-%m-%dT%H:%M") {
        Ok(t) => Some(t.and_utc().timestamp()),
        Err(_) => None,
    }
}

} // verus!
