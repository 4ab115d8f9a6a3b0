//! Calendar days and UNIX timestamps. A day is held as its number in the
//! proleptic Gregorian calendar, where 1 January of the year 1 is day 1:
//! the count that chrono gives for a date.

use vstd::prelude::*;

verus! {

/// The day number that chrono reads from `text` under the format
/// `%Y-%m-%d`, or `None` where chrono refuses the text.
pub uninterp spec fn parsed_ce_day(text: Seq<char>) -> Option<int>;

/// The calendar date, written as `%Y-%m-%d`, of the UTC instant that lies
/// `timestamp` seconds after the UNIX epoch, or `None` where chrono has no
/// date for that instant.
pub uninterp spec fn utc_date_text(timestamp: int) -> Option<Seq<char>>;

/// Calls chrono's `NaiveDate::parse_from_str` with the format `%Y-%m-%d` and
/// takes the day number of the date with `Datelike::num_days_from_ce`. The
/// contract only names the outcome: it is the same for the same text.
#[verifier::external_body]
pub(crate) fn parse_ce_day(text: &str) -> (r: Option<i32>)
    ensures
        parsed_ce_day(text@) == match r {
            Some(day) => Some(day as int),
            None => None,
        },
{
    match chrono::NaiveDate::parse_from_str(text, "%Y-%m-%d") {
        Ok(date) => Some(chrono::Datelike::num_days_from_ce(&date)),
        Err(_) => None,
    }
}

/// Calls chrono's `Utc::now`, takes the date with `date_naive` and its day
/// number with `Datelike::num_days_from_ce`. Nothing is claimed of the
/// result: it depends on the clock. chrono stops the program where the
/// clock stands before 1970.
#[verifier::external_body]
pub(crate) fn today_ce_day() -> i32 {
    chrono::Datelike::num_days_from_ce(&chrono::Utc::now().date_naive())
}

/// Calls chrono's `TimeZone::timestamp_opt` on `Utc` with no nanoseconds
/// and, where it gives an instant, writes its date with `format` under
/// `%Y-%m-%d`. The contract only names the outcome: it is the same for the
/// same timestamp.
#[verifier::external_body]
pub(crate) fn format_utc_date(timestamp: i64) -> (r: Option<String>)
    ensures
        utc_date_text(timestamp as int) == match r {
            Some(date) => Some(date@),
            None => None,
        },
{
    match chrono::TimeZone::timestamp_opt(&chrono::Utc, timestamp, 0) {
        chrono::LocalResult::Single(instant) => Some(instant.format("%Y-%m-%d").to_string()),
        chrono::LocalResult::Ambiguous(_, _) => None,
        chrono::LocalResult::None => None,
    }
}

/// The day number of 1 January 1970.
pub const EPOCH_CE_DAY: i64 = 719_163;

/// The seconds of one day.
pub const SECONDS_PER_DAY: i64 = 86_400;

/// The days by which the default end bound lies before today.
pub const DEFAULT_LOOKBACK_DAYS: i64 = 365;

/// The UNIX timestamp of midnight UTC at the start of a day.
pub open spec fn midnight_timestamp(ce_day: int) -> int {
    (ce_day - 719_163) * 86_400
}

/// The absolute number of days between two days.
pub open spec fn span_between(a: int, b: int) -> int {
    if a >= b {
        a - b
    } else {
        b - a
    }
}

/// The day numbers that the library computes with: those of a 32-bit count,
/// and the days up to a year before them.
pub open spec fn day_in_range(ce_day: int) -> bool {
    i32::MIN - 365 <= ce_day <= i32::MAX
}

/// The UNIX timestamp of midnight UTC at the start of a day.
pub fn midnight_of(ce_day: i64) -> (r: i64)
    requires
        day_in_range(ce_day as int),
    ensures
        r == midnight_timestamp(ce_day as int),
{
    (ce_day - EPOCH_CE_DAY) * SECONDS_PER_DAY
}

/// The absolute number of days between two days.
pub fn span_days(a: i64, b: i64) -> (r: i64)
    requires
        day_in_range(a as int),
        day_in_range(b as int),
    ensures
        r == span_between(a as int, b as int),
        r >= 0,
{
    if a >= b {
        a - b
    } else {
        b - a
    }
}

/// The day that lies 365 days before `ce_day`.
pub fn year_before(ce_day: i32) -> (r: i64)
    ensures
        r == ce_day - 365,
        day_in_range(r as int),
{
    let day: i64 = ce_day as i64;
    day - DEFAULT_LOOKBACK_DAYS
}

/// The span between two days is the whole number of days between their
/// midnights, in either order.
pub proof fn lemma_span_from_timestamps(a: int, b: int)
    ensures
        span_between(a, b) == span_between(b, a),
        span_between(a, b) >= 0,
        span_between(a, b) * 86_400 == span_between(midnight_timestamp(a), midnight_timestamp(b)),
{
}

} // verus!
