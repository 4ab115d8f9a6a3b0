//! The errors of a fetch, as far as the library decides them.

use vstd::prelude::*;
use crate::interval::Interval;
use crate::text::push_decimal;

verus! {

/// Why a request was not planned, or why an answer gave no bars.
#[derive(Clone, Debug, PartialEq, Eq)]
pub enum FetchError {
    /// A date bound is not a calendar date written as year, month and day.
    DateParse { text: String },
    /// The span of days is longer than the interval allows.
    RangeExceeded { interval: Interval, limit: i64, span: i64 },
    /// The interval code is not one of the known codes.
    InvalidInterval { given: String },
    /// The answer holds no result, or its first result holds no quote.
    NoData,
    /// A quote array is shorter than the array of timestamps.
    Misaligned,
    /// The timestamp of a complete row lies outside the calendar.
    TimestampOutOfRange { index: usize },
}

/// The known codes, as an error message lists them.
pub open spec fn valid_codes_text() -> Seq<char> {
    "1m, 2m, 5m, 15m, 30m, 60m, 90m, 1d, 5d, 1wk, 1mo, 3mo"@
}

impl FetchError {
    /// The message of this error.
    pub open spec fn message_text(self) -> Seq<char> {
        match self {
            FetchError::DateParse { text } => "Invalid date: '"@ + text@ + "'."@,
            FetchError::RangeExceeded { interval, limit, span } => "Interval '"@ + interval.code()
                + "' supports a maximum of "@ + crate::text::decimal(limit as int)
                + " days. You requested: "@ + crate::text::decimal(span as int) + " days."@,
            FetchError::InvalidInterval { given } => "Invalid interval: '"@ + given@
                + "'. Valid intervals "@ + valid_codes_text() + "."@,
            FetchError::NoData => "No data returned."@,
            FetchError::Misaligned => "Quote arrays are shorter than the timestamps."@,
            FetchError::TimestampOutOfRange { index } => "Timestamp out of range at row "@
                + crate::text::decimal(index as int) + "."@,
        }
    }

    /// Writes the message of this error.
    pub fn message(&self) -> (r: String)
        ensures
            r@ == self.message_text(),
    {
        let mut out = String::new();
        match self {
            FetchError::DateParse { text } => {
                out.push_str("Invalid date: '");
                out.push_str(text.as_str());
                out.push_str("'.");
            },
            FetchError::RangeExceeded { interval, limit, span } => {
                out.push_str("Interval '");
                out.push_str(interval.as_str());
                out.push_str("' supports a maximum of ");
                push_decimal(&mut out, *limit);
                out.push_str(" days. You requested: ");
                push_decimal(&mut out, *span);
                out.push_str(" days.");
            },
            FetchError::InvalidInterval { given } => {
                out.push_str("Invalid interval: '");
                out.push_str(given.as_str());
                out.push_str("'. Valid intervals ");
                out.push_str("1m, 2m, 5m, 15m, 30m, 60m, 90m, 1d, 5d, 1wk, 1mo, 3mo");
                out.push_str(".");
            },
            FetchError::NoData => {
                out.push_str("No data returned.");
            },
            FetchError::Misaligned => {
                out.push_str("Quote arrays are shorter than the timestamps.");
            },
            FetchError::TimestampOutOfRange { index } => {
                out.push_str("Timestamp out of range at row ");
                crate::text::push_decimal_nat(&mut out, *index as u64);
                out.push_str(".");
            },
        }
        proof {
            assert(out@ =~= self.message_text());
        }
        out
    }
}

} // verus!
