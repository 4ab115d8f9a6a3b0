//! Interval codes: the granularity of a price bar, the longest span of days
//! that the endpoint serves at each granularity, and the validation of a
//! requested code against a requested span.

use vstd::prelude::*;
use crate::error::FetchError;
use crate::text::same_text;

verus! {

/// The granularity of one price bar.
#[derive(Clone, Copy, Debug, PartialEq, Eq, Structural)]
pub enum Interval {
    OneMinute,
    TwoMinutes,
    FiveMinutes,
    FifteenMinutes,
    ThirtyMinutes,
    SixtyMinutes,
    NinetyMinutes,
    OneDay,
    FiveDays,
    OneWeek,
    OneMonth,
    ThreeMonths,
}

impl Interval {
    /// The code by which the endpoint knows this interval.
    pub open spec fn code(self) -> Seq<char> {
        match self {
            Interval::OneMinute => "1m"@,
            Interval::TwoMinutes => "2m"@,
            Interval::FiveMinutes => "5m"@,
            Interval::FifteenMinutes => "15m"@,
            Interval::ThirtyMinutes => "30m"@,
            Interval::SixtyMinutes => "60m"@,
            Interval::NinetyMinutes => "90m"@,
            Interval::OneDay => "1d"@,
            Interval::FiveDays => "5d"@,
            Interval::OneWeek => "1wk"@,
            Interval::OneMonth => "1mo"@,
            Interval::ThreeMonths => "3mo"@,
        }
    }

    /// The longest span, in days, that may be requested at this interval;
    /// `None` where the span is not limited.
    pub open spec fn span_limit(self) -> Option<int> {
        match self {
            Interval::OneMinute => Some(8int),
            Interval::TwoMinutes
            | Interval::FiveMinutes
            | Interval::FifteenMinutes
            | Interval::ThirtyMinutes
            | Interval::NinetyMinutes => Some(60int),
            Interval::SixtyMinutes => Some(730int),
            _ => None,
        }
    }

    /// Whether a span of `span` days may be requested at this interval.
    pub open spec fn allows(self, span: int) -> bool {
        match self.span_limit() {
            Some(limit) => span <= limit,
            None => true,
        }
    }

    /// The code of this interval, as it is written into a request.
    pub fn as_str(self) -> (r: &'static str)
        ensures
            r@ == self.code(),
    {
        match self {
            Interval::OneMinute => "1m",
            Interval::TwoMinutes => "2m",
            Interval::FiveMinutes => "5m",
            Interval::FifteenMinutes => "15m",
            Interval::ThirtyMinutes => "30m",
            Interval::SixtyMinutes => "60m",
            Interval::NinetyMinutes => "90m",
            Interval::OneDay => "1d",
            Interval::FiveDays => "5d",
            Interval::OneWeek => "1wk",
            Interval::OneMonth => "1mo",
            Interval::ThreeMonths => "3mo",
        }
    }

    /// The longest span in days at this interval, if it is limited.
    pub fn max_span_days(self) -> (r: Option<i64>)
        ensures
            match r {
                Some(limit) => self.span_limit() == Some(limit as int),
                None => self.span_limit() is None,
            },
    {
        match self {
            Interval::OneMinute => Some(8),
            Interval::TwoMinutes
            | Interval::FiveMinutes
            | Interval::FifteenMinutes
            | Interval::ThirtyMinutes
            | Interval::NinetyMinutes => Some(60),
            Interval::SixtyMinutes => Some(730),
            _ => None,
        }
    }

    /// Reads an interval from its code.
    pub fn from_code(text: &str) -> (r: Option<Interval>)
        ensures
            r == interval_of_code(text@),
    {
        if same_text(text, "1m") {
            Some(Interval::OneMinute)
        } else if same_text(text, "2m") {
            Some(Interval::TwoMinutes)
        } else if same_text(text, "5m") {
            Some(Interval::FiveMinutes)
        } else if same_text(text, "15m") {
            Some(Interval::FifteenMinutes)
        } else if same_text(text, "30m") {
            Some(Interval::ThirtyMinutes)
        } else if same_text(text, "60m") {
            Some(Interval::SixtyMinutes)
        } else if same_text(text, "90m") {
            Some(Interval::NinetyMinutes)
        } else if same_text(text, "1d") {
            Some(Interval::OneDay)
        } else if same_text(text, "5d") {
            Some(Interval::FiveDays)
        } else if same_text(text, "1wk") {
            Some(Interval::OneWeek)
        } else if same_text(text, "1mo") {
            Some(Interval::OneMonth)
        } else if same_text(text, "3mo") {
            Some(Interval::ThreeMonths)
        } else {
            None
        }
    }
}

/// The interval that a code names, if it is one of the twelve codes.
pub open spec fn interval_of_code(text: Seq<char>) -> Option<Interval> {
    if text == "1m"@ {
        Some(Interval::OneMinute)
    } else if text == "2m"@ {
        Some(Interval::TwoMinutes)
    } else if text == "5m"@ {
        Some(Interval::FiveMinutes)
    } else if text == "15m"@ {
        Some(Interval::FifteenMinutes)
    } else if text == "30m"@ {
        Some(Interval::ThirtyMinutes)
    } else if text == "60m"@ {
        Some(Interval::SixtyMinutes)
    } else if text == "90m"@ {
        Some(Interval::NinetyMinutes)
    } else if text == "1d"@ {
        Some(Interval::OneDay)
    } else if text == "5d"@ {
        Some(Interval::FiveDays)
    } else if text == "1wk"@ {
        Some(Interval::OneWeek)
    } else if text == "1mo"@ {
        Some(Interval::OneMonth)
    } else if text == "3mo"@ {
        Some(Interval::ThreeMonths)
    } else {
        None
    }
}

/// The interval that a request asks for: the daily one where the text is
/// empty, else the one that the text names, if any.
pub open spec fn requested_interval(text: Seq<char>) -> Option<Interval> {
    if text.len() == 0 {
        Some(Interval::OneDay)
    } else {
        interval_of_code(text)
    }
}

/// What validating `text` against a span of `span` days yields: the interval
/// where the text is empty or a known code and the span is within the
/// interval's limit; the range error where the span is over the limit; the
/// error of an unknown code otherwise, whatever the span.
pub open spec fn validation_holds(text: Seq<char>, span: int, r: Result<Interval, FetchError>) -> bool {
    match requested_interval(text) {
        Some(interval) => if interval.allows(span) {
            r == Ok::<Interval, FetchError>(interval)
        } else {
            r matches Err(FetchError::RangeExceeded { interval: named, limit, span: asked })
                && named == interval && interval.span_limit() == Some(limit as int) && asked
                == span
        },
        None => r matches Err(FetchError::InvalidInterval { given }) && given@ == text,
    }
}

/// Validates a requested interval code against the span of days requested.
/// An empty code stands for the daily interval.
pub fn validate_interval(text: &str, span: i64) -> (r: Result<Interval, FetchError>)
    ensures
        validation_holds(text@, span as int, r),
{
    let found = if text.is_empty() {
        Some(Interval::OneDay)
    } else {
        Interval::from_code(text)
    };
    match found {
        Some(interval) => {
            match interval.max_span_days() {
                Some(limit) => {
                    if span > limit {
                        Err(FetchError::RangeExceeded { interval, limit, span })
                    } else {
                        Ok(interval)
                    }
                },
                None => Ok(interval),
            }
        },
        None => Err(FetchError::InvalidInterval { given: text.to_owned() }),
    }
}

/// The twelve codes are told apart: reading the code of an interval gives
/// that interval back, and no code is empty.
pub proof fn lemma_code_round_trip(interval: Interval)
    ensures
        interval_of_code(interval.code()) == Some(interval),
        requested_interval(interval.code()) == Some(interval),
        interval.code().len() > 0,
{
    reveal_strlit("1m");
    reveal_strlit("2m");
    reveal_strlit("5m");
    reveal_strlit("15m");
    reveal_strlit("30m");
    reveal_strlit("60m");
    reveal_strlit("90m");
    reveal_strlit("1d");
    reveal_strlit("5d");
    reveal_strlit("1wk");
    reveal_strlit("1mo");
    reveal_strlit("3mo");
    assert("1m"@.len() == 2 && "1m"@[0] == '1' && "1m"@[1] == 'm');
    assert("2m"@.len() == 2 && "2m"@[0] == '2' && "2m"@[1] == 'm');
    assert("5m"@.len() == 2 && "5m"@[0] == '5' && "5m"@[1] == 'm');
    assert("15m"@.len() == 3 && "15m"@[0] == '1' && "15m"@[1] == '5' && "15m"@[2] == 'm');
    assert("30m"@.len() == 3 && "30m"@[0] == '3' && "30m"@[1] == '0' && "30m"@[2] == 'm');
    assert("60m"@.len() == 3 && "60m"@[0] == '6' && "60m"@[1] == '0' && "60m"@[2] == 'm');
    assert("90m"@.len() == 3 && "90m"@[0] == '9' && "90m"@[1] == '0' && "90m"@[2] == 'm');
    assert("1d"@.len() == 2 && "1d"@[0] == '1' && "1d"@[1] == 'd');
    assert("5d"@.len() == 2 && "5d"@[0] == '5' && "5d"@[1] == 'd');
    assert("1wk"@.len() == 3 && "1wk"@[0] == '1' && "1wk"@[1] == 'w' && "1wk"@[2] == 'k');
    assert("1mo"@.len() == 3 && "1mo"@[0] == '1' && "1mo"@[1] == 'm' && "1mo"@[2] == 'o');
    assert("3mo"@.len() == 3 && "3mo"@[0] == '3' && "3mo"@[1] == 'm' && "3mo"@[2] == 'o');
}

/// Every interval accepts a span up to its limit and refuses the span one
/// day above it, with the error that names the interval and the limit. An
/// interval without a limit accepts every span.
pub proof fn lemma_span_ceiling(interval: Interval, span: int, r: Result<Interval, FetchError>)
    requires
        validation_holds(interval.code(), span, r),
    ensures
        interval.allows(span) ==> r == Ok::<Interval, FetchError>(interval),
        match interval.span_limit() {
            Some(ceiling) => (span <= ceiling <==> r is Ok) && (span == ceiling + 1 ==> r
                == Err::<Interval, FetchError>(
                FetchError::RangeExceeded { interval, limit: ceiling as i64, span: span as i64 },
            )),
            None => r is Ok,
        },
{
    lemma_code_round_trip(interval);
}

/// A text that is neither empty nor one of the twelve codes is refused as
/// an unknown interval for every span, and the error carries the text.
pub proof fn lemma_unknown_code_refused(text: Seq<char>, span: int, r: Result<Interval, FetchError>)
    requires
        requested_interval(text) is None,
        validation_holds(text, span, r),
    ensures
        r matches Err(FetchError::InvalidInterval { given }) && given@ == text,
{
}

/// The empty text is validated as the daily interval, which no span exceeds.
pub proof fn lemma_empty_is_daily(text: Seq<char>, span: int, r: Result<Interval, FetchError>)
    requires
        text.len() == 0,
        validation_holds(text, span, r),
    ensures
        r == Ok::<Interval, FetchError>(Interval::OneDay),
{
}

} // verus!
