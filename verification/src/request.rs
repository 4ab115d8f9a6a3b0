//! Planning a request: the two date bounds, the validated interval and the
//! URL that asks the endpoint for the bars between the bounds.

use vstd::prelude::*;
use crate::calendar::{
    day_in_range,
    midnight_of,
    midnight_timestamp,
    parse_ce_day,
    parsed_ce_day,
    span_between,
    span_days,
    today_ce_day,
    year_before,
};
use crate::error::FetchError;
use crate::interval::{validate_interval, validation_holds, Interval};
use crate::text::{decimal, push_decimal};

verus! {

/// A planned request: what is sent to the endpoint.
#[derive(Clone, Debug, PartialEq, Eq)]
pub struct Request {
    /// The URL of the GET request.
    pub url: String,
    /// The timestamp of the bound that the caller calls the start.
    pub period1: i64,
    /// The timestamp of the bound that the caller calls the end.
    pub period2: i64,
    /// The interval asked for.
    pub interval: Interval,
}

/// The text of the request URL.
pub open spec fn url_text(symbol: Seq<char>, period1: int, period2: int, code: Seq<char>) -> Seq<
    char,
> {
    "https://query1.finance.yahoo.com/v8/finance/chart/"@ + symbol + "?period1="@ + decimal(
        period1,
    ) + "&period2="@ + decimal(period2) + "&interval="@ + code
}

/// The value of the `User-Agent` header that the endpoint expects.
pub open spec fn user_agent_text() -> Seq<char> {
    "Mozilla/5.0 (Windows NT 10.0; Win64; x64) Chrome/115.0.0.0 Safari/537.36"@
}

/// The value of the `User-Agent` header that the endpoint expects.
pub fn user_agent() -> (r: &'static str)
    ensures
        r@ == user_agent_text(),
{
    "Mozilla/5.0 (Windows NT 10.0; Win64; x64) Chrome/115.0.0.0 Safari/537.36"
}

/// Writes the request URL.
pub fn build_url(symbol: &str, period1: i64, period2: i64, interval: Interval) -> (r: String)
    ensures
        r@ == url_text(symbol@, period1 as int, period2 as int, interval.code()),
{
    let mut url = String::new();
    url.push_str("https://query1.finance.yahoo.com/v8/finance/chart/");
    url.push_str(symbol);
    url.push_str("?period1=");
    push_decimal(&mut url, period1);
    url.push_str("&period2=");
    push_decimal(&mut url, period2);
    url.push_str("&interval=");
    url.push_str(interval.as_str());
    proof {
        assert(url@ =~= url_text(symbol@, period1 as int, period2 as int, interval.code()));
    }
    url
}

/// What planning a request between two days yields: the error of the
/// validation where the interval is refused for the span between the days,
/// else the request with the midnight of each day and the URL that holds
/// them and the code of the validated interval.
pub open spec fn plan_holds(
    symbol: Seq<char>,
    start_day: int,
    end_day: int,
    interval: Seq<char>,
    r: Result<Request, FetchError>,
) -> bool {
    let span = span_between(start_day, end_day);
    match r {
        Ok(request) => {
            &&& validation_holds(interval, span, Ok::<Interval, FetchError>(request.interval))
            &&& request.period1 == midnight_timestamp(start_day)
            &&& request.period2 == midnight_timestamp(end_day)
            &&& request.url@ == url_text(
                symbol,
                midnight_timestamp(start_day),
                midnight_timestamp(end_day),
                request.interval.code(),
            )
        },
        Err(error) => validation_holds(interval, span, Err::<Interval, FetchError>(error)),
    }
}

/// Plans the request for the bars between two days, given by their day
/// numbers. The day called the start gives the first bound of the request
/// and the day called the end the second, whichever is later.
pub fn plan_from_days(symbol: &str, start_day: i64, end_day: i64, interval: &str) -> (r: Result<
    Request,
    FetchError,
>)
    requires
        day_in_range(start_day as int),
        day_in_range(end_day as int),
    ensures
        plan_holds(symbol@, start_day as int, end_day as int, interval@, r),
{
    let span: i64 = span_days(start_day, end_day);
    match validate_interval(interval, span) {
        Ok(chosen) => {
            let period1: i64 = midnight_of(start_day);
            let period2: i64 = midnight_of(end_day);
            let url = build_url(symbol, period1, period2, chosen);
            Ok(Request { url, period1, period2, interval: chosen })
        },
        Err(error) => Err(error),
    }
}

/// The day that a date bound stands for: the fallback where the text is
/// empty, else the day that the text is parsed to, if it is a date.
pub open spec fn resolved_day(text: Seq<char>, fallback: int) -> Option<int> {
    if text.len() == 0 {
        Some(fallback)
    } else {
        parsed_ce_day(text)
    }
}

/// Resolves a date bound to its day number. An empty text stands for the
/// fallback; any other text must be a date written as year, month and day.
pub fn resolve_day(text: &str, fallback: i64) -> (r: Result<i64, FetchError>)
    requires
        day_in_range(fallback as int),
    ensures
        match resolved_day(text@, fallback as int) {
            Some(day) => r == Ok::<i64, FetchError>(day as i64) && day_in_range(day),
            None => r matches Err(FetchError::DateParse { text: refused }) && refused@ == text@,
        },
{
    if text.is_empty() {
        Ok(fallback)
    } else {
        match parse_ce_day(text) {
            Some(day) => {
                let wide: i64 = day as i64;
                Ok(wide)
            },
            None => Err(FetchError::DateParse { text: text.to_owned() }),
        }
    }
}

/// What planning a request on the day `today` yields. An empty start date
/// stands for today and an empty end date for the day 365 days before
/// today. The start date is read first, then the end date, then the
/// interval is validated against the span between the two.
pub open spec fn planning_holds(
    symbol: Seq<char>,
    start_date: Seq<char>,
    end_date: Seq<char>,
    interval: Seq<char>,
    today: int,
    r: Result<Request, FetchError>,
) -> bool {
    match resolved_day(start_date, today) {
        None => r matches Err(FetchError::DateParse { text }) && text@ == start_date,
        Some(start_day) => match resolved_day(end_date, today - 365) {
            None => r matches Err(FetchError::DateParse { text }) && text@ == end_date,
            Some(end_day) => plan_holds(symbol, start_day, end_day, interval, r),
        },
    }
}

/// Plans a request as it is planned on the day `today`.
pub fn plan_request_on(
    symbol: &str,
    start_date: &str,
    end_date: &str,
    interval: &str,
    today: i32,
) -> (r: Result<Request, FetchError>)
    ensures
        planning_holds(symbol@, start_date@, end_date@, interval@, today as int, r),
{
    let today_wide: i64 = today as i64;
    let start_day: i64 = match resolve_day(start_date, today_wide) {
        Ok(day) => day,
        Err(error) => {
            return Err(error);
        },
    };
    let end_day: i64 = match resolve_day(end_date, year_before(today)) {
        Ok(day) => day,
        Err(error) => {
            return Err(error);
        },
    };
    plan_from_days(symbol, start_day, end_day, interval)
}

/// Plans a request as of the current UTC date. Whatever the clock says,
/// the outcome is the one planned on some day.
pub fn plan_request(symbol: &str, start_date: &str, end_date: &str, interval: &str) -> (r: Result<
    Request,
    FetchError,
>)
    ensures
        exists|today: i32|
            planning_holds(symbol@, start_date@, end_date@, interval@, today as int, r),
{
    let today: i32 = today_ce_day();
    let r = plan_request_on(symbol, start_date, end_date, interval, today);
    proof {
        assert(planning_holds(symbol@, start_date@, end_date@, interval@, today as int, r));
    }
    r
}

/// Where both dates are empty, the bounds are today and the day 365 days
/// before it: a planned request holds the midnights of these two days, and
/// its URL holds them in this order.
pub proof fn lemma_default_bounds(
    symbol: Seq<char>,
    start_date: Seq<char>,
    end_date: Seq<char>,
    interval: Seq<char>,
    today: int,
    r: Result<Request, FetchError>,
)
    requires
        start_date.len() == 0,
        end_date.len() == 0,
        planning_holds(symbol, start_date, end_date, interval, today, r),
    ensures
        plan_holds(symbol, today, today - 365, interval, r),
        span_between(today, today - 365) == 365,
        r matches Ok(request) ==> request.period1 == midnight_timestamp(today) && request.period2
            == midnight_timestamp(today - 365) && request.url@ == url_text(
            symbol,
            midnight_timestamp(today),
            midnight_timestamp(today - 365),
            request.interval.code(),
        ),
{
}

/// Where the interval is empty, the request is planned whatever the span,
/// with the daily interval, and its URL carries the daily code.
pub proof fn lemma_empty_interval_is_daily(
    symbol: Seq<char>,
    start_day: int,
    end_day: int,
    interval: Seq<char>,
    r: Result<Request, FetchError>,
)
    requires
        interval.len() == 0,
        plan_holds(symbol, start_day, end_day, interval, r),
    ensures
        r matches Ok(request) && request.interval == Interval::OneDay && request.url@ == url_text(
            symbol,
            midnight_timestamp(start_day),
            midnight_timestamp(end_day),
            "1d"@,
        ),
{
}

/// A text that is neither empty nor a known code fails the plan with the
/// error of an unknown interval, whatever the two days are.
pub proof fn lemma_unknown_interval_fails(
    symbol: Seq<char>,
    start_day: int,
    end_day: int,
    interval: Seq<char>,
    r: Result<Request, FetchError>,
)
    requires
        crate::interval::requested_interval(interval) is None,
        plan_holds(symbol, start_day, end_day, interval, r),
    ensures
        r matches Err(FetchError::InvalidInterval { given }) && given@ == interval,
{
}

} // verus!
