//! The answer of the chart endpoint, and the price bars that it holds.
//!
//! The answer carries one array of timestamps and five quote arrays beside
//! it, aligned by index, each element of which may be missing. A row becomes
//! a price bar where all five of its quote values are there. Prices are
//! carried through untouched, so their type is a parameter.

use vstd::prelude::*;
use crate::calendar::{format_utc_date, utc_date_text};
use crate::error::FetchError;

verus! {

/// The five quote arrays of one result.
#[derive(Clone, Debug, PartialEq)]
pub struct Quote<P> {
    pub open: Vec<Option<P>>,
    pub high: Vec<Option<P>>,
    pub low: Vec<Option<P>>,
    pub close: Vec<Option<P>>,
    pub volume: Vec<Option<u64>>,
}

/// The quotes of one result.
#[derive(Clone, Debug, PartialEq)]
pub struct Indicators<P> {
    pub quote: Vec<Quote<P>>,
}

/// The result for one symbol: the timestamps and the quotes beside them.
#[derive(Clone, Debug, PartialEq)]
pub struct ChartResult<P> {
    pub timestamp: Vec<i64>,
    pub indicators: Indicators<P>,
}

/// The results of an answer, one for each symbol asked for.
#[derive(Clone, Debug, PartialEq)]
pub struct Chart<P> {
    pub result: Vec<ChartResult<P>>,
}

/// The decoded answer of the endpoint.
#[derive(Clone, Debug, PartialEq)]
pub struct ApiResponse<P> {
    pub chart: Chart<P>,
}

/// One price bar: the values of one period.
#[derive(Clone, Debug, PartialEq)]
pub struct PriceBar<P> {
    pub date: String,
    pub open: P,
    pub high: P,
    pub low: P,
    pub close: P,
    pub volume: u64,
}

impl<P> Quote<P> {
    /// Whether each of the five arrays holds an element, present or
    /// missing, for each of the first `rows` indices.
    pub open spec fn covers(self, rows: int) -> bool {
        &&& rows <= self.open@.len()
        &&& rows <= self.high@.len()
        &&& rows <= self.low@.len()
        &&& rows <= self.close@.len()
        &&& rows <= self.volume@.len()
    }

    /// Whether all five values of row `i` are there.
    pub open spec fn complete_at(self, i: int) -> bool {
        &&& 0 <= i
        &&& self.covers(i + 1)
        &&& self.open@[i] is Some
        &&& self.high@[i] is Some
        &&& self.low@[i] is Some
        &&& self.close@[i] is Some
        &&& self.volume@[i] is Some
    }

    /// Whether each of the five arrays reaches the first `rows` indices.
    pub fn covers_rows(&self, rows: usize) -> (r: bool)
        ensures
            r == self.covers(rows as int),
    {
        rows <= self.open.len() && rows <= self.high.len() && rows <= self.low.len() && rows
            <= self.close.len() && rows <= self.volume.len()
    }

    /// Whether all five values of row `i` are there.
    pub fn is_complete_at(&self, i: usize) -> (r: bool)
        ensures
            r == self.complete_at(i as int),
    {
        i < self.open.len() && i < self.high.len() && i < self.low.len() && i < self.close.len()
            && i < self.volume.len() && self.open[i].is_some() && self.high[i].is_some()
            && self.low[i].is_some() && self.close[i].is_some() && self.volume[i].is_some()
    }
}

/// The indices below `rows` at which the quote is complete, in rising order.
pub open spec fn complete_rows<P>(quote: Quote<P>, rows: nat) -> Seq<int>
    decreases rows,
{
    if rows == 0 {
        Seq::<int>::empty()
    } else {
        let earlier = complete_rows(quote, (rows - 1) as nat);
        if quote.complete_at(rows - 1) {
            earlier.push(rows - 1)
        } else {
            earlier
        }
    }
}

/// Whether `bar` holds the values of row `i`: the date of the row's
/// timestamp and its five quote values.
pub open spec fn bar_of_row<P>(bar: PriceBar<P>, timestamp: Seq<i64>, quote: Quote<P>, i: int) -> bool {
    &&& utc_date_text(timestamp[i] as int) == Some(bar.date@)
    &&& quote.open@[i] == Some(bar.open)
    &&& quote.high@[i] == Some(bar.high)
    &&& quote.low@[i] == Some(bar.low)
    &&& quote.close@[i] == Some(bar.close)
    &&& quote.volume@[i] == Some(bar.volume)
}

/// Whether every complete row below `rows` has a timestamp that the
/// calendar holds.
pub open spec fn all_dated<P>(timestamp: Seq<i64>, quote: Quote<P>, rows: int) -> bool {
    forall|i: int|
        0 <= i < rows && #[trigger] quote.complete_at(i) ==> utc_date_text(timestamp[i] as int)
            is Some
}

/// Whether `bars` are the bars of the complete rows among the timestamps,
/// one for each, in their order.
pub open spec fn bars_of_rows<P>(bars: Seq<PriceBar<P>>, timestamp: Seq<i64>, quote: Quote<P>) -> bool {
    let chosen = complete_rows(quote, timestamp.len());
    &&& bars.len() == chosen.len()
    &&& forall|k: int| 0 <= k < bars.len() ==> bar_of_row(#[trigger] bars[k], timestamp, quote, chosen[k])
}

/// What projecting the rows of one result yields.
pub open spec fn projection_holds<P>(
    timestamp: Seq<i64>,
    quote: Quote<P>,
    r: Result<Vec<PriceBar<P>>, FetchError>,
) -> bool {
    match r {
        Ok(bars) => {
            &&& quote.covers(timestamp.len() as int)
            &&& all_dated(timestamp, quote, timestamp.len() as int)
            &&& bars_of_rows(bars@, timestamp, quote)
        },
        Err(FetchError::Misaligned) => !quote.covers(timestamp.len() as int),
        Err(FetchError::TimestampOutOfRange { index }) => {
            &&& quote.covers(timestamp.len() as int)
            &&& index < timestamp.len()
            &&& quote.complete_at(index as int)
            &&& utc_date_text(timestamp[index as int] as int) is None
            &&& all_dated(timestamp, quote, index as int)
        },
        Err(_) => false,
    }
}

/// The indices below `rows` at which the quote is complete, in rising order.
pub fn complete_indices<P>(quote: &Quote<P>, rows: usize) -> (r: Vec<usize>)
    ensures
        r@.len() == complete_rows(*quote, rows as nat).len(),
        forall|k: int| 0 <= k < r@.len() ==> #[trigger] r@[k] as int == complete_rows(*quote, rows as nat)[k],
{
    let mut chosen: Vec<usize> = Vec::new();
    let mut i: usize = 0;
    while i < rows
        invariant
            i <= rows,
            chosen@.len() == complete_rows(*quote, i as nat).len(),
            forall|k: int|
                0 <= k < chosen@.len() ==> #[trigger] chosen@[k] as int == complete_rows(
                    *quote,
                    i as nat,
                )[k],
        decreases rows - i,
    {
        if quote.is_complete_at(i) {
            chosen.push(i);
        }
        i += 1;
    }
    chosen
}

/// The bar of row `i`, under the date that was written for its timestamp.
pub fn bar_from_row<P: Copy>(date: String, quote: &Quote<P>, i: usize) -> (bar: PriceBar<P>)
    requires
        quote.complete_at(i as int),
    ensures
        bar.date == date,
        quote.open@[i as int] == Some(bar.open),
        quote.high@[i as int] == Some(bar.high),
        quote.low@[i as int] == Some(bar.low),
        quote.close@[i as int] == Some(bar.close),
        quote.volume@[i as int] == Some(bar.volume),
{
    PriceBar {
        date,
        open: quote.open[i].unwrap(),
        high: quote.high[i].unwrap(),
        low: quote.low[i].unwrap(),
        close: quote.close[i].unwrap(),
        volume: quote.volume[i].unwrap(),
    }
}

/// Projects the rows of one result into price bars: one bar for each index
/// at which all five quote values are there, in the order of the
/// timestamps, under the UTC date of the row's timestamp. Rows with a
/// missing value are passed over.
pub fn project_rows<P: Copy>(timestamp: &Vec<i64>, quote: &Quote<P>) -> (r: Result<
    Vec<PriceBar<P>>,
    FetchError,
>)
    ensures
        projection_holds(timestamp@, *quote, r),
        r is Ok <==> quote.covers(timestamp@.len() as int) && all_dated(
            timestamp@,
            *quote,
            timestamp@.len() as int,
        ),
        r matches Ok(bars) ==> bars@.len() <= timestamp@.len(),
{
    let rows: usize = timestamp.len();
    if !quote.covers_rows(rows) {
        return Err(FetchError::Misaligned);
    }
    let mut bars: Vec<PriceBar<P>> = Vec::new();
    let mut i: usize = 0;
    while i < rows
        invariant
            i <= rows,
            rows == timestamp@.len(),
            quote.covers(rows as int),
            all_dated(timestamp@, *quote, i as int),
            bars@.len() == complete_rows(*quote, i as nat).len(),
            bars@.len() <= i,
            forall|k: int|
                0 <= k < bars@.len() ==> bar_of_row(
                    #[trigger] bars@[k],
                    timestamp@,
                    *quote,
                    complete_rows(*quote, i as nat)[k],
                ),
        decreases rows - i,
    {
        if quote.is_complete_at(i) {
            match format_utc_date(timestamp[i]) {
                Some(date) => {
                    let bar = bar_from_row(date, quote, i);
                    bars.push(bar);
                },
                None => {
                    return Err(FetchError::TimestampOutOfRange { index: i });
                },
            }
        }
        i += 1;
    }
    Ok(bars)
}

/// The chosen rows are no more than the rows read, each is a complete row
/// below `rows`, they rise strictly, and no complete row is left out.
pub proof fn lemma_complete_rows<P>(quote: Quote<P>, rows: nat)
    ensures
        complete_rows(quote, rows).len() <= rows,
        forall|k: int|
            0 <= k < complete_rows(quote, rows).len() ==> 0 <= #[trigger] complete_rows(
                quote,
                rows,
            )[k] < rows && quote.complete_at(complete_rows(quote, rows)[k]),
        forall|j: int, k: int|
            0 <= j < k < complete_rows(quote, rows).len() ==> complete_rows(quote, rows)[j]
                < complete_rows(quote, rows)[k],
        forall|i: int|
            0 <= i < rows && #[trigger] quote.complete_at(i) ==> complete_rows(
                quote,
                rows,
            ).contains(i),
    decreases rows,
{
    if rows > 0 {
        let earlier = complete_rows(quote, (rows - 1) as nat);
        let chosen = complete_rows(quote, rows);
        lemma_complete_rows(quote, (rows - 1) as nat);
        assert forall|i: int| 0 <= i < rows && #[trigger] quote.complete_at(i) implies chosen.contains(
            i,
        ) by {
            if i < rows - 1 {
                assert(earlier.contains(i));
                let k = choose|k: int| 0 <= k < earlier.len() && earlier[k] == i;
                assert(chosen[k] == i);
            } else {
                assert(chosen[chosen.len() - 1] == i);
            }
        }
    }
}

/// Where exactly one row, `gap`, is incomplete, every other row below `rows`
/// is chosen and `gap` is not: the rows before `gap` keep their place, and
/// those after it move one place down.
pub proof fn lemma_single_gap<P>(quote: Quote<P>, rows: nat, gap: int)
    requires
        0 <= gap,
        !quote.complete_at(gap),
        forall|i: int| 0 <= i < rows && i != gap ==> #[trigger] quote.complete_at(i),
    ensures
        complete_rows(quote, rows).len() == if gap < rows {
            rows - 1
        } else {
            rows as int
        },
        forall|k: int|
            0 <= k < complete_rows(quote, rows).len() ==> #[trigger] complete_rows(quote, rows)[k]
                == if k < gap {
                k
            } else {
                k + 1
            },
        !complete_rows(quote, rows).contains(gap),
    decreases rows,
{
    if rows > 0 {
        lemma_single_gap(quote, (rows - 1) as nat, gap);
        if rows - 1 != gap {
            assert(quote.complete_at(rows - 1));
        }
    }
}

/// Where exactly one row among the timestamps, `gap`, is incomplete, the
/// bars are one fewer than the timestamps: the bars before `gap` are those
/// of the rows at their own place, the bars from `gap` on those of the rows
/// one place further, and no bar is that of row `gap`.
pub proof fn lemma_bars_around_gap<P>(
    bars: Seq<PriceBar<P>>,
    timestamp: Seq<i64>,
    quote: Quote<P>,
    gap: int,
)
    requires
        0 <= gap < timestamp.len(),
        !quote.complete_at(gap),
        forall|i: int| 0 <= i < timestamp.len() && i != gap ==> #[trigger] quote.complete_at(i),
        bars_of_rows(bars, timestamp, quote),
    ensures
        bars.len() == timestamp.len() - 1,
        forall|k: int|
            0 <= k < bars.len() ==> bar_of_row(
                #[trigger] bars[k],
                timestamp,
                quote,
                if k < gap {
                    k
                } else {
                    k + 1
                },
            ),
{
    lemma_single_gap(quote, timestamp.len(), gap);
}

/// Whether the answer holds a first result with a first quote.
pub open spec fn has_data<P>(response: ApiResponse<P>) -> bool {
    response.chart.result@.len() > 0 && response.chart.result@[0].indicators.quote@.len() > 0
}

/// The price bars of an answer. Only the first result and its first quote
/// are read. An answer without them yields `NoData`.
pub fn bars_of<P: Copy>(response: &ApiResponse<P>) -> (r: Result<Vec<PriceBar<P>>, FetchError>)
    ensures
        !has_data(*response) ==> r == Err::<Vec<PriceBar<P>>, FetchError>(FetchError::NoData),
        has_data(*response) ==> projection_holds(
            response.chart.result@[0].timestamp@,
            response.chart.result@[0].indicators.quote@[0],
            r,
        ),
        r matches Ok(bars) ==> bars@.len() <= response.chart.result@[0].timestamp@.len(),
        r is Ok <==> has_data(*response) && response.chart.result@[0].indicators.quote@[0].covers(
            response.chart.result@[0].timestamp@.len() as int,
        ) && all_dated(
            response.chart.result@[0].timestamp@,
            response.chart.result@[0].indicators.quote@[0],
            response.chart.result@[0].timestamp@.len() as int,
        ),
{
    if response.chart.result.len() == 0 {
        return Err(FetchError::NoData);
    }
    let result = &response.chart.result[0];
    if result.indicators.quote.len() == 0 {
        return Err(FetchError::NoData);
    }
    project_rows(&result.timestamp, &result.indicators.quote[0])
}

} // verus!
