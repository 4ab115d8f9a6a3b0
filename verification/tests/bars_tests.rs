use price_history::bars::{
    bar_from_row, bars_of, complete_indices, project_rows, ApiResponse, Chart, ChartResult,
    Indicators, PriceBar, Quote,
};
use price_history::error::FetchError;

const DAY: i64 = 86_400;
const JUNE_FIRST: i64 = 1_717_200_000;

fn full_quote(rows: usize) -> Quote<f64> {
    Quote {
        open: (0..rows).map(|i| Some(10.0 + i as f64)).collect(),
        high: (0..rows).map(|i| Some(12.0 + i as f64)).collect(),
        low: (0..rows).map(|i| Some(9.0 + i as f64)).collect(),
        close: (0..rows).map(|i| Some(11.0 + i as f64)).collect(),
        volume: (0..rows).map(|i| Some(1000 + i as u64)).collect(),
    }
}

fn response(timestamp: Vec<i64>, quote: Vec<Quote<f64>>) -> ApiResponse<f64> {
    ApiResponse {
        chart: Chart { result: vec![ChartResult { timestamp, indicators: Indicators { quote } }] },
    }
}

fn days(rows: usize) -> Vec<i64> {
    (0..rows).map(|i| JUNE_FIRST + DAY * i as i64).collect()
}

#[test]
fn complete_rows_become_bars_in_order() {
    let bars = bars_of(&response(days(3), vec![full_quote(3)])).unwrap();
    assert_eq!(
        bars,
        vec![
            PriceBar { date: String::from("2024-06-01"), open: 10.0, high: 12.0, low: 9.0, close: 11.0, volume: 1000 },
            PriceBar { date: String::from("2024-06-02"), open: 11.0, high: 13.0, low: 10.0, close: 12.0, volume: 1001 },
            PriceBar { date: String::from("2024-06-03"), open: 12.0, high: 14.0, low: 11.0, close: 13.0, volume: 1002 },
        ]
    );
}

#[test]
fn a_row_without_volume_is_left_out() {
    let mut quote = full_quote(5);
    quote.volume[2] = None;
    let bars = bars_of(&response(days(5), vec![quote])).unwrap();
    assert_eq!(bars.len(), 4);
    let dates: Vec<&str> = bars.iter().map(|b| b.date.as_str()).collect();
    assert_eq!(dates, vec!["2024-06-01", "2024-06-02", "2024-06-04", "2024-06-05"]);
    let volumes: Vec<u64> = bars.iter().map(|b| b.volume).collect();
    assert_eq!(volumes, vec![1000, 1001, 1003, 1004]);
    let opens: Vec<f64> = bars.iter().map(|b| b.open).collect();
    assert_eq!(opens, vec![10.0, 11.0, 13.0, 14.0]);
}

#[test]
fn a_row_is_left_out_whichever_value_is_missing() {
    for field in 0..5 {
        let mut quote = full_quote(3);
        match field {
            0 => quote.open[1] = None,
            1 => quote.high[1] = None,
            2 => quote.low[1] = None,
            3 => quote.close[1] = None,
            _ => quote.volume[1] = None,
        }
        let bars = bars_of(&response(days(3), vec![quote])).unwrap();
        let dates: Vec<&str> = bars.iter().map(|b| b.date.as_str()).collect();
        assert_eq!(dates, vec!["2024-06-01", "2024-06-03"]);
    }
}

#[test]
fn no_complete_row_gives_no_bar() {
    let mut quote = full_quote(2);
    quote.open[0] = None;
    quote.close[1] = None;
    assert_eq!(bars_of(&response(days(2), vec![quote])), Ok(vec![]));
    assert_eq!(bars_of(&response(vec![], vec![full_quote(0)])), Ok(vec![]));
}

#[test]
fn timestamp_converts_to_its_utc_date() {
    let bars = bars_of(&response(vec![1_717_200_000], vec![full_quote(1)])).unwrap();
    assert_eq!(bars[0].date, "2024-06-01");
    let bars = bars_of(&response(
        vec![0, -1, 1_717_200_000 + DAY - 1, 951_782_400],
        vec![full_quote(4)],
    ))
    .unwrap();
    let dates: Vec<&str> = bars.iter().map(|b| b.date.as_str()).collect();
    assert_eq!(dates, vec!["1970-01-01", "1969-12-31", "2024-06-01", "2000-02-29"]);
}

#[test]
fn empty_result_is_no_data() {
    let empty: ApiResponse<f64> = ApiResponse { chart: Chart { result: vec![] } };
    assert_eq!(bars_of(&empty), Err(FetchError::NoData));
    assert_eq!(bars_of(&empty).unwrap_err().message(), "No data returned.");
}

#[test]
fn empty_quote_is_no_data() {
    assert_eq!(bars_of(&response(days(3), vec![])), Err(FetchError::NoData));
}

#[test]
fn only_the_first_result_and_quote_are_read() {
    let mut second = full_quote(2);
    second.open[0] = None;
    let mut answer = response(days(2), vec![full_quote(2), second]);
    answer.chart.result.push(ChartResult {
        timestamp: vec![0],
        indicators: Indicators { quote: vec![] },
    });
    let bars = bars_of(&answer).unwrap();
    assert_eq!(bars.len(), 2);
    assert_eq!(bars[0].date, "2024-06-01");
}

#[test]
fn short_quote_arrays_are_misaligned() {
    for field in 0..5 {
        let mut quote = full_quote(3);
        match field {
            0 => quote.open.truncate(2),
            1 => quote.high.truncate(2),
            2 => quote.low.truncate(0),
            3 => quote.close.truncate(2),
            _ => quote.volume.truncate(1),
        }
        assert_eq!(bars_of(&response(days(3), vec![quote])), Err(FetchError::Misaligned));
    }
}

#[test]
fn longer_quote_arrays_are_read_up_to_the_timestamps() {
    let bars = bars_of(&response(days(2), vec![full_quote(4)])).unwrap();
    assert_eq!(bars.len(), 2);
    assert_eq!(bars[1].volume, 1001);
}

#[test]
fn a_timestamp_outside_the_calendar_is_reported() {
    let answer = response(vec![JUNE_FIRST, i64::MAX, JUNE_FIRST], vec![full_quote(3)]);
    assert_eq!(bars_of(&answer), Err(FetchError::TimestampOutOfRange { index: 1 }));
    let answer = response(vec![i64::MIN, JUNE_FIRST], vec![full_quote(2)]);
    assert_eq!(bars_of(&answer), Err(FetchError::TimestampOutOfRange { index: 0 }));
}

#[test]
fn a_timestamp_outside_the_calendar_in_an_incomplete_row_is_passed_over() {
    let mut quote = full_quote(3);
    quote.high[1] = None;
    let bars = bars_of(&response(vec![JUNE_FIRST, i64::MAX, JUNE_FIRST + DAY], vec![quote])).unwrap();
    let dates: Vec<&str> = bars.iter().map(|b| b.date.as_str()).collect();
    assert_eq!(dates, vec!["2024-06-01", "2024-06-02"]);
}

#[test]
fn complete_indices_are_the_rows_with_all_values() {
    let mut quote = full_quote(6);
    quote.volume[2] = None;
    quote.low[5] = None;
    assert_eq!(complete_indices(&quote, 6), vec![0, 1, 3, 4]);
    assert_eq!(complete_indices(&quote, 3), vec![0, 1]);
    assert_eq!(complete_indices(&quote, 0), Vec::<usize>::new());
    assert_eq!(complete_indices(&quote, 9), vec![0, 1, 3, 4]);
    assert!(quote.is_complete_at(0));
    assert!(!quote.is_complete_at(2));
    assert!(!quote.is_complete_at(6));
    assert!(quote.covers_rows(6));
    assert!(!quote.covers_rows(7));
}

#[test]
fn bar_from_row_takes_the_values_of_the_row() {
    let quote = full_quote(3);
    assert_eq!(
        bar_from_row(String::from("2024-06-03"), &quote, 2),
        PriceBar { date: String::from("2024-06-03"), open: 12.0, high: 14.0, low: 11.0, close: 13.0, volume: 1002 }
    );
}

#[test]
fn project_rows_reads_one_result() {
    let mut quote = full_quote(3);
    quote.close[0] = None;
    let bars = project_rows(&days(3), &quote).unwrap();
    assert_eq!(bars.len(), 2);
    assert_eq!(bars[0].date, "2024-06-02");
    assert_eq!(bars[0].close, 12.0);
    quote.close.truncate(1);
    assert_eq!(project_rows(&days(3), &quote), Err(FetchError::Misaligned));
}

#[test]
fn prices_may_be_of_another_type() {
    let quote: Quote<u32> = Quote {
        open: vec![Some(1), None],
        high: vec![Some(2), Some(2)],
        low: vec![Some(3), Some(3)],
        close: vec![Some(4), Some(4)],
        volume: vec![Some(5), Some(5)],
    };
    let bars = project_rows(&vec![JUNE_FIRST, JUNE_FIRST + DAY], &quote).unwrap();
    assert_eq!(
        bars,
        vec![PriceBar { date: String::from("2024-06-01"), open: 1, high: 2, low: 3, close: 4, volume: 5 }]
    );
}
