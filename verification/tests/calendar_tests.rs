use price_history::calendar::{
    midnight_of, span_days, year_before, DEFAULT_LOOKBACK_DAYS, EPOCH_CE_DAY, SECONDS_PER_DAY,
};

#[test]
fn the_epoch_starts_at_zero() {
    assert_eq!(EPOCH_CE_DAY, 719_163);
    assert_eq!(SECONDS_PER_DAY, 86_400);
    assert_eq!(DEFAULT_LOOKBACK_DAYS, 365);
    assert_eq!(midnight_of(719_163), 0);
    assert_eq!(midnight_of(719_164), 86_400);
    assert_eq!(midnight_of(719_162), -86_400);
}

#[test]
fn midnight_of_a_known_day() {
    assert_eq!(midnight_of(739_038), 1_717_200_000);
    assert_eq!(midnight_of(739_068), 1_719_792_000);
}

#[test]
fn midnight_agrees_with_chrono() {
    for (y, m, d) in [(1970, 1, 1), (2024, 6, 1), (2000, 2, 29), (1969, 12, 31), (1, 1, 1), (9999, 12, 31)] {
        let date = chrono::NaiveDate::from_ymd_opt(y, m, d).unwrap();
        let day = chrono::Datelike::num_days_from_ce(&date) as i64;
        let expected = date.and_hms_opt(0, 0, 0).unwrap().and_utc().timestamp();
        assert_eq!(midnight_of(day), expected);
    }
}

#[test]
fn midnight_at_the_ends_of_the_range() {
    assert_eq!(midnight_of(i32::MAX as i64), (i32::MAX as i64 - 719_163) * 86_400);
    assert_eq!(
        midnight_of(i32::MIN as i64 - 365),
        (i32::MIN as i64 - 365 - 719_163) * 86_400
    );
}

#[test]
fn span_is_absolute() {
    assert_eq!(span_days(739_038, 739_068), 30);
    assert_eq!(span_days(739_068, 739_038), 30);
    assert_eq!(span_days(739_038, 739_038), 0);
    assert_eq!(span_days(-5, 5), 10);
    assert_eq!(
        span_days(i32::MAX as i64, i32::MIN as i64 - 365),
        i32::MAX as i64 - i32::MIN as i64 + 365
    );
}

#[test]
fn span_agrees_with_chrono() {
    let a = chrono::NaiveDate::from_ymd_opt(2024, 6, 1).unwrap();
    let b = chrono::NaiveDate::from_ymd_opt(2021, 3, 17).unwrap();
    let expected = (a - b).num_days().abs();
    let da = chrono::Datelike::num_days_from_ce(&a) as i64;
    let db = chrono::Datelike::num_days_from_ce(&b) as i64;
    assert_eq!(span_days(da, db), expected);
    assert_eq!(span_days(db, da), expected);
}

#[test]
fn a_year_before_is_365_days_before() {
    assert_eq!(year_before(739_038), 738_673);
    assert_eq!(year_before(0), -365);
    assert_eq!(year_before(i32::MIN), i32::MIN as i64 - 365);
    let date = chrono::NaiveDate::from_ymd_opt(2024, 6, 1).unwrap();
    let earlier = date - chrono::Duration::days(365);
    assert_eq!(
        year_before(chrono::Datelike::num_days_from_ce(&date)),
        chrono::Datelike::num_days_from_ce(&earlier) as i64
    );
}
