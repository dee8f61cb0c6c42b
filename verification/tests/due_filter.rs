use gtasks::date::Date;
use gtasks::due::{parse_due_filter, read_ymd, window_bounds, DueFilterError};

fn bounds(text: &str) -> Result<(String, String), DueFilterError> {
    parse_due_filter(text).map(|b| (b.due_min, b.due_max))
}

#[test]
fn single_date_selects_that_day() {
    assert_eq!(
        bounds("2024-03-05"),
        Ok(("2024-03-05T00:00:00.000Z".to_string(), "2024-03-06T00:00:00.000Z".to_string()))
    );
}

#[test]
fn range_ends_the_day_after_its_last_day() {
    assert_eq!(
        bounds("2024-01-30..2024-02-01"),
        Ok(("2024-01-30T00:00:00.000Z".to_string(), "2024-02-02T00:00:00.000Z".to_string()))
    );
}

#[test]
fn range_over_a_leap_day() {
    assert_eq!(
        bounds("2024-02-28..2024-02-29"),
        Ok(("2024-02-28T00:00:00.000Z".to_string(), "2024-03-01T00:00:00.000Z".to_string()))
    );
}

#[test]
fn last_day_of_the_year_rolls_over() {
    assert_eq!(
        bounds("2023-12-31"),
        Ok(("2023-12-31T00:00:00.000Z".to_string(), "2024-01-01T00:00:00.000Z".to_string()))
    );
}

#[test]
fn one_day_range() {
    assert_eq!(
        bounds("2024-06-10..2024-06-10"),
        Ok(("2024-06-10T00:00:00.000Z".to_string(), "2024-06-11T00:00:00.000Z".to_string()))
    );
}

#[test]
fn short_fields_are_read_and_written_in_full() {
    assert_eq!(
        bounds("2024-1-5"),
        Ok(("2024-01-05T00:00:00.000Z".to_string(), "2024-01-06T00:00:00.000Z".to_string()))
    );
}

#[test]
fn range_ending_before_it_starts_is_refused() {
    assert_eq!(bounds("2024-02-01..2024-01-31"), Err(DueFilterError::EndBeforeStart));
}

#[test]
fn range_with_three_ends_is_refused() {
    assert_eq!(bounds("2024-01-01..2024-01-02..2024-01-03"), Err(DueFilterError::MalformedRange));
}

#[test]
fn bad_range_start_is_refused() {
    assert_eq!(bounds("someday..2024-01-02"), Err(DueFilterError::InvalidStart));
}

#[test]
fn bad_range_end_is_refused() {
    assert_eq!(bounds("2024-01-01..later"), Err(DueFilterError::InvalidEnd));
}

#[test]
fn empty_range_end_is_refused() {
    assert_eq!(bounds("2024-01-01.."), Err(DueFilterError::InvalidEnd));
}

#[test]
fn three_dots_split_into_an_empty_start() {
    assert_eq!(bounds("..."), Err(DueFilterError::InvalidStart));
}

#[test]
fn bad_single_date_is_refused() {
    assert_eq!(bounds("tomorrow"), Err(DueFilterError::InvalidDate));
    assert_eq!(bounds("2024-02-30"), Err(DueFilterError::InvalidDate));
    assert_eq!(bounds("2024/01/01"), Err(DueFilterError::InvalidDate));
}

#[test]
fn last_representable_day_has_no_window() {
    assert_eq!(bounds("+262142-12-31"), Err(DueFilterError::NoNextDay));
}

#[test]
fn far_years_carry_a_sign() {
    assert_eq!(
        bounds("+10000-01-01"),
        Ok(("+10000-01-01T00:00:00.000Z".to_string(), "+10000-01-02T00:00:00.000Z".to_string()))
    );
}

#[test]
fn today_selects_one_day() {
    let (lo, hi) = bounds("today").unwrap();
    assert_eq!(lo.len(), 24);
    assert_eq!(hi.len(), 24);
    assert!(lo.ends_with("T00:00:00.000Z"));
    assert!(lo < hi);
}

#[test]
fn reading_a_date_gives_its_fields() {
    assert_eq!(read_ymd("1999-12-31"), Some(Date { year: 1999, month: 12, day: 31 }));
    assert_eq!(read_ymd("1999-13-01"), None);
}

#[test]
fn window_of_explicit_days() {
    let start = Date { year: 2020, month: 2, day: 29 };
    let end = Date { year: 2020, month: 12, day: 31 };
    let b = window_bounds(&start, &end).unwrap();
    assert_eq!(b.due_min, "2020-02-29T00:00:00.000Z");
    assert_eq!(b.due_max, "2021-01-01T00:00:00.000Z");
}

#[test]
fn error_messages() {
    assert_eq!(DueFilterError::EndBeforeStart.message(), "終了日が開始日より前です");
    assert_eq!(DueFilterError::MalformedRange.message(), "日付範囲の形式が不正です (YYYY-MM-DD..YYYY-MM-DD)");
    assert_eq!(DueFilterError::NoNextDay.message(), "終了日の翌日を計算できません");
}

#[test]
fn one_day_range_equals_single_date() {
    assert_eq!(bounds("2024-08-15..2024-08-15"), bounds("2024-08-15"));
}

#[test]
fn written_dates_read_back() {
    for date in [Date { year: 2024, month: 2, day: 29 }, Date { year: -1, month: 1, day: 1 }, Date { year: 10000, month: 12, day: 31 }, Date { year: 0, month: 1, day: 1 }] {
        assert_eq!(read_ymd(&date.to_text()), Some(date));
    }
    let (lo, hi) = bounds("2024-02-28..2024-02-29").unwrap();
    assert_eq!(read_ymd(&lo[..10]), Some(Date { year: 2024, month: 2, day: 28 }));
    assert_eq!(read_ymd(&hi[..10]), Some(Date { year: 2024, month: 3, day: 1 }));
}
