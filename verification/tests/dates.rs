use apod_wallpaper::date::{anchor_date, date_sequence, month_length, range_dates, sub_days, Date};
use apod_wallpaper::datestr::{date_string, parse_date};

fn d(year: u32, month: u32, day: u32) -> Date {
    Date { year, month, day }
}

#[test]
fn month_lengths_follow_the_calendar() {
    assert_eq!(month_length(2024, 1), 31);
    assert_eq!(month_length(2024, 2), 29);
    assert_eq!(month_length(2023, 2), 28);
    assert_eq!(month_length(1900, 2), 28);
    assert_eq!(month_length(2000, 2), 29);
    assert_eq!(month_length(2024, 4), 30);
    assert_eq!(month_length(2024, 12), 31);
}

#[test]
fn next_day_handles_leap_years() {
    assert_eq!(d(2024, 2, 28).next_day(), d(2024, 2, 29));
    assert_eq!(d(2024, 2, 29).next_day(), d(2024, 3, 1));
    assert_eq!(d(2023, 2, 28).next_day(), d(2023, 3, 1));
}

#[test]
fn next_day_rolls_over_month_and_year() {
    assert_eq!(d(2024, 1, 31).next_day(), d(2024, 2, 1));
    assert_eq!(d(2023, 12, 31).next_day(), d(2024, 1, 1));
    assert_eq!(d(2024, 1, 10).next_day(), d(2024, 1, 11));
}

#[test]
fn prev_day_inverts_next_day() {
    assert_eq!(d(2024, 3, 1).prev_day(), d(2024, 2, 29));
    assert_eq!(d(2024, 1, 1).prev_day(), d(2023, 12, 31));
    assert_eq!(d(2024, 1, 11).prev_day(), d(2024, 1, 10));
}

#[test]
fn sub_days_walks_across_month_ends() {
    assert_eq!(sub_days(&d(2024, 1, 10), 10), d(2023, 12, 31));
    assert_eq!(sub_days(&d(2024, 3, 1), 1), d(2024, 2, 29));
    assert_eq!(sub_days(&d(2024, 1, 10), 0), d(2024, 1, 10));
}

#[test]
fn sub_days_stops_at_the_first_date() {
    assert_eq!(sub_days(&d(1, 1, 3), 10), d(1, 1, 1));
}

#[test]
fn date_sequence_spans_inclusive_ascending() {
    let seq = date_sequence(&d(2024, 1, 10), &d(2024, 1, 12));
    assert_eq!(seq, vec![d(2024, 1, 10), d(2024, 1, 11), d(2024, 1, 12)]);
}

#[test]
fn date_sequence_crosses_month_boundaries() {
    let seq = date_sequence(&d(2024, 2, 28), &d(2024, 3, 1));
    assert_eq!(seq, vec![d(2024, 2, 28), d(2024, 2, 29), d(2024, 3, 1)]);
}

#[test]
fn date_sequence_of_one_day_has_one_date() {
    assert_eq!(date_sequence(&d(2024, 1, 10), &d(2024, 1, 10)), vec![d(2024, 1, 10)]);
}

#[test]
fn date_sequence_is_empty_when_start_follows_end() {
    assert!(date_sequence(&d(2024, 1, 12), &d(2024, 1, 10)).is_empty());
}

#[test]
fn date_sequence_twice_yields_identical_sequences() {
    let a = date_sequence(&d(2021, 12, 30), &d(2022, 1, 2));
    let b = date_sequence(&d(2021, 12, 30), &d(2022, 1, 2));
    assert_eq!(a, b);
    assert_eq!(a.len(), 4);
}

#[test]
fn range_dates_walks_backward_from_the_anchor() {
    let dates = range_dates(&d(2024, 1, 10), 3);
    assert_eq!(dates, vec![d(2024, 1, 10), d(2024, 1, 9), d(2024, 1, 8)]);
}

#[test]
fn range_dates_of_zero_days_is_empty() {
    assert!(range_dates(&d(2024, 1, 10), 0).is_empty());
}

#[test]
fn anchor_date_applies_the_cutover_hour() {
    assert_eq!(anchor_date(&d(2024, 1, 10), 4, 0), d(2024, 1, 9));
    assert_eq!(anchor_date(&d(2024, 1, 10), 5, 0), d(2024, 1, 10));
    assert_eq!(anchor_date(&d(2024, 1, 10), 23, 2), d(2024, 1, 8));
    assert_eq!(anchor_date(&d(2024, 1, 10), 0, 2), d(2024, 1, 7));
}

#[test]
fn date_string_pads_with_zeroes() {
    assert_eq!(date_string(&d(2024, 1, 10)), "2024-01-10");
    assert_eq!(date_string(&d(987, 6, 5)), "0987-06-05");
    assert_eq!(date_string(&d(2024, 12, 31)), "2024-12-31");
}

#[test]
fn parse_date_reads_the_literal_form() {
    assert_eq!(parse_date("2024-01-10"), Some(d(2024, 1, 10)));
    assert_eq!(parse_date("2024-02-29"), Some(d(2024, 2, 29)));
    assert_eq!(parse_date("0001-01-01"), Some(d(1, 1, 1)));
}

#[test]
fn parse_date_rejects_other_shapes() {
    assert_eq!(parse_date("2024/01/10"), None);
    assert_eq!(parse_date("2024-1-10"), None);
    assert_eq!(parse_date("24-01-10"), None);
    assert_eq!(parse_date("2024-01-10 "), None);
    assert_eq!(parse_date(""), None);
    assert_eq!(parse_date("yyyy-mm-dd"), None);
}

#[test]
fn parse_date_rejects_impossible_days() {
    assert_eq!(parse_date("2023-02-29"), None);
    assert_eq!(parse_date("2024-13-01"), None);
    assert_eq!(parse_date("2024-00-10"), None);
    assert_eq!(parse_date("2024-04-31"), None);
    assert_eq!(parse_date("2024-01-00"), None);
}

#[test]
fn format_then_parse_gives_the_date_back() {
    for &date in &[d(2024, 1, 10), d(1995, 6, 16), d(2000, 2, 29), d(9999, 12, 31)] {
        assert_eq!(parse_date(&date_string(&date)), Some(date));
    }
}
