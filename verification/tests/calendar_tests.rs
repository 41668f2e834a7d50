use nana_ui_runtime::calendar_dates::{
    civil_from_days, date_key_from_days, days_from_civil, days_in_month, parse_date,
    start_of_week, week_start_from,
};

#[test]
fn date_conversion_round_trips_leap_days() {
    let days = days_from_civil(2024, 2, 29);
    assert_eq!(civil_from_days(days), (2024, 2, 29));
}

#[test]
fn epoch_and_known_day_numbers() {
    assert_eq!(days_from_civil(1970, 1, 1), 0);
    assert_eq!(days_from_civil(2000, 3, 1), 11017);
    assert_eq!(civil_from_days(-1), (1969, 12, 31));
    assert_eq!(civil_from_days(0), (1970, 1, 1));
    assert_eq!(days_from_civil(1, 1, 1), -719162);
}

#[test]
fn round_trip_over_a_range_of_days() {
    for day in -800_000i64..800_000 {
        let (y, m, d) = civil_from_days(day);
        assert_eq!(days_from_civil(y, m, d), day);
    }
}

#[test]
fn parse_date_accepts_only_valid_keys() {
    assert_eq!(parse_date("2026-06-01"), Some(days_from_civil(2026, 6, 1)));
    assert_eq!(parse_date("2024-02-29"), Some(days_from_civil(2024, 2, 29)));
    assert_eq!(parse_date("+2026-+6-01"), Some(days_from_civil(2026, 6, 1)));
    assert_eq!(parse_date("not-a-date"), None);
    assert_eq!(parse_date("2026-02-30"), None);
    assert_eq!(parse_date("2026-13-01"), None);
    assert_eq!(parse_date("2023-02-29"), None);
    assert_eq!(parse_date("2026-06-01-02"), None);
    assert_eq!(parse_date("2026-06"), None);
    assert_eq!(parse_date("2026-256-01"), None);
    assert_eq!(parse_date(""), None);
}

#[test]
fn date_keys_are_zero_padded() {
    assert_eq!(date_key_from_days(days_from_civil(2026, 6, 1)), "2026-06-01");
    assert_eq!(date_key_from_days(days_from_civil(7, 1, 9)), "0007-01-09");
    assert_eq!(date_key_from_days(days_from_civil(-5, 12, 31)), "-005-12-31");
}

#[test]
fn month_lengths_follow_gregorian_leap_rules() {
    assert_eq!(days_in_month(2024, 2), 29);
    assert_eq!(days_in_month(1900, 2), 28);
    assert_eq!(days_in_month(2000, 2), 29);
    assert_eq!(days_in_month(2026, 4), 30);
    assert_eq!(days_in_month(2026, 13), 31);
}

#[test]
fn weeks_start_on_the_requested_weekday() {
    // 2026-06-03 is a Wednesday; the Monday week starts 2026-06-01.
    let wednesday = days_from_civil(2026, 6, 3);
    assert_eq!(start_of_week(wednesday, 1), days_from_civil(2026, 6, 1));
    assert_eq!(start_of_week(wednesday, 0), days_from_civil(2026, 5, 31));
    assert_eq!(start_of_week(wednesday, 3), wednesday);
    assert_eq!(start_of_week(wednesday, 8), days_from_civil(2026, 6, 1));
}

#[test]
fn day_numbers_accept_any_month_byte() {
    assert_eq!(days_from_civil(2020, 13, 1), days_from_civil(2021, 1, 1));
    assert_eq!(days_from_civil(2021, 0, 1), days_from_civil(2020, 12, 1));
    assert_eq!(days_from_civil(1970, 1, 1), 0);
}

#[test]
fn week_starts_wrap_modulo_seven() {
    assert_eq!(week_start_from(1), 1);
    assert_eq!(week_start_from(7), 0);
    assert_eq!(week_start_from(-1), 6);
    assert_eq!(week_start_from(15), 1);
}
