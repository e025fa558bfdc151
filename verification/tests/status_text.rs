use trans_rights_bot::date::leap_year;
use trans_rights_bot::date::month_length;
use trans_rights_bot::date::CalendarDate;
use trans_rights_bot::date::MAX_YEAR;
use trans_rights_bot::date::MIN_YEAR;
use trans_rights_bot::status::append_decimal;
use trans_rights_bot::status::permalink_of;
use trans_rights_bot::status::StatusTemplate;

const FLAG: &str = "\u{1f3f3}\u{200d}\u{26a7}";

fn date(year: i32, month: u32, day: u32) -> CalendarDate {
    CalendarDate::new(year, month, day).unwrap()
}

fn decimal(n: u64) -> String {
    let mut out = String::new();
    append_decimal(&mut out, n);
    out
}

#[test]
fn status_for_a_fixed_date() {
    let template = StatusTemplate::default_template();
    let text = template.compose_status(&date(2023, 5, 1), 123);
    assert_eq!(
        text,
        "01/05/23 \u{1f3f3}\u{200d}\u{26a7}\u{1f3f3}\u{200d}\u{26a7}\u{1f3f3}\u{200d}\u{26a7} https://twitter.com/smolrobots/status/123"
    );
    assert_eq!(text, format!("01/05/23 {0}{0}{0} https://twitter.com/smolrobots/status/123", FLAG));
    assert_eq!(text.matches(FLAG).count(), 3);
    assert!(text.ends_with("/123"));
}

#[test]
fn status_for_a_large_identifier() {
    let template = StatusTemplate::default_template();
    let text = template.compose_status(&date(2021, 12, 31), 1270973597885050880);
    assert_eq!(
        text,
        format!("31/12/21 {0}{0}{0} https://twitter.com/smolrobots/status/1270973597885050880", FLAG)
    );
}

#[test]
fn status_with_a_configured_marker_and_handle() {
    let template = StatusTemplate { marker: "*".to_string(), handle: "someone".to_string() };
    assert_eq!(
        template.compose_status(&date(1999, 1, 9), 0),
        "09/01/99 *** https://twitter.com/someone/status/0"
    );
    let blank = StatusTemplate { marker: String::new(), handle: String::new() };
    assert_eq!(blank.compose_status(&date(2000, 2, 29), 7), "29/02/00  https://twitter.com//status/7");
}

#[test]
fn default_template_values() {
    let template = StatusTemplate::default_template();
    assert_eq!(template.marker, FLAG);
    assert_eq!(template.marker.chars().count(), 3);
    assert_eq!(template.handle, "smolrobots");
}

#[test]
fn status_at_a_moment() {
    let template = StatusTemplate::default_template();
    assert_eq!(
        template.compose_status_at(1682899200, 123),
        Some(format!("01/05/23 {0}{0}{0} https://twitter.com/smolrobots/status/123", FLAG))
    );
    assert_eq!(
        template.compose_status_at(1682899200 + 86399, 123),
        Some(format!("01/05/23 {0}{0}{0} https://twitter.com/smolrobots/status/123", FLAG))
    );
    assert_eq!(
        template.compose_status_at(1682899200 - 1, 5),
        Some(format!("30/04/23 {0}{0}{0} https://twitter.com/smolrobots/status/5", FLAG))
    );
}

#[test]
fn status_at_a_moment_beyond_the_calendar() {
    let template = StatusTemplate::default_template();
    assert_eq!(template.compose_status_at(i64::MAX, 123), None);
    assert_eq!(template.compose_status_at(i64::MIN, 123), None);
}

#[test]
fn status_at_a_moment_is_the_status_of_its_day() {
    let template = StatusTemplate { marker: "+".to_string(), handle: "h".to_string() };
    for seconds in [0, -1, 951782400, 1431648000, 1709164800, 4102444800, -62135596800] {
        let day = CalendarDate::of_unix_seconds(seconds).unwrap();
        assert_eq!(template.compose_status_at(seconds, 9), Some(template.compose_status(&day, 9)));
    }
}

#[test]
fn moments_fall_on_their_days() {
    assert_eq!(CalendarDate::of_unix_seconds(0), CalendarDate::new(1970, 1, 1));
    assert_eq!(CalendarDate::of_unix_seconds(86399), CalendarDate::new(1970, 1, 1));
    assert_eq!(CalendarDate::of_unix_seconds(86400), CalendarDate::new(1970, 1, 2));
    assert_eq!(CalendarDate::of_unix_seconds(-1), CalendarDate::new(1969, 12, 31));
    assert_eq!(CalendarDate::of_unix_seconds(-86400), CalendarDate::new(1969, 12, 31));
    assert_eq!(CalendarDate::of_unix_seconds(-86401), CalendarDate::new(1969, 12, 30));
    assert_eq!(CalendarDate::of_unix_seconds(951782400), CalendarDate::new(2000, 2, 29));
    assert_eq!(CalendarDate::of_unix_seconds(1431648000), CalendarDate::new(2015, 5, 15));
    assert_eq!(CalendarDate::of_unix_seconds(1682899200), CalendarDate::new(2023, 5, 1));
    assert_eq!(CalendarDate::of_unix_seconds(1709164800), CalendarDate::new(2024, 2, 29));
    assert_eq!(CalendarDate::of_unix_seconds(1709251199), CalendarDate::new(2024, 2, 29));
    assert_eq!(CalendarDate::of_unix_seconds(1709251200), CalendarDate::new(2024, 3, 1));
    assert!(CalendarDate::of_unix_seconds(1682899200).is_some());
}

#[test]
fn calendar_ends_where_it_ends() {
    let last = chrono::NaiveDate::MAX.and_hms_opt(23, 59, 59).unwrap().and_utc().timestamp();
    let first = chrono::NaiveDate::MIN.and_hms_opt(0, 0, 0).unwrap().and_utc().timestamp();
    assert_eq!(CalendarDate::of_unix_seconds(last), CalendarDate::new(MAX_YEAR, 12, 31));
    assert!(CalendarDate::of_unix_seconds(last).is_some());
    assert_eq!(CalendarDate::of_unix_seconds(last + 1), None);
    assert_eq!(CalendarDate::of_unix_seconds(first), CalendarDate::new(MIN_YEAR, 1, 1));
    assert!(CalendarDate::of_unix_seconds(first).is_some());
    assert_eq!(CalendarDate::of_unix_seconds(first - 1), None);
    assert_eq!(CalendarDate::of_unix_seconds(i64::MAX), None);
    assert_eq!(CalendarDate::of_unix_seconds(i64::MIN), None);
}

#[test]
fn every_day_of_a_century_is_found_from_its_noon() {
    let mut seconds: i64 = 43200;
    for year in 1970..2070 {
        for month in 1..=12u32 {
            for day in 1..=month_length(year, month) {
                assert_eq!(CalendarDate::of_unix_seconds(seconds), CalendarDate::new(year, month, day));
                seconds += 86400;
            }
        }
    }
}

#[test]
fn the_present_moment_falls_on_a_day_of_the_calendar() {
    let now = std::time::SystemTime::now()
        .duration_since(std::time::UNIX_EPOCH)
        .unwrap()
        .as_secs() as i64;
    let today = CalendarDate::of_unix_seconds(now).unwrap();
    assert_eq!(CalendarDate::new(today.year(), today.month(), today.day()), Some(today));
    assert!(today.year() >= 2024);
}

#[test]
fn short_text_is_day_month_year() {
    assert_eq!(date(2023, 5, 1).short_text(), "01/05/23");
    assert_eq!(date(2023, 11, 30).short_text(), "30/11/23");
    assert_eq!(date(2000, 1, 1).short_text(), "01/01/00");
    assert_eq!(date(1909, 10, 10).short_text(), "10/10/09");
    assert_eq!(date(12345, 6, 7).short_text(), "07/06/45");
    assert_eq!(date(5, 6, 7).short_text(), "07/06/05");
}

#[test]
fn short_text_of_years_before_the_first() {
    assert_eq!(date(0, 3, 4).short_text(), "04/03/00");
    assert_eq!(date(-1, 3, 4).short_text(), "04/03/99");
    assert_eq!(date(-2023, 3, 4).short_text(), "04/03/77");
    assert_eq!(date(MIN_YEAR, 1, 1).short_text(), "01/01/57");
    assert_eq!(date(MAX_YEAR, 12, 31).short_text(), "31/12/42");
}

#[test]
fn calendar_has_the_days_it_has() {
    assert!(CalendarDate::new(2023, 1, 31).is_some());
    assert!(CalendarDate::new(2023, 4, 30).is_some());
    assert!(CalendarDate::new(2023, 4, 31).is_none());
    assert!(CalendarDate::new(2023, 2, 28).is_some());
    assert!(CalendarDate::new(2023, 2, 29).is_none());
    assert!(CalendarDate::new(2024, 2, 29).is_some());
    assert!(CalendarDate::new(2024, 2, 30).is_none());
    assert!(CalendarDate::new(1900, 2, 29).is_none());
    assert!(CalendarDate::new(2000, 2, 29).is_some());
    assert!(CalendarDate::new(-4, 2, 29).is_some());
    assert!(CalendarDate::new(-100, 2, 29).is_none());
    assert!(CalendarDate::new(-400, 2, 29).is_some());
    assert!(CalendarDate::new(2023, 0, 1).is_none());
    assert!(CalendarDate::new(2023, 13, 1).is_none());
    assert!(CalendarDate::new(2023, 1, 0).is_none());
    assert!(CalendarDate::new(2023, 1, 32).is_none());
    assert!(CalendarDate::new(2023, u32::MAX, u32::MAX).is_none());
}

#[test]
fn years_have_a_range() {
    assert!(CalendarDate::new(MIN_YEAR, 1, 1).is_some());
    assert!(CalendarDate::new(MIN_YEAR - 1, 12, 31).is_none());
    assert!(CalendarDate::new(MAX_YEAR, 12, 31).is_some());
    assert!(CalendarDate::new(MAX_YEAR + 1, 1, 1).is_none());
    assert!(CalendarDate::new(i32::MIN, 1, 1).is_none());
    assert!(CalendarDate::new(i32::MAX, 1, 1).is_none());
    assert_eq!(MIN_YEAR, -262143);
    assert_eq!(MAX_YEAR, 262142);
}

#[test]
fn date_gives_back_its_parts() {
    let d = date(2023, 5, 1);
    assert_eq!(d.year(), 2023);
    assert_eq!(d.month(), 5);
    assert_eq!(d.day(), 1);
}

#[test]
fn every_day_of_four_centuries_is_written_with_two_digits_each() {
    for year in 1900..2300 {
        for month in 1..=12u32 {
            for day in 1..=month_length(year, month) {
                let expected = format!("{:02}/{:02}/{:02}", day, month, year % 100);
                assert_eq!(date(year, month, day).short_text(), expected);
            }
            assert!(CalendarDate::new(year, month, month_length(year, month) + 1).is_none());
        }
    }
}

#[test]
fn leap_years() {
    assert!(leap_year(2024));
    assert!(!leap_year(2023));
    assert!(!leap_year(1900));
    assert!(leap_year(2000));
    assert!(leap_year(0));
    assert!(leap_year(-4));
    assert!(!leap_year(-1));
    assert!(!leap_year(-100));
    assert!(leap_year(-400));
    assert!(!leap_year(MIN_YEAR));
    assert!(!leap_year(MAX_YEAR));
    assert!(leap_year(i32::MIN));
    assert!(!leap_year(i32::MAX));
    assert!(leap_year(-2147483600));
    assert!(!leap_year(2147483500));
    assert!(leap_year(2147483600));
}

#[test]
fn month_lengths() {
    let lengths = [31, 28, 31, 30, 31, 30, 31, 31, 30, 31, 30, 31];
    for (i, days) in lengths.iter().enumerate() {
        assert_eq!(month_length(2023, i as u32 + 1), *days);
    }
    assert_eq!(month_length(2024, 2), 29);
    assert_eq!(month_length(2023, 0), 0);
    assert_eq!(month_length(2023, 13), 0);
}

#[test]
fn permalink_holds_handle_and_identifier() {
    assert_eq!(permalink_of("smolrobots", 123), "https://twitter.com/smolrobots/status/123");
    assert_eq!(permalink_of("a", 0), "https://twitter.com/a/status/0");
    assert_eq!(
        permalink_of("smolrobots", u64::MAX),
        "https://twitter.com/smolrobots/status/18446744073709551615"
    );
}

#[test]
fn numbers_are_written_in_base_ten() {
    assert_eq!(decimal(0), "0");
    assert_eq!(decimal(9), "9");
    assert_eq!(decimal(10), "10");
    assert_eq!(decimal(123), "123");
    assert_eq!(decimal(1000), "1000");
    assert_eq!(decimal(1615276641013448704), "1615276641013448704");
    assert_eq!(decimal(u64::MAX), "18446744073709551615");
    for n in 0..2000u64 {
        assert_eq!(decimal(n), n.to_string());
    }
}

#[test]
fn decimal_is_appended_to_what_stands_there() {
    let mut out = String::from("id ");
    append_decimal(&mut out, 42);
    append_decimal(&mut out, 7);
    assert_eq!(out, "id 427");
}
