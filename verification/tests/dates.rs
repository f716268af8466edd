use chrono::{DateTime, Local};
use long_listing::date::{DAY_MONTH_TIME, EARLIEST_SECOND, LATEST_SECOND};
use long_listing::{day_month_time_at, render_modified, ListError};

const MONTHS: [&str; 12] =
    ["Jan", "Feb", "Mar", "Apr", "May", "Jun", "Jul", "Aug", "Sep", "Oct", "Nov", "Dec"];

fn two_digits(text: &str) -> u32 {
    assert_eq!(text.len(), 2);
    assert!(text.chars().all(|c| c.is_ascii_digit()));
    text.parse().unwrap()
}

fn assert_day_month_time(text: &str) {
    assert_eq!(text.len(), 12);
    assert!(text.is_ascii());
    let day = two_digits(&text[0..2]);
    assert!(1 <= day && day <= 31);
    assert_eq!(&text[2..3], " ");
    assert!(MONTHS.contains(&&text[3..6]));
    assert_eq!(&text[6..7], " ");
    assert!(two_digits(&text[7..9]) <= 23);
    assert_eq!(&text[9..10], ":");
    assert!(two_digits(&text[10..12]) <= 59);
}

/// The same moment, formatted here directly.
fn local(seconds: i64) -> String {
    DateTime::from_timestamp(seconds, 0)
        .unwrap()
        .with_timezone(&Local)
        .format("%d %b %H:%M")
        .to_string()
}

const MOMENTS: [i64; 12] = [
    0,
    1,
    -1,
    59,
    86_399,
    86_400,
    951_782_400,
    1_431_648_000,
    1_709_649_120,
    1_735_689_599,
    -2_208_988_800,
    253_402_300_800,
];

#[test]
fn the_pattern_asks_for_day_month_hour_and_minute() {
    assert_eq!(DAY_MONTH_TIME, "%d %b %H:%M");
}

/// How far the host's local time is ahead of UTC at a moment.
fn local_offset(seconds: i64) -> i32 {
    DateTime::from_timestamp(seconds, 0).unwrap().with_timezone(&Local).offset().local_minus_utc()
}

#[test]
fn a_modification_time_is_shown_as_day_month_and_time() {
    for seconds in MOMENTS {
        for east in [0, 3600, -34_200, 86_399, -86_399] {
            assert_day_month_time(&render_modified(seconds, east).unwrap());
        }
    }
}

#[test]
fn at_the_hosts_offset_the_time_is_the_hosts_local_time() {
    for seconds in MOMENTS {
        assert_eq!(render_modified(seconds, local_offset(seconds)), Ok(local(seconds)));
    }
    for seconds in [EARLIEST_SECOND, LATEST_SECOND] {
        assert_eq!(render_modified(seconds, local_offset(seconds)), Ok(local(seconds)));
    }
}

#[test]
fn a_modification_time_at_given_offsets() {
    assert_eq!(render_modified(1_709_649_179, 0), Ok(String::from("05 Mar 14:32")));
    assert_eq!(render_modified(1_709_649_179, 3600), Ok(String::from("05 Mar 15:32")));
    assert_eq!(render_modified(1_709_649_179, -8 * 3600), Ok(String::from("05 Mar 06:32")));
    assert_eq!(render_modified(1_709_649_179, 12 * 3600), Ok(String::from("06 Mar 02:32")));
    assert_eq!(render_modified(0, 0), Ok(String::from("01 Jan 00:00")));
    assert_eq!(render_modified(-1, 0), Ok(String::from("31 Dec 23:59")));
}

#[test]
fn a_modification_time_is_what_the_calendar_shows_at_the_offset() {
    for seconds in MOMENTS {
        for east in [0, 1, -1, 3600, 19_800, -86_399, 86_399] {
            assert_eq!(render_modified(seconds, east).ok(), day_month_time_at(seconds, east));
        }
    }
}

#[test]
fn seconds_within_a_minute_are_not_shown() {
    let start_of_minute = 1_709_649_120;
    assert_eq!(render_modified(start_of_minute, 0), render_modified(start_of_minute + 59, 0));
    assert_ne!(render_modified(start_of_minute, 0), render_modified(start_of_minute + 60, 0));
}

#[test]
fn the_calendar_reaches_from_its_first_second_to_its_last() {
    for east in [0, 86_399, -86_399] {
        assert_day_month_time(&render_modified(EARLIEST_SECOND, east).unwrap());
        assert_day_month_time(&render_modified(LATEST_SECOND, east).unwrap());
    }
    assert_eq!(render_modified(EARLIEST_SECOND, 0), Ok(String::from("01 Jan 00:00")));
    assert_eq!(render_modified(LATEST_SECOND, 0), Ok(String::from("31 Dec 23:59")));
}

#[test]
fn the_calendar_bounds_are_those_of_the_time_library() {
    assert_eq!(EARLIEST_SECOND, DateTime::<chrono::Utc>::MIN_UTC.timestamp());
    assert_eq!(LATEST_SECOND, DateTime::<chrono::Utc>::MAX_UTC.timestamp());
    assert!(DateTime::from_timestamp(EARLIEST_SECOND, 0).is_some());
    assert!(DateTime::from_timestamp(EARLIEST_SECOND - 1, 0).is_none());
    assert!(DateTime::from_timestamp(LATEST_SECOND, 0).is_some());
    assert!(DateTime::from_timestamp(LATEST_SECOND + 1, 0).is_none());
}

#[test]
fn a_time_outside_the_calendar_is_an_error() {
    for seconds in [EARLIEST_SECOND - 1, LATEST_SECOND + 1, i64::MIN, i64::MAX] {
        for east in [0, 3600, 86_400, i32::MIN] {
            assert_eq!(render_modified(seconds, east), Err(ListError::TimestampOutOfRange { seconds }));
        }
    }
}

#[test]
fn an_offset_of_a_day_or_more_is_an_error() {
    for offset in [86_400, -86_400, 90_000, i32::MAX, i32::MIN] {
        for seconds in [0, 1_709_649_179, EARLIEST_SECOND, LATEST_SECOND] {
            assert_eq!(render_modified(seconds, offset), Err(ListError::OffsetOutOfRange { offset }));
        }
    }
}

fn at(seconds: i64, offset: i32) -> Option<String> {
    day_month_time_at(seconds, offset)
}

fn shown(text: &str) -> Option<String> {
    Some(String::from(text))
}

#[test]
fn a_moment_seen_from_utc() {
    assert_eq!(at(0, 0), shown("01 Jan 00:00"));
    assert_eq!(at(1_709_649_120, 0), shown("05 Mar 14:32"));
    assert_eq!(at(1_431_648_000, 0), shown("15 May 00:00"));
    assert_eq!(at(951_782_400, 0), shown("29 Feb 00:00"));
    assert_eq!(at(1_735_689_599, 0), shown("31 Dec 23:59"));
    assert_eq!(at(-1, 0), shown("31 Dec 23:59"));
}

#[test]
fn seconds_are_dropped_not_rounded() {
    assert_eq!(at(1_709_649_179, 0), shown("05 Mar 14:32"));
    assert_eq!(at(1_709_649_180, 0), shown("05 Mar 14:33"));
    assert_eq!(at(59, 0), shown("01 Jan 00:00"));
}

#[test]
fn the_same_moment_seen_from_other_offsets() {
    assert_eq!(at(1_709_649_179, 3600), shown("05 Mar 15:32"));
    assert_eq!(at(1_709_649_179, -5 * 3600), shown("05 Mar 09:32"));
    assert_eq!(at(1_709_649_179, 5 * 3600 + 1800), shown("05 Mar 20:02"));
    assert_eq!(at(1_709_649_179, 10 * 3600), shown("06 Mar 00:32"));
    assert_eq!(at(1_709_649_179, -15 * 3600), shown("04 Mar 23:32"));
    assert_eq!(at(0, -1), shown("31 Dec 23:59"));
    assert_eq!(at(0, 86_399), shown("01 Jan 23:59"));
    assert_eq!(at(0, -86_399), shown("31 Dec 00:00"));
}

#[test]
fn every_month_has_its_three_letters() {
    let start_of_2023 = 1_672_531_200;
    let day = 86_400;
    let firsts = [0, 31, 59, 90, 120, 151, 181, 212, 243, 273, 304, 334];
    for (month, first) in firsts.iter().enumerate() {
        assert_eq!(at(start_of_2023 + first * day, 0), Some(format!("01 {} 00:00", MONTHS[month])));
    }
}

#[test]
fn an_offset_of_a_day_or_more_shows_nothing() {
    for offset in [86_400, -86_400, 86_401, i32::MAX, i32::MIN] {
        assert_eq!(at(0, offset), None);
    }
}

#[test]
fn a_moment_outside_the_calendar_shows_nothing_at_any_offset() {
    for offset in [0, 3600, -3600, 86_399, -86_399] {
        assert_eq!(at(EARLIEST_SECOND - 1, offset), None);
        assert_eq!(at(LATEST_SECOND + 1, offset), None);
        assert_day_month_time(&at(EARLIEST_SECOND, offset).unwrap());
        assert_day_month_time(&at(LATEST_SECOND, offset).unwrap());
    }
}
