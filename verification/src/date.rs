//! The modification time as day, month and time of day in the local time zone.
//!
//! The zone itself is not looked up here: the caller says how far local time
//! is ahead of UTC at the moment in question.

use vstd::prelude::*;
use chrono::{DateTime, FixedOffset};
use crate::error::ListError;
use crate::text::{digit_char, is_digit};

verus! {

/// The first second that the calendar covers: the start of the year -262143.
pub const EARLIEST_SECOND: i64 = -8_334_601_228_800;

/// The last second that the calendar covers: the end of the year 262142.
pub const LATEST_SECOND: i64 = 8_210_266_876_799;

/// Whether a time, in seconds since the start of 1970, falls into the years
/// that the calendar covers.
pub open spec fn in_calendar_range(seconds: i64) -> bool {
    EARLIEST_SECOND <= seconds <= LATEST_SECOND
}

/// A number below one hundred in two digits, with a leading zero where needed.
pub open spec fn two_digit_text(value: nat) -> Seq<char>
    recommends
        value <= 99,
{
    seq![digit_char(value / 10), digit_char(value % 10)]
}

/// The three-letter English name of a month, counted from 1.
pub open spec fn month_text(month: nat) -> Seq<char>
    recommends
        1 <= month <= 12,
{
    if month == 1 {
        seq!['J', 'a', 'n']
    } else if month == 2 {
        seq!['F', 'e', 'b']
    } else if month == 3 {
        seq!['M', 'a', 'r']
    } else if month == 4 {
        seq!['A', 'p', 'r']
    } else if month == 5 {
        seq!['M', 'a', 'y']
    } else if month == 6 {
        seq!['J', 'u', 'n']
    } else if month == 7 {
        seq!['J', 'u', 'l']
    } else if month == 8 {
        seq!['A', 'u', 'g']
    } else if month == 9 {
        seq!['S', 'e', 'p']
    } else if month == 10 {
        seq!['O', 'c', 't']
    } else if month == 11 {
        seq!['N', 'o', 'v']
    } else {
        seq!['D', 'e', 'c']
    }
}

/// Day, month and time of day as the listing shows them, such as `05 Mar 14:32`.
pub open spec fn day_month_time_text(day: nat, month: nat, hour: nat, minute: nat) -> Seq<char> {
    two_digit_text(day) + seq![' '] + month_text(month) + seq![' '] + two_digit_text(hour) + seq![':']
        + two_digit_text(minute)
}

/// Whether a text is the day, month and time of day of some moment.
pub open spec fn is_day_month_time(text: Seq<char>) -> bool {
    exists|day: nat, month: nat, hour: nat, minute: nat|
        1 <= day <= 31 && 1 <= month <= 12 && hour <= 23 && minute <= 59
            && text == #[trigger] day_month_time_text(day, month, hour, minute)
}

/// A text of this form has twelve characters: digits for the day, the hour
/// and the minute, a space on either side of the month, and a colon between
/// hour and minute.
pub proof fn day_month_time_layout(text: Seq<char>)
    requires
        is_day_month_time(text),
    ensures
        text.len() == 12,
        is_digit(text[0]) && is_digit(text[1]),
        text[2] == ' ',
        text[6] == ' ',
        is_digit(text[7]) && is_digit(text[8]),
        text[9] == ':',
        is_digit(text[10]) && is_digit(text[11]),
{
}

/// The pattern that asks the calendar for a two-digit day, the abbreviated
/// name of the month, and hours and minutes on the 24-hour clock.
pub const DAY_MONTH_TIME: &'static str = "%d %b %H:%M";

/// What the calendar writes for a moment, seen from a zone that lies `offset`
/// seconds east of UTC, when asked with `pattern`. The calendar's rules for
/// days, months and leap years are its own; they are not restated here.
pub uninterp spec fn offset_time_text(seconds: i64, offset: i32, pattern: Seq<char>) -> Seq<char>;

/// Whether the calendar can show a moment at an offset: the moment lies in
/// the years it covers and the offset is less than a day.
pub open spec fn shown_from(seconds: i64, offset: i32) -> bool {
    in_calendar_range(seconds) && -86_400 < offset < 86_400
}

/// Formats a moment as seen from a zone at a fixed offset from UTC.
///
/// Trusted: the moment is made by chrono's `DateTime::from_timestamp` and the
/// zone by `FixedOffset::east_opt`, which admits exactly the offsets under a
/// day; `DateTime::with_timezone` moves the moment there and
/// `DateTime::format` writes it. What is written depends on the three
/// arguments alone. With the pattern above it is the day of the month in two
/// digits, a space, the English three-letter name of the month, a space, the
/// hour in two digits, a colon and the minute in two digits.
#[verifier::external_body]
fn time_text_at_offset(seconds: i64, offset: i32, pattern: &str) -> (text: Option<String>)
    requires
        pattern@ == DAY_MONTH_TIME@,
    ensures
        text is Some <==> shown_from(seconds, offset),
        text matches Some(shown) ==> shown@ == offset_time_text(seconds, offset, pattern@),
        text matches Some(shown) ==> is_day_month_time(shown@),
{
    DateTime::from_timestamp(seconds, 0)
        .zip(FixedOffset::east_opt(offset))
        .map(|(moment, zone)| moment.with_timezone(&zone).format(pattern).to_string())
}

/// A moment as day, month and time of day, seen from a zone that lies
/// `offset` seconds east of UTC.
///
/// There is a text exactly where the moment lies in the years that the
/// calendar covers and the offset is less than a day.
pub fn day_month_time_at(seconds: i64, offset: i32) -> (text: Option<String>)
    ensures
        text is Some <==> shown_from(seconds, offset),
        text matches Some(shown) ==> shown@ == offset_time_text(seconds, offset, DAY_MONTH_TIME@),
        text matches Some(shown) ==> is_day_month_time(shown@),
{
    time_text_at_offset(seconds, offset, DAY_MONTH_TIME)
}

/// Why a moment cannot be shown at an offset: the moment lies outside the
/// calendar, or else the offset is a day or more.
pub open spec fn date_failure(seconds: i64, offset: i32) -> ListError {
    if !in_calendar_range(seconds) {
        ListError::TimestampOutOfRange { seconds }
    } else {
        ListError::OffsetOutOfRange { offset }
    }
}

/// The time of the last modification as the listing shows it: as day, month
/// and time of day in the local time zone, which is `east` seconds ahead of
/// UTC at that time.
///
/// Fails exactly where the time lies outside the years that the calendar
/// covers or the offset is a day or more; a time outside the calendar is
/// reported first.
pub fn render_modified(seconds: i64, east: i32) -> (shown: Result<String, ListError>)
    ensures
        shown is Ok <==> shown_from(seconds, east),
        shown matches Ok(text) ==> text@ == offset_time_text(seconds, east, DAY_MONTH_TIME@),
        shown matches Ok(text) ==> is_day_month_time(text@),
        shown matches Err(failure) ==> failure == date_failure(seconds, east),
{
    match day_month_time_at(seconds, east) {
        Some(text) => Ok(text),
        None => {
            if seconds < EARLIEST_SECOND || seconds > LATEST_SECOND {
                Err(ListError::TimestampOutOfRange { seconds })
            } else {
                Err(ListError::OffsetOutOfRange { offset: east })
            }
        },
    }
}

} // verus!
