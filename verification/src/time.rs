//! The time of a record: from an epoch number or a date string to a local
//! calendar time, and from there to the text that is shown.

use chrono::{Datelike, TimeZone, Timelike};
use vstd::prelude::*;

use crate::extract::{extracted_value, find, key_text, matched, FieldSpec};
use crate::json::{member_views, Json, JsonView, Member};
use crate::style::{piece, span, span_of, Piece, Role, Span};
use crate::text::decimal;

verus! {

/// A calendar time in the local time zone, field by field. A leap second is
/// held as second 59 with a nanosecond of 1_000_000_000 or more.
#[derive(Debug, Clone, Copy, PartialEq, Eq)]
pub struct LocalTime {
    pub year: i32,
    pub month: u32,
    pub day: u32,
    pub hour: u32,
    pub minute: u32,
    pub second: u32,
    pub nanosecond: u32,
}

/// What an epoch number counts.
#[derive(Debug, Clone, Copy, PartialEq, Eq)]
pub enum EpochUnit {
    Seconds,
    Milliseconds,
    /// The number is too large to be either.
    Neither,
}

/// The largest number that is read as seconds since the epoch.
pub const LAST_SECONDS: i64 = 100_000_000_000;

/// The first number that is too large for milliseconds since the epoch.
pub const MILLISECONDS_END: i64 = 100_000_000_000_000;

/// The first second, counted from the epoch, that the calendar holds: the
/// start of the year -262143.
pub const FIRST_CALENDAR_SECOND: i64 = -8_334_601_228_800;

/// The last second, counted from the epoch, that the calendar holds: the end
/// of the year 262142.
pub const LAST_CALENDAR_SECOND: i64 = 8_210_266_876_799;

/// Whether the calendar holds a second, counted from the epoch.
pub open spec fn is_calendar_second(second: int) -> bool {
    FIRST_CALENDAR_SECOND <= second <= LAST_CALENDAR_SECOND
}

/// What an epoch number counts, by its size: seconds up to `LAST_SECONDS`,
/// milliseconds from there to below `MILLISECONDS_END`.
pub open spec fn epoch_unit_spec(v: i64) -> EpochUnit {
    if v <= LAST_SECONDS {
        EpochUnit::Seconds
    } else if v < MILLISECONDS_END {
        EpochUnit::Milliseconds
    } else {
        EpochUnit::Neither
    }
}

/// The epoch number that a value holds: a number that is an integer in the
/// range of `i64`. A number that is no such integer, and a value of another
/// kind, holds none.
pub open spec fn epoch_number(v: JsonView) -> Option<i64> {
    match v {
        JsonView::Number(n) => n.as_i64(),
        _ => None,
    }
}

/// The pattern of the date of a time.
pub open spec fn date_pattern() -> Seq<char> {
    "%Y-%m-%d"@
}

/// The pattern of the time of day, to the millisecond.
pub open spec fn clock_pattern() -> Seq<char> {
    "%H:%M:%S.%3f"@
}

/// Whether a character is a decimal digit.
pub open spec fn is_digit(c: char) -> bool {
    '0' <= c <= '9'
}

/// Whether a character is a letter of the ASCII range.
pub open spec fn is_letter(c: char) -> bool {
    ('a' <= c <= 'z') || ('A' <= c <= 'Z')
}

/// Whether two digits make a number of hours of 24 or more.
pub open spec fn is_long_hours(tens: char, ones: char) -> bool {
    is_digit(tens) && is_digit(ones) && (tens >= '3' || (tens == '2' && ones >= '4'))
}

/// Whether two digits make a number of minutes below 60.
pub open spec fn is_minutes(tens: char, ones: char) -> bool {
    '0' <= tens <= '5' && is_digit(ones)
}

/// Whether the text from `at` to its end, five or six characters long, reads
/// as an offset from UTC of 24 hours or more: a sign that no letter stands
/// before, two digits of hours that make 24 or more, and two digits of
/// minutes, either at once, with at most one character behind them, or
/// after a colon.
pub open spec fn is_long_offset(s: Seq<char>, at: int) -> bool {
    &&& 0 <= at
    &&& (s.len() - at == 5 || s.len() - at == 6)
    &&& (s[at] == '+' || s[at] == '-')
    &&& is_long_hours(s[at + 1], s[at + 2])
    &&& (is_minutes(s[at + 3], s[at + 4]) || (s.len() - at == 6 && s[at + 3] == ':' && is_minutes(
        s[at + 4],
        s[at + 5],
    )))
    &&& (at == 0 || !is_letter(s[at - 1]))
}

/// Whether the text ends in what reads as an offset from UTC of 24 hours or
/// more. No date has such an offset, and the date parser must not be given
/// one.
pub open spec fn ends_in_long_offset(s: Seq<char>) -> bool {
    is_long_offset(s, s.len() - 5) || is_long_offset(s, s.len() - 6)
}

/// What is asked of the clock and the calendar for a time value.
#[derive(Debug, PartialEq, Eq)]
pub enum TimeQuery<'a> {
    /// The local time of a number of seconds since the epoch.
    Seconds(i64),
    /// The local time of a number of milliseconds since the epoch.
    Milliseconds(i64),
    /// The local time that a date string names.
    Date(&'a str),
    /// Nothing: the value is not read as a time.
    Nothing,
}

/// The model of a `TimeQuery`.
pub enum TimeQueryView {
    Seconds(i64),
    Milliseconds(i64),
    Date(Seq<char>),
    Nothing,
}

impl<'a> View for TimeQuery<'a> {
    type V = TimeQueryView;

    open spec fn view(&self) -> TimeQueryView {
        match *self {
            TimeQuery::Seconds(v) => TimeQueryView::Seconds(v),
            TimeQuery::Milliseconds(v) => TimeQueryView::Milliseconds(v),
            TimeQuery::Date(text) => TimeQueryView::Date(text@),
            TimeQuery::Nothing => TimeQueryView::Nothing,
        }
    }
}

/// What is asked for an epoch number: its local time as seconds or as
/// milliseconds, by its size, and nothing where it is too large for either.
pub open spec fn epoch_query_of(v: i64) -> TimeQueryView {
    match epoch_unit_spec(v) {
        EpochUnit::Seconds => TimeQueryView::Seconds(v),
        EpochUnit::Milliseconds => TimeQueryView::Milliseconds(v),
        EpochUnit::Neither => TimeQueryView::Nothing,
    }
}

/// What is asked for a time value: for a number that is an integer in the
/// range of `i64`, its local time as seconds or milliseconds, unless it is
/// too large for either, and nothing for any other number; for a string, the date it names, unless it ends in an offset
/// that the date parser must not be given; for any other value, nothing.
pub open spec fn time_query_of(v: JsonView) -> TimeQueryView {
    match v {
        JsonView::Number(n) => match n.as_i64() {
            Some(i) => epoch_query_of(i),
            None => TimeQueryView::Nothing,
        },
        JsonView::String(s) => if ends_in_long_offset(s) {
            TimeQueryView::Nothing
        } else {
            TimeQueryView::Date(s)
        },
        _ => TimeQueryView::Nothing,
    }
}

/// Whether the machine's clock and time zone have a say in how the value is
/// shown: where something is asked of them.
pub open spec fn may_be_a_time(v: JsonView) -> bool {
    !(time_query_of(v) is Nothing)
}

/// Whether a local time, or none, is an answer to what was asked.
///
/// A number of seconds has a local time exactly if the calendar holds that
/// second, and it has no fraction of a second. A number of milliseconds has
/// one exactly if the calendar holds the second it falls in, and its
/// fraction of a second is that of the number. Which day and time of day it
/// is, the machine's time zone decides. Whether a date string has a local
/// time, the date parser decides, but for a string that it must not be
/// given, which has none. Where nothing is asked there is no local time.
pub open spec fn is_time_answer(query: TimeQueryView, answer: Option<LocalTime>) -> bool {
    match query {
        TimeQueryView::Seconds(v) => {
            &&& answer is Some <==> is_calendar_second(v as int)
            &&& answer matches Some(time) ==> time.nanosecond == 0
        },
        TimeQueryView::Milliseconds(v) => {
            &&& answer is Some <==> is_calendar_second(v as int / 1000)
            &&& answer matches Some(time) ==> time.nanosecond == (v as int % 1000) * 1_000_000
        },
        TimeQueryView::Date(text) => ends_in_long_offset(text) ==> answer is None,
        TimeQueryView::Nothing => answer is None,
    }
}

/// The first year of the calendar.
pub const FIRST_YEAR: i32 = -262_143;

/// The last year of the calendar.
pub const LAST_YEAR: i32 = 262_142;

/// Whether a year has a 29th of February.
pub open spec fn is_leap_year(year: int) -> bool {
    year % 4 == 0 && (year % 100 != 0 || year % 400 == 0)
}

/// The number of days of a month.
pub open spec fn days_in_month(year: int, month: int) -> int {
    if month == 2 {
        if is_leap_year(year) {
            29
        } else {
            28
        }
    } else if month == 4 || month == 6 || month == 9 || month == 11 {
        30
    } else {
        31
    }
}

/// Whether the fields are a calendar time: a day that the calendar has, in
/// one of its years, and a time of that day. A nanosecond of 1_000_000_000
/// or more is a leap second, which only second 59 can have.
pub open spec fn is_calendar_time(time: LocalTime) -> bool {
    &&& FIRST_YEAR <= time.year <= LAST_YEAR
    &&& 1 <= time.month <= 12
    &&& 1 <= time.day <= days_in_month(time.year as int, time.month as int)
    &&& time.hour < 24
    &&& time.minute < 60
    &&& time.second < 60
    &&& (time.nanosecond < 1_000_000_000 || (time.second == 59 && time.nanosecond
        < 2_000_000_000))
}

/// A number in decimal with zeros before it up to a width.
pub open spec fn zero_padded(n: nat, width: nat) -> Seq<char> {
    if decimal(n).len() >= width {
        decimal(n)
    } else {
        Seq::new((width - decimal(n).len()) as nat, |i: int| '0') + decimal(n)
    }
}

/// A year as it is written: with four digits or more, and with its sign
/// where it lies before the year 0 or after the year 9999.
pub open spec fn year_text(year: int) -> Seq<char> {
    if year < 0 {
        "-"@ + zero_padded((-year) as nat, 4)
    } else if year > 9999 {
        "+"@ + zero_padded(year as nat, 4)
    } else {
        zero_padded(year as nat, 4)
    }
}

/// The date of a calendar time as it is written: year, month and day, each
/// of the last two with two digits, with hyphens between them.
pub open spec fn date_text(time: LocalTime) -> Seq<char> {
    year_text(time.year as int) + "-"@ + zero_padded(time.month as nat, 2) + "-"@ + zero_padded(
        time.day as nat,
        2,
    )
}

/// The time of day of a calendar time as it is written: hour, minute and
/// second with two digits each and colons between them, a point, and the
/// milliseconds with three digits, cut and not rounded. A leap second is
/// written as second 60.
pub open spec fn clock_text(time: LocalTime) -> Seq<char> {
    zero_padded(time.hour as nat, 2) + ":"@ + zero_padded(time.minute as nat, 2) + ":"@
        + zero_padded((time.second + time.nanosecond / 1_000_000_000) as nat, 2) + "."@
        + zero_padded((time.nanosecond / 1_000_000 % 1000) as nat, 3)
}

/// What is written for the fields of a time under the pattern of the time
/// of day and, under any other pattern, under the pattern of the date;
/// `None` where the fields are not a calendar time.
pub open spec fn time_text(time: LocalTime, pattern: Seq<char>) -> Option<Seq<char>> {
    if !is_calendar_time(time) {
        None
    } else if pattern == clock_pattern() {
        Some(clock_text(time))
    } else {
        Some(date_text(time))
    }
}

/// Whether two times fall on the same day.
pub open spec fn same_day(a: LocalTime, b: LocalTime) -> bool {
    a.day == b.day && a.month == b.month && a.year == b.year
}

/// The text of a local time: the time of day to the millisecond where the
/// time falls on today's date, and the date, a space and the time of day
/// where it does not; `None` where the fields are not a calendar time.
pub open spec fn shown_time(time: LocalTime, today: LocalTime) -> Option<Seq<char>> {
    if !is_calendar_time(time) {
        None
    } else if same_day(time, today) {
        Some(clock_text(time))
    } else {
        Some(date_text(time) + " "@ + clock_text(time))
    }
}

/// The text of a time value: the text of its local time where it was read
/// as a time, and the textual form of the value where it was not. A local
/// time that is no calendar time has no text, and the value is shown by its
/// textual form: so it is within a day of either end of the calendar, where
/// the time zone can move a second of the calendar to a day outside it.
pub open spec fn time_value_text(v: JsonView, read: Option<LocalTime>, today: LocalTime) -> Seq<
    char,
> {
    match read {
        Some(time) => match shown_time(time, today) {
            Some(text) => text,
            None => v.text(),
        },
        None => v.text(),
    }
}

/// A value that was read as a local time is shown by the time of day alone
/// where the time falls on today's date, and by the date, a space and the
/// same time of day where it falls on another day.
pub proof fn time_is_shown_by_its_day(v: JsonView, time: LocalTime, today: LocalTime)
    requires
        is_calendar_time(time),
    ensures
        same_day(time, today) ==> time_value_text(v, Some(time), today) == clock_text(time),
        !same_day(time, today) ==> time_value_text(v, Some(time), today) == date_text(time) + " "@
            + clock_text(time),
{
}

/// A value that was not read as a time is shown by its textual form.
pub proof fn unread_time_is_shown_as_it_is(v: JsonView, today: LocalTime)
    ensures
        time_value_text(v, None, today) == v.text(),
{
}

/// The time of a record without a time.
pub open spec fn no_time_piece() -> Piece {
    piece("EMPTY TIME"@, Role::Muted)
}

/// `Local.timestamp_opt(seconds, 0).single()` of `chrono`, the result taken
/// apart into its fields. A time comes back exactly for a second that the
/// calendar holds (`DateTime::from_timestamp` decides that, before the time
/// zone is looked at), and its nanosecond is the zero that is handed in: an
/// offset from UTC is a whole number of seconds. Which day and time of day
/// come back depends on the machine's time zone, so nothing is promised of
/// them.
#[verifier::external_body]
fn local_from_seconds(seconds: i64) -> (r: Option<LocalTime>)
    ensures
        r is Some <==> is_calendar_second(seconds as int),
        r matches Some(time) ==> time.nanosecond == 0,
{
    chrono::Local.timestamp_opt(seconds, 0).single().map(
        |t| LocalTime {
            year: t.year(),
            month: t.month(),
            day: t.day(),
            hour: t.hour(),
            minute: t.minute(),
            second: t.second(),
            nanosecond: t.nanosecond(),
        },
    )
}

/// `Local.timestamp_millis_opt(milliseconds).single()` of `chrono`, the
/// result taken apart into its fields. `DateTime::from_timestamp_millis`
/// divides by 1000, rounding down: a time comes back exactly where the
/// calendar holds the quotient as a second, and its nanosecond is the
/// remainder times 1_000_000. Which day and time of day come back depends
/// on the machine's time zone, so nothing is promised of them.
#[verifier::external_body]
fn local_from_milliseconds(milliseconds: i64) -> (r: Option<LocalTime>)
    ensures
        r is Some <==> is_calendar_second(milliseconds as int / 1000),
        r matches Some(time) ==> time.nanosecond == (milliseconds as int % 1000) * 1_000_000,
{
    chrono::Local.timestamp_millis_opt(milliseconds).single().map(
        |t| LocalTime {
            year: t.year(),
            month: t.month(),
            day: t.day(),
            hour: t.hour(),
            minute: t.minute(),
            second: t.second(),
            nanosecond: t.nanosecond(),
        },
    )
}

/// `dateparser::parse_with_timezone` with the local time zone, the result
/// moved to the local zone and taken apart into its fields. The outcome
/// depends on the machine's time zone and clock, so nothing is promised of
/// it. The parser stops the program where it reads an offset from UTC of 24
/// hours or more at the end of the text (it hands the offset unchecked to
/// `FixedOffset::east`): such a text is left out.
#[verifier::external_body]
fn parse_local(text: &str) -> Option<LocalTime>
    requires
        !ends_in_long_offset(text@),
{
    dateparser::parse_with_timezone(text, &chrono::Local).ok().map(
        |t| t.with_timezone(&chrono::Local),
    ).map(
        |t| LocalTime {
            year: t.year(),
            month: t.month(),
            day: t.day(),
            hour: t.hour(),
            minute: t.minute(),
            second: t.second(),
            nanosecond: t.nanosecond(),
        },
    )
}

/// `Local::now()` of `chrono`, taken apart into its fields. It reads the
/// clock, so nothing is promised of it.
#[verifier::external_body]
fn now_local() -> LocalTime {
    let t = chrono::Local::now();
    LocalTime {
        year: t.year(),
        month: t.month(),
        day: t.day(),
        hour: t.hour(),
        minute: t.minute(),
        second: t.second(),
        nanosecond: t.nanosecond(),
    }
}

/// `format` of `chrono`, on the calendar time that `NaiveDate::from_ymd_opt`
/// and `and_hms_nano_opt` make of the fields; `None` where they make none,
/// which is where the day is not in the calendar or the time of day is none.
/// The two patterns that are let in hold no item that `chrono` cannot write,
/// and none that reads a time zone. The contract states what `chrono`
/// writes for their items: `%Y` is the year with four digits or more, with
/// its sign outside 0 to 9999; `%m`, `%d`, `%H`, `%M` and `%S` have two
/// digits, `%S` counting a leap second as 60; `%3f` is the milliseconds
/// with three digits; every other character stands for itself.
#[verifier::external_body]
fn format_local(time: &LocalTime, pattern: &str) -> (r: Option<String>)
    requires
        pattern@ == date_pattern() || pattern@ == clock_pattern(),
    ensures
        match r {
            Some(text) => time_text(*time, pattern@) == Some(text@),
            None => time_text(*time, pattern@) is None,
        },
{
    chrono::NaiveDate::from_ymd_opt(time.year, time.month, time.day).and_then(
        |d| d.and_hms_nano_opt(time.hour, time.minute, time.second, time.nanosecond),
    ).map(|t| t.format(pattern).to_string())
}

/// What an epoch number counts, by its size.
pub fn epoch_unit(v: i64) -> (r: EpochUnit)
    ensures
        r == epoch_unit_spec(v),
{
    if v <= LAST_SECONDS {
        EpochUnit::Seconds
    } else if v < MILLISECONDS_END {
        EpochUnit::Milliseconds
    } else {
        EpochUnit::Neither
    }
}

fn long_hours(tens: char, ones: char) -> (r: bool)
    ensures
        r == is_long_hours(tens, ones),
{
    '0' <= tens && tens <= '9' && '0' <= ones && ones <= '9' && (tens >= '3' || (tens == '2'
        && ones >= '4'))
}

fn minutes(tens: char, ones: char) -> (r: bool)
    ensures
        r == is_minutes(tens, ones),
{
    '0' <= tens && tens <= '5' && '0' <= ones && ones <= '9'
}

fn letter(c: char) -> (r: bool)
    ensures
        r == is_letter(c),
{
    ('a' <= c && c <= 'z') || ('A' <= c && c <= 'Z')
}

fn long_offset_at(text: &str, len: usize, back: usize) -> (r: bool)
    requires
        len == text@.len(),
        back == 5 || back == 6,
    ensures
        r == is_long_offset(text@, len - back),
{
    if len < back {
        return false;
    }
    let at: usize = len - back;
    let sign = text.get_char(at);
    if !(sign == '+' || sign == '-') {
        return false;
    }
    if !long_hours(text.get_char(at + 1), text.get_char(at + 2)) {
        return false;
    }
    if at > 0 && letter(text.get_char(at - 1)) {
        return false;
    }
    let third = text.get_char(at + 3);
    let fourth = text.get_char(at + 4);
    if minutes(third, fourth) {
        return true;
    }
    back == 6 && third == ':' && minutes(fourth, text.get_char(at + 5))
}

/// Whether a text ends in what reads as an offset from UTC of 24 hours or
/// more.
pub fn has_long_offset(text: &str) -> (r: bool)
    ensures
        r == ends_in_long_offset(text@),
{
    let len: usize = text.unicode_len();
    long_offset_at(text, len, 5) || long_offset_at(text, len, 6)
}

/// Reads a date string as a local time. No time comes back for a text that
/// ends in an offset from UTC of 24 hours or more.
pub fn human_readable_date_from_string(text: &str) -> (r: Option<LocalTime>)
    ensures
        ends_in_long_offset(text@) ==> r is None,
{
    if has_long_offset(text) {
        None
    } else {
        parse_local(text)
    }
}

/// Whether two times fall on the same day.
pub fn is_same_day(a: &LocalTime, b: &LocalTime) -> (r: bool)
    ensures
        r == same_day(*a, *b),
{
    a.day == b.day && a.month == b.month && a.year == b.year
}

/// Writes a local time as it is shown on a given day.
pub fn show_time(time: &LocalTime, today: &LocalTime) -> (r: Option<String>)
    ensures
        match r {
            Some(text) => shown_time(*time, *today) == Some(text@),
            None => shown_time(*time, *today) is None,
        },
{
    proof {
        reveal_strlit("%H:%M:%S.%3f");
        reveal_strlit("%Y-%m-%d");
        assert(date_pattern().len() != clock_pattern().len());
    }
    match format_local(time, "%H:%M:%S.%3f") {
        Some(clock) => {
            if is_same_day(time, today) {
                Some(clock)
            } else {
                match format_local(time, "%Y-%m-%d") {
                    Some(date) => {
                        let mut text = date;
                        text.append(" ");
                        text.append(clock.as_str());
                        Some(text)
                    },
                    None => None,
                }
            }
        },
        None => None,
    }
}

/// The time of a record as it is shown, from the time value, the local time
/// that was read from it, if any, and today's date.
pub fn time_span(v: &Json, read: Option<LocalTime>, today: &LocalTime) -> (r: Span)
    ensures
        r@ == piece(time_value_text(v@, read, *today), Role::Muted),
{
    let shown = match read {
        Some(time) => show_time(&time, today),
        None => None,
    };
    match shown {
        Some(text) => span(text, Role::Muted),
        None => span(v.to_text(), Role::Muted),
    }
}

/// Decides what is asked for an epoch number.
pub fn epoch_query(v: i64) -> (r: TimeQuery<'static>)
    ensures
        r@ == epoch_query_of(v),
{
    match epoch_unit(v) {
        EpochUnit::Seconds => TimeQuery::Seconds(v),
        EpochUnit::Milliseconds => TimeQuery::Milliseconds(v),
        EpochUnit::Neither => TimeQuery::Nothing,
    }
}

/// Decides what is asked of the clock and the calendar for a time value.
pub fn time_query<'a>(v: &'a Json) -> (r: TimeQuery<'a>)
    ensures
        r@ == time_query_of(v@),
{
    match v {
        Json::Number(n) => match n.as_i64() {
            Some(number) => epoch_query(number),
            None => TimeQuery::Nothing,
        },
        Json::String(s) => {
            if has_long_offset(s.as_str()) {
                TimeQuery::Nothing
            } else {
                TimeQuery::Date(s.as_str())
            }
        },
        _ => TimeQuery::Nothing,
    }
}

/// Asks the clock and the calendar. An epoch number has a local time
/// exactly if the calendar holds its second; a date string has one if the
/// date parser finds one, and none if it ends in an offset from UTC of 24
/// hours or more; nothing comes back where nothing is asked. Which day and
/// time of day come back is up to the machine's time zone, and for a date
/// without a time of day to its clock.
pub fn ask_time(query: &TimeQuery) -> (r: Option<LocalTime>)
    ensures
        is_time_answer(query@, r),
{
    match query {
        TimeQuery::Seconds(v) => local_from_seconds(*v),
        TimeQuery::Milliseconds(v) => local_from_milliseconds(*v),
        TimeQuery::Date(text) => human_readable_date_from_string(text),
        TimeQuery::Nothing => None,
    }
}

/// Reads an epoch number as a local time: as seconds or as milliseconds, by
/// its size. A time comes back exactly for the numbers from the first
/// second of the calendar to below `MILLISECONDS_END`: a number before that
/// second is a second that the calendar does not hold, and a number from
/// `MILLISECONDS_END` on is too large to be read.
pub fn human_readable_date_from_int(v: i64) -> (r: Option<LocalTime>)
    ensures
        r is Some <==> FIRST_CALENDAR_SECOND <= v < MILLISECONDS_END,
        is_time_answer(epoch_query_of(v), r),
{
    let query = epoch_query(v);
    ask_time(&query)
}

/// Reads a time value as a local time: a number as an epoch number, a
/// string as a date. A number is read exactly if it holds an epoch number
/// that lies between the first second of the calendar and
/// `MILLISECONDS_END`. A value of another kind and a string that the date
/// parser must not be given are not read as a time.
pub fn read_time(v: &Json) -> (r: Option<LocalTime>)
    ensures
        is_time_answer(time_query_of(v@), r),
        v@ is Number ==> (r is Some <==> epoch_number(v@) is Some && FIRST_CALENDAR_SECOND
            <= epoch_number(v@)->0 < MILLISECONDS_END),
        !may_be_a_time(v@) ==> r is None,
{
    let query = time_query(v);
    ask_time(&query)
}

/// Whether a piece is a way to show a time value: as `time_value_text`
/// says, for a local time, or none, that is an answer to what is asked for
/// the value, and for today's date. A value for which nothing is asked is
/// therefore shown by its textual form, and a number whose second the
/// calendar holds by the local time of that second.
pub open spec fn shows_time_value(v: JsonView, shown: Piece) -> bool {
    exists|read: Option<LocalTime>, today: LocalTime|
        is_time_answer(time_query_of(v), read) && shown == piece(
            #[trigger] time_value_text(v, read, today),
            Role::Muted,
        )
}

/// The time of a record: that of the first candidate key that the record
/// has, with that key; the `EMPTY TIME` placeholder and no key where it has
/// none. How a value that is read as a time comes out depends on the
/// machine's clock and time zone.
pub fn get_time(record: &Vec<Member>, spec: &FieldSpec) -> (r: (Span, Option<String>))
    ensures
        key_text(r.1) == matched(member_views(record@), spec@),
        match extracted_value(member_views(record@), spec@) {
            Some(v) => shows_time_value(v, r.0@),
            None => r.0@ == no_time_piece(),
        },
{
    match find(record, spec) {
        Some((c, i)) => {
            let v = &record[i].value;
            let read = read_time(v);
            let today = now_local();
            let shown = time_span(v, read, &today);
            proof {
                assert(shown@ == piece(time_value_text(v@, read, today), Role::Muted));
            }
            (shown, Some(spec.keys[c].clone()))
        },
        None => (span_of("EMPTY TIME", Role::Muted), None),
    }
}

} // verus!
