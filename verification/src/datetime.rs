//! Dates and times, as the `time` crate reads them.
//!
//! The crate holds a moment as seconds since the Unix epoch and a day as its
//! Julian day number. Reading a written date and counting days in the
//! calendar is left to `time`; its results are named here, not restated.

use vstd::prelude::*;
use vstd::string::{StrSliceExecFns, StringExecFns};

verus! {

/// The exchange reports Moscow time, three hours ahead of UTC.
pub const MOSCOW_OFFSET_SECONDS: i64 = 10800;

/// A day of the proleptic Gregorian calendar.
#[derive(Debug, Clone, Copy, PartialEq, Eq, Structural)]
pub struct CalendarDate {
    pub year: i32,
    pub month: u8,
    pub day: u8,
}

/// A date and time written in ISO 8601, as seconds since the Unix epoch
/// where the text is read as UTC; `None` where it is not such a text.
pub uninterp spec fn iso8601_seconds(text: Seq<char>) -> Option<i64>;

/// The Julian day number of a calendar date; `None` where there is no such
/// day.
pub uninterp spec fn julian_day_of(year: i32, month: u8, day: u8) -> Option<i32>;

/// The calendar date, as year, month and day, of a Julian day number; `None`
/// where the number lies outside the calendar's range.
pub uninterp spec fn calendar_of(day_number: i32) -> Option<(i32, u8, u8)>;

/// `time::PlainDateTime::parse` with the format `Iso8601::DEFAULT`; the date
/// and time that it reads is handed on as the Unix timestamp it has in UTC.
#[verifier::external_body]
pub(crate) fn parse_iso8601(text: &str) -> (seconds: Option<i64>)
    ensures
        seconds == iso8601_seconds(text@),
{
    let format = time::format_description::well_known::Iso8601::DEFAULT;
    match time::PlainDateTime::parse(text, &format) {
        Ok(moment) => Some(moment.assume_utc().unix_timestamp()),
        Err(_) => None,
    }
}

/// `time::Date::from_calendar_date`; the date is handed on as its Julian day
/// number. A month outside 1 to 12 gives `None`, as a day that the month
/// does not have.
#[verifier::external_body]
pub(crate) fn to_julian_day(year: i32, month: u8, day: u8) -> (day_number: Option<i32>)
    ensures
        day_number == julian_day_of(year, month, day),
{
    match time::Month::try_from(month) {
        Ok(named) => match time::Date::from_calendar_date(year, named, day) {
            Ok(date) => Some(date.to_julian_day()),
            Err(_) => None,
        },
        Err(_) => None,
    }
}

/// `time::Date::from_julian_day`; the date is handed on as year, month and
/// day.
#[verifier::external_body]
pub(crate) fn from_julian_day(day_number: i32) -> (date: Option<(i32, u8, u8)>)
    ensures
        date == calendar_of(day_number),
{
    match time::Date::from_julian_day(day_number) {
        Ok(date) => Some((date.year(), u8::from(date.month()), date.day())),
        Err(_) => None,
    }
}

impl CalendarDate {
    /// The date of a day number, where the calendar has it.
    pub open spec fn of_day_number(day_number: i32) -> Option<CalendarDate> {
        match calendar_of(day_number) {
            Some((year, month, day)) => Some(CalendarDate { year, month, day }),
            None => None,
        }
    }

    /// The Julian day number of the date; `None` where the calendar has no
    /// such day.
    pub fn day_number(&self) -> (day_number: Option<i32>)
        ensures
            day_number == julian_day_of(self.year, self.month, self.day),
    {
        to_julian_day(self.year, self.month, self.day)
    }

    /// The date of a Julian day number; `None` outside the calendar's range.
    pub fn from_day_number(day_number: i32) -> (date: Option<CalendarDate>)
        ensures
            date == CalendarDate::of_day_number(day_number),
    {
        match from_julian_day(day_number) {
            Some((year, month, day)) => Some(CalendarDate { year, month, day }),
            None => None,
        }
    }
}

/// A timestamp of the exchange, `date time` with a space between, in the
/// ISO 8601 form, with a `T` in place of each space.
pub open spec fn iso_form(text: Seq<char>) -> Seq<char> {
    text.map_values(
        |c: char|
            if c == ' ' {
                'T'
            } else {
                c
            },
    )
}

/// Moscow wall-clock seconds as seconds since the Unix epoch; `None` where
/// the result would not fit.
pub open spec fn utc_of_moscow(local_seconds: i64) -> Option<i64> {
    if local_seconds - MOSCOW_OFFSET_SECONDS >= i64::MIN {
        Some((local_seconds - MOSCOW_OFFSET_SECONDS) as i64)
    } else {
        None
    }
}

/// The moment that a timestamp of the exchange names, in seconds since the
/// Unix epoch.
pub open spec fn moscow_timestamp_of(text: Seq<char>) -> Option<i64> {
    match iso8601_seconds(iso_form(text)) {
        Some(local_seconds) => utc_of_moscow(local_seconds),
        None => None,
    }
}

/// Rewrites a timestamp of the exchange in the ISO 8601 form.
pub fn to_iso_form(text: &str) -> (iso: String)
    ensures
        iso@ == iso_form(text@),
{
    let count: usize = text.unicode_len();
    let mut iso: String = String::new();
    let mut at: usize = 0;
    while at < count
        invariant
            count == text@.len(),
            at <= count,
            iso@ == iso_form(text@.take(at as int)),
        decreases count - at,
    {
        let c: char = text.get_char(at);
        proof {
            reveal_strlit("T");
            assert(text@.take(at + 1) =~= text@.take(at as int).push(text@[at as int]));
            assert(text@.subrange(at as int, at + 1) =~= seq![text@[at as int]]);
            assert("T"@ =~= seq!['T']);
        }
        if c == ' ' {
            iso.append("T");
        } else {
            iso.append(text.substring_char(at, at + 1));
        }
        assert(iso@ =~= iso_form(text@.take(at + 1)));
        at = at + 1;
    }
    assert(text@.take(count as int) =~= text@);
    iso
}

/// Shifts Moscow wall-clock seconds to seconds since the Unix epoch.
pub fn moscow_to_utc(local_seconds: i64) -> (seconds: Option<i64>)
    ensures
        seconds == utc_of_moscow(local_seconds),
{
    local_seconds.checked_sub(MOSCOW_OFFSET_SECONDS)
}

/// Reads a timestamp of the exchange, such as `2024-03-07 10:00:00`, as
/// seconds since the Unix epoch.
///
/// Returns `None` where the text, with `T` for its spaces, is no ISO 8601
/// date and time.
pub fn moscow_timestamp(text: &str) -> (seconds: Option<i64>)
    ensures
        seconds == moscow_timestamp_of(text@),
{
    let iso = to_iso_form(text);
    match parse_iso8601(iso.as_str()) {
        Some(local_seconds) => moscow_to_utc(local_seconds),
        None => None,
    }
}

} // verus!
