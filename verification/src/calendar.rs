//! Calendar dates, times of day and UTC date-times as plain values, with the
//! calls into `chrono` and `time` that parse, combine, shift and format them.

use chrono::Datelike;
use chrono::TimeZone;
use chrono::Timelike;
use vstd::prelude::*;

use crate::text::zero_padded;

verus! {

/// `chrono`'s parse error, carried through unchanged.
#[verifier::external_type_specification]
#[verifier::external_body]
pub struct ExChronoParseError(chrono::format::ParseError);

/// Earliest year that a `chrono::NaiveDate` represents.
pub const DATE_MIN_YEAR: i32 = -262143;

/// Latest year that a `chrono::NaiveDate` represents.
pub const DATE_MAX_YEAR: i32 = 262142;

/// Nanoseconds in one day.
pub const NANOS_PER_DAY: u64 = 86_400_000_000_000;

/// A date of the proleptic Gregorian calendar.
#[derive(Clone, Copy, Debug, PartialEq, Eq, Structural)]
pub struct CalendarDate {
    pub year: i32,
    pub month: u32,
    pub day: u32,
}

/// A time of day, to the nanosecond.
#[derive(Clone, Copy, Debug, PartialEq, Eq, Structural)]
pub struct ClockTime {
    pub hour: u32,
    pub minute: u32,
    pub second: u32,
    pub nanosecond: u32,
}

/// A date and a time of day in UTC.
#[derive(Clone, Copy, Debug, PartialEq, Eq, Structural)]
pub struct UtcDateTime {
    pub date: CalendarDate,
    pub time: ClockTime,
}

/// Gregorian leap-year rule.
pub open spec fn is_leap_year(y: int) -> bool {
    (y % 4 == 0 && y % 100 != 0) || y % 400 == 0
}

/// Number of days in month `m` (1..=12) of year `y`.
pub open spec fn days_in_month(y: int, m: int) -> int {
    if m == 2 {
        if is_leap_year(y) { 29 } else { 28 }
    } else if m == 4 || m == 6 || m == 9 || m == 11 {
        30
    } else {
        31
    }
}

/// Days from 1970-01-01 to the given date (negative before it), for any year.
pub open spec fn day_number(y: int, m: int, d: int) -> int {
    let y1 = if m <= 2 { y - 1 } else { y };
    let era = y1 / 400;
    let yoe = y1 - era * 400;
    let mp = if m > 2 { m - 3 } else { m + 9 };
    let doy = (153 * mp + 2) / 5 + d - 1;
    let doe = yoe * 365 + yoe / 4 - yoe / 100 + doy;
    era * 146097 + doe - 719468
}

impl CalendarDate {
    /// A real date, within the years `chrono` represents.
    pub open spec fn wf(self) -> bool {
        &&& DATE_MIN_YEAR <= self.year <= DATE_MAX_YEAR
        &&& 1 <= self.month <= 12
        &&& 1 <= self.day <= days_in_month(self.year as int, self.month as int)
    }

    /// Days from 1970-01-01 to this date.
    pub open spec fn days_since_epoch(self) -> int {
        day_number(self.year as int, self.month as int, self.day as int)
    }
}

impl ClockTime {
    /// A time of day without a leap second.
    pub open spec fn wf(self) -> bool {
        &&& self.hour < 24
        &&& self.minute < 60
        &&& self.second < 60
        &&& self.nanosecond < 1_000_000_000
    }

    /// Nanoseconds since midnight.
    pub open spec fn nanos_of_day(self) -> int {
        self.hour * 3_600_000_000_000 + self.minute * 60_000_000_000 + self.second * 1_000_000_000
            + self.nanosecond
    }

    /// Midnight.
    pub fn midnight() -> (r: ClockTime)
        ensures
            r.wf(),
            r.nanos_of_day() == 0,
    {
        ClockTime { hour: 0, minute: 0, second: 0, nanosecond: 0 }
    }
}

impl UtcDateTime {
    pub open spec fn wf(self) -> bool {
        self.date.wf() && self.time.wf()
    }
}

/// What `chrono::NaiveDate::parse_from_str` makes of `text` under the pattern `fmt`:
/// the year, month and day of the date, or `None` where it returns an error.
pub uninterp spec fn chrono_parse_date(text: Seq<char>, fmt: Seq<char>) -> Option<(i32, u32, u32)>;

/// `chrono::NaiveDate::parse_from_str(text, fmt)`.
/// Claimed: the outcome is the named `chrono_parse_date` of the two texts, and a date
/// that comes out is a real date within chrono's years (every `NaiveDate` is).
#[verifier::external_body]
pub(crate) fn naive_date_parse_from_str(text: &str, fmt: &str) -> (r: Result<
    CalendarDate,
    chrono::format::ParseError,
>)
    ensures
        match r {
            Ok(d) => {
                &&& chrono_parse_date(text@, fmt@) == Some((d.year, d.month, d.day))
                &&& d.wf()
            },
            Err(_) => chrono_parse_date(text@, fmt@) is None,
        },
{
    match chrono::NaiveDate::parse_from_str(text, fmt) {
        Ok(d) => Ok(CalendarDate { year: d.year(), month: d.month(), day: d.day() }),
        Err(e) => Err(e),
    }
}

/// `chrono::NaiveDate::signed_duration_since(a, b).num_days()`.
/// Claimed: the number of days from `b` to `a` on the proleptic Gregorian calendar.
#[verifier::external_body]
pub(crate) fn naive_date_signed_duration_since(a: CalendarDate, b: CalendarDate) -> (r: i64)
    requires
        a.wf(),
        b.wf(),
    ensures
        r == a.days_since_epoch() - b.days_since_epoch(),
{
    let da = chrono::NaiveDate::from_ymd_opt(a.year, a.month, a.day).unwrap();
    let db = chrono::NaiveDate::from_ymd_opt(b.year, b.month, b.day).unwrap();
    da.signed_duration_since(db).num_days()
}

/// `chrono::NaiveDate::and_hms_nano_opt(date, hour, min, sec, nano)`.
/// Claimed: `None` exactly on the inputs that chrono's source rejects (an hour past 23,
/// a minute or second past 59, a nanosecond count of a second or more outside second 59,
/// two seconds or more anywhere), and otherwise the date with exactly that time.
#[verifier::external_body]
pub(crate) fn naive_date_and_hms_nano_opt(
    date: CalendarDate,
    hour: u32,
    min: u32,
    sec: u32,
    nano: u32,
) -> (r: Option<UtcDateTime>)
    requires
        date.wf(),
    ensures
        r is Some <==> !(hour >= 24 || min >= 60 || sec >= 60 || (nano >= 1_000_000_000 && sec
            != 59) || nano >= 2_000_000_000),
        r matches Some(t) ==> t == (UtcDateTime {
            date,
            time: ClockTime { hour, minute: min, second: sec, nanosecond: nano },
        }),
{
    let d = chrono::NaiveDate::from_ymd_opt(date.year, date.month, date.day).unwrap();
    match d.and_hms_nano_opt(hour, min, sec, nano) {
        Some(dt) => Some(
            UtcDateTime {
                date: CalendarDate { year: dt.year(), month: dt.month(), day: dt.day() },
                time: ClockTime {
                    hour: dt.hour(),
                    minute: dt.minute(),
                    second: dt.second(),
                    nanosecond: dt.nanosecond(),
                },
            },
        ),
        None => None,
    }
}

/// `time::Time + time::Duration`, the duration made by `time::Duration::new(seconds, nanoseconds)`.
/// Claimed, as the `time` crate documents it: the sub-day part of the duration is added to
/// the time of day, wrapping around midnight.
#[verifier::external_body]
pub(crate) fn time_add_duration(t: ClockTime, seconds: i64, nanoseconds: i32) -> (r: ClockTime)
    requires
        t.wf(),
        seconds >= 0,
        0 <= nanoseconds < 1_000_000_000,
    ensures
        r.wf(),
        r.nanos_of_day() == (t.nanos_of_day() + seconds * 1_000_000_000 + nanoseconds)
            % (NANOS_PER_DAY as int),
{
    let base = time::Time::from_hms_nano(
        t.hour as u8,
        t.minute as u8,
        t.second as u8,
        t.nanosecond,
    ).unwrap();
    let sum = base + time::Duration::new(seconds, nanoseconds);
    ClockTime {
        hour: sum.hour() as u32,
        minute: sum.minute() as u32,
        second: sum.second() as u32,
        nanosecond: sum.nanosecond(),
    }
}

/// What chrono's `%y`, `%m` and `%d` write for a date: two digits each, the year taken
/// modulo 100.
pub open spec fn date_field_text(d: CalendarDate, fmt: Seq<char>) -> Seq<char> {
    if fmt == "%y"@ {
        zero_padded((d.year as int) % 100, 2)
    } else if fmt == "%m"@ {
        zero_padded(d.month as int, 2)
    } else {
        zero_padded(d.day as int, 2)
    }
}

/// `chrono::NaiveDate::format(date, fmt).to_string()` for the patterns `%y`, `%m`, `%d`.
/// Claimed: the text that chrono's formatting source writes for these fields.
#[verifier::external_body]
pub(crate) fn naive_date_format(d: CalendarDate, fmt: &str) -> (r: String)
    requires
        d.wf(),
        fmt@ == "%y"@ || fmt@ == "%m"@ || fmt@ == "%d"@,
    ensures
        r@ == date_field_text(d, fmt@),
{
    chrono::NaiveDate::from_ymd_opt(d.year, d.month, d.day).unwrap().format(fmt).to_string()
}

/// chrono's `%Y`: four digits for years 0 to 9999, otherwise an explicit sign and at
/// least four digits.
pub open spec fn year_text(y: int) -> Seq<char> {
    if 0 <= y <= 9999 {
        zero_padded(y, 4)
    } else if y < 0 {
        seq!['-'] + zero_padded(-y, 4)
    } else {
        seq!['+'] + zero_padded(y, 4)
    }
}

/// chrono's `%Y-%m-%d %H:%M:%S%.3f` of a date-time.
pub open spec fn timestamp_text(t: UtcDateTime) -> Seq<char> {
    year_text(t.date.year as int) + seq!['-'] + zero_padded(t.date.month as int, 2) + seq!['-']
        + zero_padded(t.date.day as int, 2) + seq![' '] + zero_padded(t.time.hour as int, 2)
        + seq![':'] + zero_padded(t.time.minute as int, 2) + seq![':'] + zero_padded(
        t.time.second + t.time.nanosecond / 1_000_000_000,
        2,
    ) + seq!['.'] + zero_padded((t.time.nanosecond / 1_000_000) as int % 1000, 3)
}

/// `chrono::Utc.from_utc_datetime(..).format("%Y-%m-%d %H:%M:%S%.3f").to_string()`.
/// Claimed: the text that chrono's formatting source writes for these fields.
#[verifier::external_body]
pub(crate) fn date_time_format(t: UtcDateTime, fmt: &str) -> (r: String)
    requires
        t.wf(),
        fmt@ == "%Y-%m-%d %H:%M:%S%.3f"@,
    ensures
        r@ == timestamp_text(t),
{
    let naive = chrono::NaiveDate::from_ymd_opt(t.date.year, t.date.month, t.date.day).unwrap()
        .and_hms_nano_opt(t.time.hour, t.time.minute, t.time.second, t.time.nanosecond).unwrap();
    chrono::Utc.from_utc_datetime(&naive).format(fmt).to_string()
}

/// Nanoseconds from 1970-01-01 00:00:00 UTC to a date-time.
pub open spec fn instant_nanos(t: UtcDateTime) -> int {
    t.date.days_since_epoch() * (NANOS_PER_DAY as int) + t.time.nanos_of_day()
}

/// Whole seconds in a span of nanoseconds, truncated toward zero.
pub open spec fn whole_seconds(nanos: int) -> int {
    if nanos >= 0 {
        nanos / 1_000_000_000
    } else {
        -((-nanos) / 1_000_000_000)
    }
}

/// `chrono::DateTime::<Utc>::signed_duration_since(a, b).num_seconds()`.
/// Claimed: the whole seconds from `b` to `a`, truncated toward zero (no leap seconds
/// are involved: both times of day are below 60 seconds).
#[verifier::external_body]
pub(crate) fn date_time_signed_duration_since(a: UtcDateTime, b: UtcDateTime) -> (r: i64)
    requires
        a.wf(),
        b.wf(),
    ensures
        r == whole_seconds(instant_nanos(a) - instant_nanos(b)),
{
    let na = chrono::NaiveDate::from_ymd_opt(a.date.year, a.date.month, a.date.day).unwrap()
        .and_hms_nano_opt(a.time.hour, a.time.minute, a.time.second, a.time.nanosecond).unwrap();
    let nb = chrono::NaiveDate::from_ymd_opt(b.date.year, b.date.month, b.date.day).unwrap()
        .and_hms_nano_opt(b.time.hour, b.time.minute, b.time.second, b.time.nanosecond).unwrap();
    chrono::Utc.from_utc_datetime(&na).signed_duration_since(chrono::Utc.from_utc_datetime(&nb))
        .num_seconds()
}

} // verus!
