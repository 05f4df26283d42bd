//! Timestamps from a trading date and milliseconds of the day, and OCC option symbols.

use vstd::prelude::*;

use crate::calendar::{
    CalendarDate, ClockTime, UtcDateTime, chrono_parse_date, naive_date_and_hms_nano_opt,
    naive_date_format, naive_date_parse_from_str, time_add_duration, NANOS_PER_DAY,
};
use crate::text::{int_text, int_to_string, push_zero_padded, zero_padded};

verus! {

/// Why a message could not be turned into records.
#[derive(Debug)]
pub enum FirehoseError {
    /// A date in `YYYYMMDD` form did not parse; chrono's error.
    DateParse(chrono::format::ParseError),
    /// The date and the time of day do not make a date-time.
    InvalidDateTime,
}

/// Milliseconds in one day.
pub const MILLIS_PER_DAY: u64 = 86_400_000;

/// The date that chrono reads from the decimal text of `date_int` as `%Y%m%d`.
pub open spec fn parsed_date(date_int: i32) -> Option<CalendarDate> {
    match chrono_parse_date(int_text(date_int as int), "%Y%m%d"@) {
        Some((y, m, d)) => Some(CalendarDate { year: y, month: m, day: d }),
        None => None,
    }
}

/// The time of day `ms` milliseconds after midnight, wrapping around at 24 hours.
pub open spec fn clock_of_millis(ms: int) -> ClockTime {
    let t = ms % (MILLIS_PER_DAY as int);
    ClockTime {
        hour: (t / 3_600_000) as u32,
        minute: ((t / 60_000) % 60) as u32,
        second: ((t / 1000) % 60) as u32,
        nanosecond: ((t % 1000) * 1_000_000) as u32,
    }
}

/// A time of day is fixed by its count of nanoseconds since midnight.
pub proof fn lemma_clock_from_nanos(c: ClockTime, ms: int)
    requires
        c.wf(),
        0 <= ms,
        c.nanos_of_day() == (ms % (MILLIS_PER_DAY as int)) * 1_000_000,
    ensures
        c == clock_of_millis(ms),
{
    let t = ms % (MILLIS_PER_DAY as int);
    let h = c.hour as int;
    let mi = c.minute as int;
    let s = c.second as int;
    let n = c.nanosecond as int;
    assert(0 <= t < 86_400_000);
    // t * 10^6 == h*3600*10^9 + mi*60*10^9 + s*10^9 + n, so n is a multiple of 10^6
    assert(n % 1_000_000 == 0 && n / 1_000_000 == t % 1000 && (t / 1000) % 60 == s && (t / 60_000)
        % 60 == mi && t / 3_600_000 == h) by (nonlinear_arith)
        requires
            0 <= h < 24,
            0 <= mi < 60,
            0 <= s < 60,
            0 <= n < 1_000_000_000,
            0 <= t,
            h * 3_600_000_000_000 + mi * 60_000_000_000 + s * 1_000_000_000 + n == t * 1_000_000,
    ;
}

/// The date-time that `combine_date_time` makes of a trading date and milliseconds of the day.
pub open spec fn combined_date_time(date_int: i32, ms_of_day: u64) -> Option<UtcDateTime> {
    match parsed_date(date_int) {
        Some(d) => Some(UtcDateTime { date: d, time: clock_of_millis(ms_of_day as int) }),
        None => None,
    }
}

/// Whole seconds and then the leftover milliseconds, added to midnight with wrap-around,
/// give the milliseconds of the day modulo one day.
proof fn lemma_time_of_day_sum(ms: int, t1: int, t2: int)
    requires
        0 <= ms,
        t1 == ((ms / 1000) * 1_000_000_000) % (NANOS_PER_DAY as int),
        t2 == (t1 + (ms % 1000) * 1_000_000) % (NANOS_PER_DAY as int),
    ensures
        t2 == (ms % (MILLIS_PER_DAY as int)) * 1_000_000,
{
    let d = NANOS_PER_DAY as int;
    let x = (ms / 1000) * 1_000_000_000;
    let y = (ms % 1000) * 1_000_000;
    vstd::arithmetic::div_mod::lemma_add_mod_noop(x, y, d);
    assert(0 <= y < d);
    vstd::arithmetic::div_mod::lemma_small_mod(y as nat, d as nat);
    assert(x + y == ms * 1_000_000);
    let q = ms / (MILLIS_PER_DAY as int);
    let r = ms % (MILLIS_PER_DAY as int);
    assert(ms * 1_000_000 == q * d + r * 1_000_000) by (nonlinear_arith)
        requires
            ms == q * 86_400_000 + r,
            d == 86_400_000_000_000,
    ;
    vstd::arithmetic::div_mod::lemma_fundamental_div_mod_converse(ms * 1_000_000, d, q, r * 1_000_000);
}

/// The date-time `ms_of_day` milliseconds after the start of `date`, the time of day
/// wrapping at 24 hours.
pub fn date_time_at(date: CalendarDate, ms_of_day: u64) -> (r: Result<UtcDateTime, FirehoseError>)
    requires
        date.wf(),
    ensures
        r matches Ok(t) && t == (UtcDateTime { date, time: clock_of_millis(ms_of_day as int) }),
{
    let total_seconds = ms_of_day / 1000;
    let nanoseconds = (ms_of_day % 1000) * 1_000_000;
    let after_seconds = time_add_duration(ClockTime::midnight(), total_seconds as i64, 0);
    let time = time_add_duration(after_seconds, 0, nanoseconds as i32);
    proof {
        lemma_time_of_day_sum(ms_of_day as int, after_seconds.nanos_of_day(), time.nanos_of_day());
        lemma_clock_from_nanos(time, ms_of_day as int);
    }
    match naive_date_and_hms_nano_opt(date, time.hour, time.minute, time.second, time.nanosecond) {
        Some(dt) => Ok(dt),
        None => Err(FirehoseError::InvalidDateTime),
    }
}

/// The UTC date-time of a trading date (`YYYYMMDD` as an integer) and the milliseconds
/// since midnight: the date as chrono parses it, the time of day wrapping at 24 hours.
pub fn combine_date_time(date_int: i32, ms_of_day: u64) -> (r: Result<UtcDateTime, FirehoseError>)
    ensures
        r is Ok <==> parsed_date(date_int) is Some,
        r matches Ok(t) ==> Some(t) == combined_date_time(date_int, ms_of_day) && t.wf(),
        r matches Err(e) ==> e is DateParse,
{
    let date_str = int_to_string(date_int as i64);
    let date = match naive_date_parse_from_str(date_str.as_str(), "%Y%m%d") {
        Ok(d) => d,
        Err(e) => {
            return Err(FirehoseError::DateParse(e));
        },
    };
    date_time_at(date, ms_of_day)
}

/// The OCC option symbol: root, two-digit year, month and day of expiration, right,
/// and the strike zero-padded to eight characters.
pub open spec fn occ_symbol(root: Seq<char>, expiration: CalendarDate, right: Seq<char>, strike: int) -> Seq<char> {
    root + zero_padded((expiration.year as int) % 100, 2) + zero_padded(expiration.month as int, 2)
        + zero_padded(expiration.day as int, 2) + right + zero_padded(strike, 8)
}

/// The OCC symbol of a contract that expires on `expiration`.
pub fn occ_symbol_of(root: &String, expiration: CalendarDate, right: &String, strike: i64) -> (r: String)
    requires
        expiration.wf(),
    ensures
        r@ == occ_symbol(root@, expiration, right@, strike as int),
{
    let mut occ_strike = String::new();
    push_zero_padded(&mut occ_strike, strike, 8);
    let year2digits = naive_date_format(expiration, "%y");
    let month = naive_date_format(expiration, "%m");
    let day = naive_date_format(expiration, "%d");
    let mut symbol = root.clone();
    symbol.append(year2digits.as_str());
    symbol.append(month.as_str());
    symbol.append(day.as_str());
    symbol.append(right.as_str());
    symbol.append(occ_strike.as_str());
    proof {
        reveal_strlit("%y");
        reveal_strlit("%m");
        reveal_strlit("%d");
        assert("%m"@[1] != "%y"@[1]);
        assert("%d"@[1] != "%y"@[1]);
        assert("%d"@[1] != "%m"@[1]);
    }
    assert(symbol@ =~= occ_symbol(root@, expiration, right@, strike as int));
    symbol
}

/// The OCC symbol of a contract, e.g. `SPY240502C00508000`; fails where the expiration
/// (`YYYYMMDD` as an integer) is no date that chrono parses.
pub fn to_occ_contract(root: &String, expiration: i32, right: &String, strike: i64) -> (r: Result<String, FirehoseError>)
    ensures
        r is Ok <==> parsed_date(expiration) is Some,
        r matches Ok(s) ==> s@ == occ_symbol(root@, parsed_date(expiration).unwrap(), right@, strike as int),
        r is Ok ==> parsed_date(expiration).unwrap().wf(),
        r matches Err(e) ==> e is DateParse,
{
    let exp_text = int_to_string(expiration as i64);
    match naive_date_parse_from_str(exp_text.as_str(), "%Y%m%d") {
        Ok(exp_date) => Ok(occ_symbol_of(root, exp_date, right, strike)),
        Err(e) => Err(FirehoseError::DateParse(e)),
    }
}

} // verus!
