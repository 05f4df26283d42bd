//! Properties that hold across the library's functions.

use vstd::prelude::*;

use crate::buffer::{buffer_push, BUFFER_SIZE};
use crate::calendar::{
    day_number, days_in_month, instant_nanos, timestamp_text, CalendarDate, UtcDateTime,
};
use crate::enums::{AggData, AppMessage, OhlcData, QuoteData, TradeData};
use crate::firehose::{
    record_head, dates_parse, is_agg_record, is_trade_record, key_view, lookup, message_outcome, MessagePlan,
};
use crate::text::{digits_value, lemma_nat_text_len, lemma_zero_padded_value, pow10, zero_padded};
use crate::utils::{clock_of_millis, combined_date_time, occ_symbol, parsed_date, MILLIS_PER_DAY};

verus! {

/// What a buffer holding `items` does with `inputs` pushed one after another: the
/// records that leave it, in the order they leave, and the records that stay.
pub open spec fn buffer_feed<T>(items: Seq<T>, inputs: Seq<T>) -> (Seq<T>, Seq<T>)
    decreases inputs.len(),
{
    if inputs.len() == 0 {
        (Seq::empty(), items)
    } else {
        let (written, kept) = buffer_feed(items, inputs.drop_last());
        let (next, evicted) = buffer_push(kept, inputs.last());
        match evicted {
            Some(e) => (written.push(e), next),
            None => (written, next),
        }
    }
}

/// Nothing is lost or reordered by a buffer: the records written out, followed by the
/// records still waiting, are the records that were waiting, followed by those pushed,
/// in order; and a buffer that held at most `BUFFER_SIZE` records keeps
/// `min(total, BUFFER_SIZE)` of them.
pub proof fn lemma_buffer_keeps_order<T>(items: Seq<T>, inputs: Seq<T>)
    requires
        items.len() <= BUFFER_SIZE,
    ensures
        buffer_feed(items, inputs).0 + buffer_feed(items, inputs).1 == items + inputs,
        buffer_feed(items, inputs).1.len() == if items.len() + inputs.len() <= BUFFER_SIZE {
            items.len() + inputs.len()
        } else {
            BUFFER_SIZE as nat
        },
    decreases inputs.len(),
{
    if inputs.len() == 0 {
        assert(Seq::<T>::empty() + items =~= items + inputs);
    } else {
        let pre = inputs.drop_last();
        lemma_buffer_keeps_order(items, pre);
        let (written, kept) = buffer_feed(items, pre);
        let x = inputs.last();
        assert(items + inputs =~= (items + pre).push(x));
        let pushed = kept.push(x);
        if pushed.len() > BUFFER_SIZE {
            assert(written.push(pushed[0]) + pushed.drop_first() =~= (written + kept).push(x));
        } else {
            assert(written + pushed =~= (written + kept).push(x));
        }
    }
}

/// A record stored as its contract's latest is what a later lookup of that contract
/// finds; the entries of other contracts stay as they were.
pub proof fn lemma_latest_read_after_write<K, V>(m: Map<K, V>, k: K, v: V, other: K)
    ensures
        lookup(m.insert(k, v), k) == Some(v),
        other != k ==> lookup(m.insert(k, v), other) == lookup(m, other),
{
}

/// A trade joins the quote most recently recorded for its contract: once `record_quote`
/// has made `q` the latest quote of a contract, the aggregate record of a trade of that
/// contract carries `q`'s bid and ask fields.
pub proof fn lemma_trade_joins_latest_quote(
    quotes: Map<(Seq<char>, i32, i64, Seq<char>), QuoteData>,
    bars: Map<(Seq<char>, i32, i64, Seq<char>), OhlcData>,
    q: QuoteData,
    msg: AppMessage,
    r: Result<MessagePlan, crate::utils::FirehoseError>,
)
    requires
        msg.header.msg_type@ == "TRADE"@,
        msg.contract is Some,
        msg.trade is Some,
        dates_parse(msg.contract.unwrap(), msg.trade.unwrap().date),
        key_view(
            msg.contract.unwrap().root@,
            msg.contract.unwrap().expiration,
            msg.contract.unwrap().strike,
            msg.contract.unwrap().right@,
        ) == key_view(q.root@, q.expiration, q.strike, q.right@),
        message_outcome(
            quotes.insert(key_view(q.root@, q.expiration, q.strike, q.right@), q),
            bars,
            msg,
            r,
        ),
    ensures
        r matches Ok(MessagePlan::Trade(rec, agg)) && is_trade_record(
            rec,
            msg.contract.unwrap(),
            msg.trade.unwrap(),
        ) && is_agg_record(agg, rec, Some(q), lookup(bars, key_view(q.root@, q.expiration, q.strike, q.right@))),
{
    reveal_strlit("QUOTE");
    reveal_strlit("TRADE");
    assert("QUOTE"@[0] != "TRADE"@[0]);
}

/// A trade joins the OHLC bar most recently recorded for its contract: once
/// `record_ohlc` has made `o` the latest bar of a contract, the aggregate record of a
/// trade of that contract carries `o`'s open, high, low, close, volume and count.
pub proof fn lemma_trade_joins_latest_ohlc(
    quotes: Map<(Seq<char>, i32, i64, Seq<char>), QuoteData>,
    bars: Map<(Seq<char>, i32, i64, Seq<char>), OhlcData>,
    o: OhlcData,
    msg: AppMessage,
    r: Result<MessagePlan, crate::utils::FirehoseError>,
)
    requires
        msg.header.msg_type@ == "TRADE"@,
        msg.contract is Some,
        msg.trade is Some,
        dates_parse(msg.contract.unwrap(), msg.trade.unwrap().date),
        key_view(
            msg.contract.unwrap().root@,
            msg.contract.unwrap().expiration,
            msg.contract.unwrap().strike,
            msg.contract.unwrap().right@,
        ) == key_view(o.root@, o.expiration, o.strike, o.right@),
        message_outcome(
            quotes,
            bars.insert(key_view(o.root@, o.expiration, o.strike, o.right@), o),
            msg,
            r,
        ),
    ensures
        r matches Ok(MessagePlan::Trade(rec, agg)) && is_trade_record(
            rec,
            msg.contract.unwrap(),
            msg.trade.unwrap(),
        ) && is_agg_record(agg, rec, lookup(quotes, key_view(o.root@, o.expiration, o.strike, o.right@)), Some(o)),
{
    reveal_strlit("QUOTE");
    reveal_strlit("TRADE");
    assert("QUOTE"@[0] != "TRADE"@[0]);
}

/// The time of day of a message wraps at midnight: milliseconds past one day give
/// the same date-time as their remainder modulo one day.
pub proof fn lemma_time_of_day_wraps(date_int: i32, ms: u64)
    ensures
        combined_date_time(date_int, ms) == combined_date_time(
            date_int,
            ms % MILLIS_PER_DAY,
        ),
{
    vstd::arithmetic::div_mod::lemma_mod_twice(ms as int, MILLIS_PER_DAY as int);
}

/// The time of day of a message is a real time of day, to the millisecond, equal to the
/// milliseconds of the day modulo one day.
pub proof fn lemma_time_of_day_exact(ms: u64)
    ensures
        clock_of_millis(ms as int).wf(),
        clock_of_millis(ms as int).nanos_of_day() == (ms % MILLIS_PER_DAY) * 1_000_000,
        clock_of_millis(ms as int).nanosecond % 1_000_000 == 0,
{
    let t = (ms % MILLIS_PER_DAY) as int;
    assert(t / 3_600_000 * 3_600_000_000_000 + (t / 60_000) % 60 * 60_000_000_000 + (t / 1000)
        % 60 * 1_000_000_000 + (t % 1000) * 1_000_000 == t * 1_000_000 && t / 3_600_000 < 24) by (nonlinear_arith)
        requires
            0 <= t < 86_400_000,
    ;
}

/// A timestamp of a year between 0 and 9999 always has 23 characters:
/// `YYYY-MM-DD HH:MM:SS.mmm`.
pub proof fn lemma_timestamp_length(t: UtcDateTime)
    requires
        t.wf(),
        0 <= t.date.year <= 9999,
    ensures
        timestamp_text(t).len() == 23,
{
    reveal_with_fuel(pow10, 5);
    lemma_zero_padded_len(t.date.year as int, 4);
    lemma_zero_padded_len(t.date.month as int, 2);
    lemma_zero_padded_len(t.date.day as int, 2);
    lemma_zero_padded_len(t.time.hour as int, 2);
    lemma_zero_padded_len(t.time.minute as int, 2);
    lemma_zero_padded_len(t.time.second as int, 2);
    lemma_zero_padded_len((t.time.nanosecond / 1_000_000) as int % 1000, 3);
}

/// A non-negative number below `10^width` is written with exactly `width` characters.
pub proof fn lemma_zero_padded_len(n: int, width: nat)
    requires
        1 <= width,
        0 <= n < pow10(width),
    ensures
        zero_padded(n, width as int).len() == width,
{
    lemma_nat_text_len(n as nat, width);
}

/// An OCC symbol with a strike below 10^8 reads as: the root, two digits each of the
/// expiration's year (modulo 100), month and day, the right, and eight digits that read
/// back as the strike.
pub proof fn lemma_occ_symbol_layout(root: Seq<char>, exp: CalendarDate, right: Seq<char>, strike: int)
    requires
        exp.wf(),
        0 <= strike < 100_000_000,
    ensures
        ({
            let s = occ_symbol(root, exp, right, strike);
            let n = root.len() as int;
            let m = right.len() as int;
            &&& s.len() == n + m + 14
            &&& s.subrange(0, n) == root
            &&& digits_value(s.subrange(n, n + 2)) == (exp.year as int) % 100
            &&& digits_value(s.subrange(n + 2, n + 4)) == exp.month
            &&& digits_value(s.subrange(n + 4, n + 6)) == exp.day
            &&& s.subrange(n + 6, n + 6 + m) == right
            &&& digits_value(s.subrange(n + 6 + m, n + m + 14)) == strike
        }),
{
    reveal_with_fuel(pow10, 9);
    let yy = zero_padded((exp.year as int) % 100, 2);
    let mm = zero_padded(exp.month as int, 2);
    let dd = zero_padded(exp.day as int, 2);
    let ss = zero_padded(strike, 8);
    lemma_zero_padded_len((exp.year as int) % 100, 2);
    lemma_zero_padded_len(exp.month as int, 2);
    lemma_zero_padded_len(exp.day as int, 2);
    lemma_zero_padded_len(strike, 8);
    lemma_zero_padded_value(((exp.year as int) % 100) as nat, 2);
    lemma_zero_padded_value(exp.month as nat, 2);
    lemma_zero_padded_value(exp.day as nat, 2);
    lemma_zero_padded_value(strike as nat, 8);
    let s = occ_symbol(root, exp, right, strike);
    let n = root.len() as int;
    let m = right.len() as int;
    assert(s == root + yy + mm + dd + right + ss);
    assert(s.subrange(0, n) =~= root);
    assert(s.subrange(n, n + 2) =~= yy);
    assert(s.subrange(n + 2, n + 4) =~= mm);
    assert(s.subrange(n + 4, n + 6) =~= dd);
    assert(s.subrange(n + 6, n + 6 + m) =~= right);
    assert(s.subrange(n + 6 + m, n + m + 14) =~= ss);
}

/// The calendar day after `(y, m, d)`.
pub open spec fn next_date(y: int, m: int, d: int) -> (int, int, int) {
    if d < days_in_month(y, m) {
        (y, m, d + 1)
    } else if m < 12 {
        (y, m + 1, 1)
    } else {
        (y + 1, 1, 1)
    }
}

/// Days to expiration count calendar days: the day after a date is numbered one more,
/// across month ends, February of leap and common years, and year ends.
pub proof fn lemma_day_number_next(y: int, m: int, d: int)
    requires
        1 <= m <= 12,
        1 <= d <= days_in_month(y, m),
    ensures
        ({
            let (y2, m2, d2) = next_date(y, m, d);
            day_number(y2, m2, d2) == day_number(y, m, d) + 1
        }),
{
    if d < days_in_month(y, m) {
    } else if m == 2 {
        let a = y - 1;
        let era = a / 400;
        let yoe = a - era * 400;
        assert(0 <= yoe < 400);
        if yoe < 399 {
            assert(y / 400 == era);
            assert(y - (y / 400) * 400 == yoe + 1);
            let x = yoe + 1;
            assert(y % 4 == x % 4 && y % 100 == x % 100 && y % 400 == x % 400) by {
                assert(y == era * 400 + x);
                vstd::arithmetic::div_mod::lemma_fundamental_div_mod_converse(y, 4, era * 100 + x / 4, x % 4);
                vstd::arithmetic::div_mod::lemma_fundamental_div_mod_converse(y, 100, era * 4 + x / 100, x % 100);
                vstd::arithmetic::div_mod::lemma_fundamental_div_mod_converse(y, 400, era, x);
            }
        } else {
            assert(y / 400 == era + 1);
            assert(y % 400 == 0);
        }
    } else if m < 12 {
        assert(m == 1 || m == 3 || m == 4 || m == 5 || m == 6 || m == 7 || m == 8 || m == 9 || m
            == 10 || m == 11);
    } else {
    }
}

/// Day numbers count from 1970-01-01.
pub proof fn lemma_day_number_epoch()
    ensures
        day_number(1970, 1, 1) == 0,
        day_number(2000, 3, 1) == 11017,
{
}

/// A real date of the proleptic Gregorian calendar, any year.
pub open spec fn valid_ymd(y: int, m: int, d: int) -> bool {
    1 <= m <= 12 && 1 <= d <= days_in_month(y, m)
}

/// `(y1, m1, d1)` comes before `(y2, m2, d2)` in the calendar.
pub open spec fn ymd_before(y1: int, m1: int, d1: int, y2: int, m2: int, d2: int) -> bool {
    y1 < y2 || (y1 == y2 && (m1 < m2 || (m1 == m2 && d1 < d2)))
}

/// A date's day number is below that of the first of any later month of its year.
proof fn lemma_before_month(y: int, m1: int, d1: int, m2: int)
    requires
        valid_ymd(y, m1, d1),
        m1 < m2 <= 12,
    ensures
        day_number(y, m1, d1) < day_number(y, m2, 1),
    decreases m2 - m1,
{
    let dim = days_in_month(y, m1);
    lemma_day_number_next(y, m1, dim);
    if m1 + 1 < m2 {
        lemma_before_month(y, m1 + 1, 1, m2);
    }
}

/// A date's day number is below that of the first of January of any later year.
proof fn lemma_before_year(y1: int, m: int, d: int, y2: int)
    requires
        valid_ymd(y1, m, d),
        y1 < y2,
    ensures
        day_number(y1, m, d) < day_number(y2, 1, 1),
    decreases y2 - y1,
{
    if m < 12 {
        lemma_before_month(y1, m, d, 12);
    }
    lemma_day_number_next(y1, 12, 31);
    if y1 + 1 < y2 {
        lemma_before_year(y1 + 1, 1, 1, y2);
    }
}

/// Later dates have larger day numbers, so days to expiration and timestamps grow with
/// the date.
pub proof fn lemma_day_number_monotone(y1: int, m1: int, d1: int, y2: int, m2: int, d2: int)
    requires
        valid_ymd(y1, m1, d1),
        valid_ymd(y2, m2, d2),
        ymd_before(y1, m1, d1, y2, m2, d2),
    ensures
        day_number(y1, m1, d1) < day_number(y2, m2, d2),
{
    if y1 < y2 {
        lemma_before_year(y1, m1, d1, y2);
        if m2 > 1 {
            lemma_before_month(y2, 1, 1, m2);
        }
    } else if m1 < m2 {
        lemma_before_month(y1, m1, d1, m2);
    }
}

/// Within one trading date, later milliseconds of the day give later date-times, apart by
/// exactly those milliseconds; and every date-time of a trading date comes before every
/// date-time of a later one.
pub proof fn lemma_combined_order(date1: i32, ms1: u64, date2: i32, ms2: u64)
    requires
        combined_date_time(date1, ms1) is Some,
        combined_date_time(date2, ms2) is Some,
        ms1 < MILLIS_PER_DAY,
        ms2 < MILLIS_PER_DAY,
    ensures
        ({
            let t1 = combined_date_time(date1, ms1).unwrap();
            let t2 = combined_date_time(date2, ms2).unwrap();
            &&& date1 == date2 ==> instant_nanos(t2) - instant_nanos(t1) == (ms2 - ms1) * 1_000_000
            &&& (t1.date.wf() && t2.date.wf() && ymd_before(
                t1.date.year as int,
                t1.date.month as int,
                t1.date.day as int,
                t2.date.year as int,
                t2.date.month as int,
                t2.date.day as int,
            )) ==> instant_nanos(t1) < instant_nanos(t2)
        }),
{
    let t1 = combined_date_time(date1, ms1).unwrap();
    let t2 = combined_date_time(date2, ms2).unwrap();
    lemma_time_of_day_exact(ms1);
    lemma_time_of_day_exact(ms2);
    vstd::arithmetic::div_mod::lemma_small_mod(ms1 as nat, MILLIS_PER_DAY as nat);
    vstd::arithmetic::div_mod::lemma_small_mod(ms2 as nat, MILLIS_PER_DAY as nat);
    if t1.date.wf() && t2.date.wf() && ymd_before(
        t1.date.year as int,
        t1.date.month as int,
        t1.date.day as int,
        t2.date.year as int,
        t2.date.month as int,
        t2.date.day as int,
    ) {
        lemma_day_number_monotone(
            t1.date.year as int,
            t1.date.month as int,
            t1.date.day as int,
            t2.date.year as int,
            t2.date.month as int,
            t2.date.day as int,
        );
    }
}

/// The table key of a contract tells contracts apart: two keys are equal only when root,
/// expiration, strike and right all are.
pub proof fn lemma_key_distinguishes_contracts(
    root1: Seq<char>,
    exp1: i32,
    strike1: i64,
    right1: Seq<char>,
    root2: Seq<char>,
    exp2: i32,
    strike2: i64,
    right2: Seq<char>,
)
    ensures
        key_view(root1, exp1, strike1, right1) == key_view(root2, exp2, strike2, right2) <==> (
        root1 == root2 && exp1 == exp2 && strike1 == strike2 && right1 == right2),
{
}

/// Recording the latest quote of one contract leaves what every other contract finds
/// unchanged: a contract that differs in root, expiration, strike or right (a put and a
/// call of the same strike, say) still finds what it found before.
pub proof fn lemma_latest_quote_of_other_contract(
    quotes: Map<(Seq<char>, i32, i64, Seq<char>), QuoteData>,
    q: QuoteData,
    root: Seq<char>,
    exp: i32,
    strike: i64,
    right: Seq<char>,
)
    requires
        !(root == q.root@ && exp == q.expiration && strike == q.strike && right == q.right@),
    ensures
        lookup(
            quotes.insert(key_view(q.root@, q.expiration, q.strike, q.right@), q),
            key_view(root, exp, strike, right),
        ) == lookup(quotes, key_view(root, exp, strike, right)),
{
    lemma_key_distinguishes_contracts(q.root@, q.expiration, q.strike, q.right@, root, exp, strike, right);
}

/// The aggregate record built from a trade record and a quote carries each of the
/// quote's fields under its own name, and the trade's fields under theirs.
pub proof fn lemma_agg_fields(a: AggData, t: TradeData, q: Option<QuoteData>, o: Option<OhlcData>)
    requires
        is_agg_record(a, t, q, o),
    ensures
        a.timestamp@ == t.timestamp@ && a.root@ == t.root@ && a.dte == t.dte && a.expiration
            == t.expiration && a.strike == t.strike && a.right@ == t.right@ && a.symbol@
            == t.symbol@,
        a.size == t.size && a.price == t.price && a.exchange == t.exchange && a.sequence
            == t.sequence && a.condition == t.condition && a.ms_of_day == t.ms_of_day && a.date
            == t.date,
        q matches Some(x) ==> a.bid_condition == x.bid_condition && a.bid_exchange
            == x.bid_exchange && a.bid_size == x.bid_size && a.bid == x.bid && a.ask == x.ask
            && a.ask_size == x.ask_size && a.ask_exchange == x.ask_exchange && a.ask_condition
            == x.ask_condition,
        q is None ==> a.bid_condition == 0 && a.bid_exchange == 0 && a.bid_size == 0 && a.bid
            == 0 && a.ask == 0 && a.ask_size == 0 && a.ask_exchange == 0 && a.ask_condition == 0,
        o matches Some(x) ==> a.open == x.open && a.high == x.high && a.low == x.low && a.close
            == x.close && a.volume == x.volume && a.count == x.count,
        o is None ==> a.open == 0 && a.high == 0 && a.low == 0 && a.close == 0 && a.volume == 0
            && a.count == 0,
{
}

/// A quote message's record carries each field of the message's quote under its own name,
/// and the contract's root, expiration, strike and right.
pub proof fn lemma_quote_record_fields(
    quotes: Map<(Seq<char>, i32, i64, Seq<char>), QuoteData>,
    bars: Map<(Seq<char>, i32, i64, Seq<char>), OhlcData>,
    msg: AppMessage,
    r: Result<MessagePlan, crate::utils::FirehoseError>,
)
    requires
        msg.header.msg_type@ == "QUOTE"@,
        msg.contract is Some,
        msg.quote is Some,
        dates_parse(msg.contract.unwrap(), msg.quote.unwrap().date),
        message_outcome(quotes, bars, msg, r),
    ensures
        ({
            let c = msg.contract.unwrap();
            let q = msg.quote.unwrap();
            r matches Ok(MessagePlan::Quote(rec)) && rec.bid_condition == q.bid_condition
                && rec.bid_exchange == q.bid_exchange && rec.bid_size == q.bid_size && rec.bid
                == q.bid && rec.ask == q.ask && rec.ask_size == q.ask_size && rec.ask_exchange
                == q.ask_exchange && rec.ask_condition == q.ask_condition && rec.ms_of_day
                == q.ms_of_day && rec.date == q.date && rec.root@ == c.root@ && rec.expiration
                == c.expiration && rec.strike == c.strike && rec.right@ == c.right@
        }),
{
}

/// A trade message's record carries each field of the message's trade under its own
/// name, and so does its aggregate record; the aggregate's quote and bar fields are those
/// of the contract's latest quote and bar, or zeros where there is none.
pub proof fn lemma_trade_record_fields(
    quotes: Map<(Seq<char>, i32, i64, Seq<char>), QuoteData>,
    bars: Map<(Seq<char>, i32, i64, Seq<char>), OhlcData>,
    msg: AppMessage,
    r: Result<MessagePlan, crate::utils::FirehoseError>,
)
    requires
        msg.header.msg_type@ == "TRADE"@,
        msg.contract is Some,
        msg.trade is Some,
        dates_parse(msg.contract.unwrap(), msg.trade.unwrap().date),
        message_outcome(quotes, bars, msg, r),
    ensures
        ({
            let c = msg.contract.unwrap();
            let t = msg.trade.unwrap();
            let k = (c.root@, c.expiration, c.strike, c.right@);
            r matches Ok(MessagePlan::Trade(rec, agg)) && rec.size == t.size && rec.price
                == t.price && rec.exchange == t.exchange && rec.sequence == t.sequence
                && rec.condition == t.condition && rec.ms_of_day == t.ms_of_day && rec.date
                == t.date && rec.root@ == c.root@ && rec.expiration == c.expiration && rec.strike
                == c.strike && rec.right@ == c.right@ && agg.size == t.size && agg.price
                == t.price && agg.exchange == t.exchange && agg.sequence == t.sequence
                && agg.condition == t.condition && agg.ms_of_day == t.ms_of_day && agg.date
                == t.date && (quotes.contains_key(k) ==> agg.bid_condition
                == quotes[k].bid_condition && agg.bid_exchange == quotes[k].bid_exchange
                && agg.bid_size == quotes[k].bid_size && agg.bid == quotes[k].bid && agg.ask
                == quotes[k].ask && agg.ask_size == quotes[k].ask_size && agg.ask_exchange
                == quotes[k].ask_exchange && agg.ask_condition == quotes[k].ask_condition) && (
            !quotes.contains_key(k) ==> agg.bid_size == 0 && agg.ask_size == 0 && agg.bid == 0
                && agg.ask == 0 && agg.bid_condition == 0 && agg.ask_condition == 0
                && agg.bid_exchange == 0 && agg.ask_exchange == 0) && (bars.contains_key(k)
                ==> agg.open == bars[k].open && agg.high == bars[k].high && agg.low
                == bars[k].low && agg.close == bars[k].close && agg.volume == bars[k].volume
                && agg.count == bars[k].count) && (!bars.contains_key(k) ==> agg.open == 0
                && agg.high == 0 && agg.low == 0 && agg.close == 0 && agg.volume == 0
                && agg.count == 0)
        }),
{
    reveal_strlit("QUOTE");
    reveal_strlit("TRADE");
    assert("QUOTE"@[0] != "TRADE"@[0]);
}

/// The text of a date-time of a year from 0 to 9999 reads, field by field, as its
/// year, month, day, hour, minute, second and millisecond.
pub proof fn lemma_timestamp_fields(t: UtcDateTime)
    requires
        t.wf(),
        0 <= t.date.year <= 9999,
    ensures
        ({
            let s = timestamp_text(t);
            &&& s.len() == 23
            &&& digits_value(s.subrange(0, 4)) == t.date.year
            &&& digits_value(s.subrange(5, 7)) == t.date.month
            &&& digits_value(s.subrange(8, 10)) == t.date.day
            &&& digits_value(s.subrange(11, 13)) == t.time.hour
            &&& digits_value(s.subrange(14, 16)) == t.time.minute
            &&& digits_value(s.subrange(17, 19)) == t.time.second
            &&& digits_value(s.subrange(20, 23)) == t.time.nanosecond / 1_000_000
        }),
{
    reveal_with_fuel(pow10, 5);
    let y = zero_padded(t.date.year as int, 4);
    let mo = zero_padded(t.date.month as int, 2);
    let d = zero_padded(t.date.day as int, 2);
    let h = zero_padded(t.time.hour as int, 2);
    let mi = zero_padded(t.time.minute as int, 2);
    let se = zero_padded(t.time.second + t.time.nanosecond / 1_000_000_000, 2);
    let ms = zero_padded((t.time.nanosecond / 1_000_000) as int % 1000, 3);
    assert(t.time.nanosecond / 1_000_000_000 == 0);
    assert((t.time.nanosecond / 1_000_000) as int % 1000 == t.time.nanosecond / 1_000_000);
    lemma_zero_padded_len(t.date.year as int, 4);
    lemma_zero_padded_len(t.date.month as int, 2);
    lemma_zero_padded_len(t.date.day as int, 2);
    lemma_zero_padded_len(t.time.hour as int, 2);
    lemma_zero_padded_len(t.time.minute as int, 2);
    lemma_zero_padded_len(t.time.second as int, 2);
    lemma_zero_padded_len((t.time.nanosecond / 1_000_000) as int, 3);
    lemma_zero_padded_value(t.date.year as nat, 4);
    lemma_zero_padded_value(t.date.month as nat, 2);
    lemma_zero_padded_value(t.date.day as nat, 2);
    lemma_zero_padded_value(t.time.hour as nat, 2);
    lemma_zero_padded_value(t.time.minute as nat, 2);
    lemma_zero_padded_value(t.time.second as nat, 2);
    lemma_zero_padded_value((t.time.nanosecond / 1_000_000) as nat, 3);
    let s = timestamp_text(t);
    assert(s == y + seq!['-'] + mo + seq!['-'] + d + seq![' '] + h + seq![':'] + mi + seq![':']
        + se + seq!['.'] + ms);
    assert(s.subrange(0, 4) =~= y);
    assert(s.subrange(5, 7) =~= mo);
    assert(s.subrange(8, 10) =~= d);
    assert(s.subrange(11, 13) =~= h);
    assert(s.subrange(14, 16) =~= mi);
    assert(s.subrange(17, 19) =~= se);
    assert(s.subrange(20, 23) =~= ms);
}

/// Every record is stamped with its own trading date and time of day: the timestamp of a
/// quote message's record reads the parsed trading date and the hour, minute, second and
/// millisecond of `ms_of_day` (modulo one day), on a 24-hour clock.
pub proof fn lemma_quote_timestamp(
    quotes: Map<(Seq<char>, i32, i64, Seq<char>), QuoteData>,
    bars: Map<(Seq<char>, i32, i64, Seq<char>), OhlcData>,
    msg: AppMessage,
    r: Result<MessagePlan, crate::utils::FirehoseError>,
)
    requires
        msg.header.msg_type@ == "QUOTE"@,
        msg.contract is Some,
        msg.quote is Some,
        dates_parse(msg.contract.unwrap(), msg.quote.unwrap().date),
        0 <= parsed_date(msg.quote.unwrap().date).unwrap().year <= 9999,
        message_outcome(quotes, bars, msg, r),
    ensures
        ({
            let q = msg.quote.unwrap();
            let day = parsed_date(q.date).unwrap();
            let ms = (q.ms_of_day as int) % (MILLIS_PER_DAY as int);
            r matches Ok(MessagePlan::Quote(rec)) && rec.timestamp@.len() == 23 && digits_value(
                rec.timestamp@.subrange(0, 4),
            ) == day.year && digits_value(rec.timestamp@.subrange(5, 7)) == day.month
                && digits_value(rec.timestamp@.subrange(8, 10)) == day.day && digits_value(
                rec.timestamp@.subrange(11, 13),
            ) == ms / 3_600_000 && digits_value(rec.timestamp@.subrange(14, 16)) == (ms / 60_000)
                % 60 && digits_value(rec.timestamp@.subrange(17, 19)) == (ms / 1000) % 60
                && digits_value(rec.timestamp@.subrange(20, 23)) == ms % 1000
        }),
{
    let q = msg.quote.unwrap();
    let t = combined_date_time(q.date, q.ms_of_day as u64).unwrap();
    lemma_time_of_day_exact(q.ms_of_day as u64);
    reveal_strlit("QUOTE");
    reveal_strlit("TRADE");
    reveal_strlit("OHLC");
    lemma_timestamp_fields(t);
    let ms = (q.ms_of_day as int) % (MILLIS_PER_DAY as int);
    assert(((ms % 1000) * 1_000_000) / 1_000_000 == ms % 1000);
}

/// What every record carries from its contract and its time: a 23-character timestamp
/// reading the trading date and, on a 24-hour clock, the hour, minute, second and
/// millisecond of `ms_of_day` modulo one day; the days from the trading date to the
/// expiration; and an OCC symbol that starts with the root, goes on with six digits of
/// the expiration, then the right, and ends with eight digits reading the strike.
pub proof fn lemma_record_head_fields(
    timestamp: Seq<char>,
    root: Seq<char>,
    dte: i64,
    expiration: i32,
    strike: i64,
    right: Seq<char>,
    symbol: Seq<char>,
    c: crate::enums::Contract,
    date: i32,
    ms_of_day: u32,
)
    requires
        dates_parse(c, date),
        record_head(timestamp, root, dte, expiration, strike, right, symbol, c, date, ms_of_day),
    ensures
        root == c.root@ && expiration == c.expiration && strike == c.strike && right == c.right@,
        dte == parsed_date(c.expiration).unwrap().days_since_epoch() - parsed_date(
            date,
        ).unwrap().days_since_epoch(),
        ({
            let day = parsed_date(date).unwrap();
            let ms = (ms_of_day as int) % (MILLIS_PER_DAY as int);
            0 <= day.year <= 9999 ==> {
                &&& timestamp.len() == 23
                &&& digits_value(timestamp.subrange(0, 4)) == day.year
                &&& digits_value(timestamp.subrange(5, 7)) == day.month
                &&& digits_value(timestamp.subrange(8, 10)) == day.day
                &&& digits_value(timestamp.subrange(11, 13)) == ms / 3_600_000
                &&& digits_value(timestamp.subrange(14, 16)) == (ms / 60_000) % 60
                &&& digits_value(timestamp.subrange(17, 19)) == (ms / 1000) % 60
                &&& digits_value(timestamp.subrange(20, 23)) == ms % 1000
            }
        }),
        ({
            let exp = parsed_date(c.expiration).unwrap();
            let n = c.root@.len() as int;
            let m = c.right@.len() as int;
            0 <= c.strike < 100_000_000 ==> {
                &&& symbol.len() == n + m + 14
                &&& symbol.subrange(0, n) == c.root@
                &&& digits_value(symbol.subrange(n, n + 2)) == (exp.year as int) % 100
                &&& digits_value(symbol.subrange(n + 2, n + 4)) == exp.month
                &&& digits_value(symbol.subrange(n + 4, n + 6)) == exp.day
                &&& symbol.subrange(n + 6, n + 6 + m) == c.right@
                &&& digits_value(symbol.subrange(n + 6 + m, n + m + 14)) == c.strike
            }
        }),
{
    let day = parsed_date(date).unwrap();
    let t = combined_date_time(date, ms_of_day as u64).unwrap();
    lemma_time_of_day_exact(ms_of_day as u64);
    let ms = (ms_of_day as int) % (MILLIS_PER_DAY as int);
    assert(((ms % 1000) * 1_000_000) / 1_000_000 == ms % 1000);
    if 0 <= day.year <= 9999 {
        lemma_timestamp_fields(t);
    }
    if 0 <= c.strike < 100_000_000 {
        lemma_occ_symbol_layout(c.root@, parsed_date(c.expiration).unwrap(), c.right@, c.strike as int);
    }
}

/// An OHLC message's record carries each field of the message's bar under its own name,
/// and the contract's root, expiration, strike and right.
pub proof fn lemma_ohlc_record_fields(
    quotes: Map<(Seq<char>, i32, i64, Seq<char>), QuoteData>,
    bars: Map<(Seq<char>, i32, i64, Seq<char>), OhlcData>,
    msg: AppMessage,
    r: Result<MessagePlan, crate::utils::FirehoseError>,
)
    requires
        msg.header.msg_type@ == "OHLC"@,
        msg.contract is Some,
        msg.ohlc is Some,
        dates_parse(msg.contract.unwrap(), msg.ohlc.unwrap().date),
        message_outcome(quotes, bars, msg, r),
    ensures
        ({
            let c = msg.contract.unwrap();
            let o = msg.ohlc.unwrap();
            r matches Ok(MessagePlan::Ohlc(rec)) && rec.open == o.open && rec.high == o.high
                && rec.low == o.low && rec.close == o.close && rec.volume == o.volume && rec.count
                == o.count && rec.ms_of_day == o.ms_of_day && rec.date == o.date && rec.root@
                == c.root@ && rec.expiration == c.expiration && rec.strike == c.strike
                && rec.right@ == c.right@
        }),
{
    reveal_strlit("QUOTE");
    reveal_strlit("TRADE");
    reveal_strlit("OHLC");
    assert("QUOTE"@.len() != "OHLC"@.len());
    assert("TRADE"@.len() != "OHLC"@.len());
}

} // verus!
