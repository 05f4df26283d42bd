//! What the client does with each message: the records it makes of quotes, trades and
//! OHLC bars, the latest quote and OHLC of each contract, and the buffers that hold
//! records back before they are written.

use vstd::prelude::*;

use crate::buffer::{buffer_push, RecordBuffer};
use crate::calendar::{
    date_time_format, naive_date_parse_from_str, naive_date_signed_duration_since,
    timestamp_text, CalendarDate, UtcDateTime,
};
use crate::enums::{
    AggData, AppMessage, Contract, Ohlc, OhlcData, Quote, QuoteData, Trade, TradeData,
};
use crate::latest::{ContractKey, LatestMap};
use crate::text::int_to_string;
use crate::utils::{
    combine_date_time, combined_date_time, occ_symbol, occ_symbol_of, parsed_date,
    FirehoseError,
};

verus! {

/// A contract as the latest-record tables key it.
pub open spec fn key_view(root: Seq<char>, expiration: i32, strike: i64, right: Seq<char>) -> (
    Seq<char>,
    i32,
    i64,
    Seq<char>,
) {
    (root, expiration, strike, right)
}

/// A record can be made for contract `c` at trading date `date`: both the trading
/// date and the expiration are dates that chrono parses.
pub open spec fn dates_parse(c: Contract, date: i32) -> bool {
    parsed_date(date) is Some && parsed_date(c.expiration) is Some
}

/// The fields that every record takes from its contract and its time of day.
pub open spec fn record_head(
    timestamp: Seq<char>,
    root: Seq<char>,
    dte: i64,
    expiration: i32,
    strike: i64,
    right: Seq<char>,
    symbol: Seq<char>,
    c: Contract,
    date: i32,
    ms_of_day: u32,
) -> bool {
    let exp = parsed_date(c.expiration).unwrap();
    &&& parsed_date(date).unwrap().wf()
    &&& exp.wf()
    &&& timestamp == timestamp_text(combined_date_time(date, ms_of_day as u64).unwrap())
    &&& root == c.root@
    &&& dte == exp.days_since_epoch() - parsed_date(date).unwrap().days_since_epoch()
    &&& expiration == c.expiration
    &&& strike == c.strike
    &&& right == c.right@
    &&& symbol == occ_symbol(c.root@, exp, c.right@, c.strike as int)
}

/// The quote record of contract `c` and quote `q`.
pub open spec fn is_quote_record(r: QuoteData, c: Contract, q: Quote) -> bool {
    &&& record_head(r.timestamp@, r.root@, r.dte, r.expiration, r.strike, r.right@, r.symbol@, c, q.date, q.ms_of_day)
    &&& r.bid_condition == q.bid_condition
    &&& r.bid_exchange == q.bid_exchange
    &&& r.bid_size == q.bid_size
    &&& r.bid == q.bid
    &&& r.ask == q.ask
    &&& r.ask_size == q.ask_size
    &&& r.ask_exchange == q.ask_exchange
    &&& r.ask_condition == q.ask_condition
    &&& r.ms_of_day == q.ms_of_day
    &&& r.date == q.date
}

/// The OHLC record of contract `c` and bar `o`.
pub open spec fn is_ohlc_record(r: OhlcData, c: Contract, o: Ohlc) -> bool {
    &&& record_head(r.timestamp@, r.root@, r.dte, r.expiration, r.strike, r.right@, r.symbol@, c, o.date, o.ms_of_day)
    &&& r.open == o.open
    &&& r.high == o.high
    &&& r.low == o.low
    &&& r.close == o.close
    &&& r.volume == o.volume
    &&& r.count == o.count
    &&& r.ms_of_day == o.ms_of_day
    &&& r.date == o.date
}

/// The trade record of contract `c` and trade `t`.
pub open spec fn is_trade_record(r: TradeData, c: Contract, t: Trade) -> bool {
    &&& record_head(r.timestamp@, r.root@, r.dte, r.expiration, r.strike, r.right@, r.symbol@, c, t.date, t.ms_of_day)
    &&& r.size == t.size
    &&& r.price == t.price
    &&& r.exchange == t.exchange
    &&& r.sequence == t.sequence
    &&& r.condition == t.condition
    &&& r.ms_of_day == t.ms_of_day
    &&& r.date == t.date
}

/// The record behind an optional reference.
pub open spec fn deref_opt<T>(o: Option<&T>) -> Option<T> {
    match o {
        Some(x) => Some(*x),
        None => None,
    }
}

/// The entry of `k` in a table, if any.
pub open spec fn lookup<K, V>(m: Map<K, V>, k: K) -> Option<V> {
    if m.contains_key(k) {
        Some(m[k])
    } else {
        None
    }
}

/// The aggregate record of trade record `t`, joined with the quote and OHLC records
/// given; the fields of a missing one are zero (a price of zero has the bit pattern 0).
pub open spec fn is_agg_record(a: AggData, t: TradeData, quote: Option<QuoteData>, ohlc: Option<OhlcData>) -> bool {
    &&& a.timestamp@ == t.timestamp@
    &&& a.root@ == t.root@
    &&& a.dte == t.dte
    &&& a.expiration == t.expiration
    &&& a.strike == t.strike
    &&& a.right@ == t.right@
    &&& a.symbol@ == t.symbol@
    &&& a.size == t.size
    &&& a.price == t.price
    &&& a.exchange == t.exchange
    &&& a.sequence == t.sequence
    &&& a.condition == t.condition
    &&& a.ms_of_day == t.ms_of_day
    &&& a.date == t.date
    &&& match quote {
        Some(q) => {
            &&& a.bid_condition == q.bid_condition
            &&& a.bid_exchange == q.bid_exchange
            &&& a.bid_size == q.bid_size
            &&& a.bid == q.bid
            &&& a.ask == q.ask
            &&& a.ask_size == q.ask_size
            &&& a.ask_exchange == q.ask_exchange
            &&& a.ask_condition == q.ask_condition
        },
        None => {
            &&& a.bid_condition == 0
            &&& a.bid_exchange == 0
            &&& a.bid_size == 0
            &&& a.bid == 0
            &&& a.ask == 0
            &&& a.ask_size == 0
            &&& a.ask_exchange == 0
            &&& a.ask_condition == 0
        },
    }
    &&& match ohlc {
        Some(o) => {
            &&& a.open == o.open
            &&& a.high == o.high
            &&& a.low == o.low
            &&& a.close == o.close
            &&& a.volume == o.volume
            &&& a.count == o.count
        },
        None => {
            &&& a.open == 0
            &&& a.high == 0
            &&& a.low == 0
            &&& a.close == 0
            &&& a.volume == 0
            &&& a.count == 0
        },
    }
}

/// The timestamp, days to expiration and OCC symbol that a record carries.
pub struct RecordStamp {
    pub timestamp: String,
    pub dte: i64,
    pub symbol: String,
}

impl RecordStamp {
    /// The stamp of a record sent at `sent`, on trading date `trade_date`, of the contract
    /// `root`/`right`/`strike` that expires on `expiration`.
    pub fn from_dates(
        root: &String,
        right: &String,
        strike: i64,
        sent: UtcDateTime,
        expiration: CalendarDate,
        trade_date: CalendarDate,
    ) -> (r: RecordStamp)
        requires
            sent.wf(),
            expiration.wf(),
            trade_date.wf(),
        ensures
            r.timestamp@ == timestamp_text(sent),
            r.dte == expiration.days_since_epoch() - trade_date.days_since_epoch(),
            r.symbol@ == occ_symbol(root@, expiration, right@, strike as int),
    {
        let dte = naive_date_signed_duration_since(expiration, trade_date);
        let symbol = occ_symbol_of(root, expiration, right, strike);
        let timestamp = date_time_format(sent, "%Y-%m-%d %H:%M:%S%.3f");
        RecordStamp { timestamp, dte, symbol }
    }
}

/// The stamp of a record of contract `c` at trading date `date` and `ms_of_day`; the
/// trading date is read first, then the expiration.
fn record_stamp(c: &Contract, date: i32, ms_of_day: u32) -> (r: Result<RecordStamp, FirehoseError>)
    ensures
        r is Ok <==> dates_parse(*c, date),
        r matches Err(e) ==> e is DateParse,
        r matches Ok(s) ==> record_head(s.timestamp@, c.root@, s.dte, c.expiration, c.strike, c.right@, s.symbol@, *c, date, ms_of_day),
{
    let sent = match combine_date_time(date, ms_of_day as u64) {
        Ok(t) => t,
        Err(e) => {
            return Err(e);
        },
    };
    let exp_text = int_to_string(c.expiration as i64);
    let expiration = match naive_date_parse_from_str(exp_text.as_str(), "%Y%m%d") {
        Ok(d) => d,
        Err(e) => {
            return Err(FirehoseError::DateParse(e));
        },
    };
    let date_text = int_to_string(date as i64);
    let trade_date = match naive_date_parse_from_str(date_text.as_str(), "%Y%m%d") {
        Ok(d) => d,
        Err(e) => {
            return Err(FirehoseError::DateParse(e));
        },
    };
    Ok(RecordStamp::from_dates(&c.root, &c.right, c.strike, sent, expiration, trade_date))
}

impl QuoteData {
    /// A copy of the record, field by field.
    pub fn duplicate(&self) -> (r: QuoteData)
        ensures
            r == *self,
    {
        QuoteData {
            timestamp: self.timestamp.clone(),
            root: self.root.clone(),
            dte: self.dte,
            expiration: self.expiration,
            strike: self.strike,
            right: self.right.clone(),
            symbol: self.symbol.clone(),
            bid_condition: self.bid_condition,
            bid_exchange: self.bid_exchange,
            bid_size: self.bid_size,
            bid: self.bid,
            ask: self.ask,
            ask_size: self.ask_size,
            ask_exchange: self.ask_exchange,
            ask_condition: self.ask_condition,
            ms_of_day: self.ms_of_day,
            date: self.date,
        }
    }
}

impl OhlcData {
    /// A copy of the record, field by field.
    pub fn duplicate(&self) -> (r: OhlcData)
        ensures
            r == *self,
    {
        OhlcData {
            timestamp: self.timestamp.clone(),
            root: self.root.clone(),
            dte: self.dte,
            expiration: self.expiration,
            strike: self.strike,
            right: self.right.clone(),
            symbol: self.symbol.clone(),
            open: self.open,
            high: self.high,
            low: self.low,
            close: self.close,
            volume: self.volume,
            count: self.count,
            ms_of_day: self.ms_of_day,
            date: self.date,
        }
    }
}

/// The aggregate record of a trade record, joined with the latest quote and OHLC
/// records of its contract where there are any.
pub fn build_agg(trade: &TradeData, quote: Option<&QuoteData>, ohlc: Option<&OhlcData>) -> (a: AggData)
    ensures
        is_agg_record(a, *trade, deref_opt(quote), deref_opt(ohlc)),
{
    let (bid_condition, bid_exchange, bid_size, bid, ask, ask_size, ask_exchange, ask_condition) =
        match quote {
        Some(q) => (
            q.bid_condition,
            q.bid_exchange,
            q.bid_size,
            q.bid,
            q.ask,
            q.ask_size,
            q.ask_exchange,
            q.ask_condition,
        ),
        None => (0u8, 0u8, 0u32, 0u64, 0u64, 0u32, 0u8, 0u8),
    };
    let (open, high, low, close, volume, count) = match ohlc {
        Some(o) => (o.open, o.high, o.low, o.close, o.volume, o.count),
        None => (0u64, 0u64, 0u64, 0u64, 0u32, 0u32),
    };
    AggData {
        timestamp: trade.timestamp.clone(),
        root: trade.root.clone(),
        dte: trade.dte,
        expiration: trade.expiration,
        strike: trade.strike,
        right: trade.right.clone(),
        symbol: trade.symbol.clone(),
        size: trade.size,
        price: trade.price,
        exchange: trade.exchange,
        sequence: trade.sequence,
        condition: trade.condition,
        bid_condition,
        bid_exchange,
        bid_size,
        bid,
        ask,
        ask_size,
        ask_exchange,
        ask_condition,
        open,
        high,
        low,
        close,
        volume,
        count,
        ms_of_day: trade.ms_of_day,
        date: trade.date,
    }
}

/// What a message asks for: nothing, or the records made of it.
#[derive(Debug)]
pub enum MessagePlan {
    /// A message of another type, or one without its contract or payload.
    Ignore,
    /// Record the quote: it becomes its contract's latest quote and is buffered.
    Quote(QuoteData),
    /// Write the aggregate record now, then buffer the trade record.
    Trade(TradeData, AggData),
    /// Record the bar: it becomes its contract's latest OHLC and is buffered.
    Ohlc(OhlcData),
    /// Buffer the trade record, its aggregate record having been written.
    BufferTrade(TradeData),
}

/// A record to append to its CSV file.
#[derive(Debug)]
pub enum CsvRecord {
    Quote(QuoteData),
    Trade(TradeData),
    Ohlc(OhlcData),
    Agg(AggData),
}

/// A record that left a buffer, as a record to write.
pub open spec fn evicted_as<T>(evicted: Option<T>, wrap: spec_fn(T) -> CsvRecord) -> Option<CsvRecord> {
    match evicted {
        Some(x) => Some(wrap(x)),
        None => None,
    }
}

/// The tables and buffers that messages update.
pub struct FirehoseState {
    pub latest_quotes: LatestMap<QuoteData>,
    pub latest_ohlc: LatestMap<OhlcData>,
    pub quote_buffer: RecordBuffer<QuoteData>,
    pub trade_buffer: RecordBuffer<TradeData>,
    pub ohlc_buffer: RecordBuffer<OhlcData>,
}

/// The outcome of a message, given the latest quotes and OHLC bars: a quote, trade or
/// OHLC message with its contract and payload gives its records, or a date error when
/// its trading date or expiration does not parse; any other message is ignored.
pub open spec fn message_outcome(
    quotes: Map<(Seq<char>, i32, i64, Seq<char>), QuoteData>,
    bars: Map<(Seq<char>, i32, i64, Seq<char>), OhlcData>,
    msg: AppMessage,
    r: Result<MessagePlan, FirehoseError>,
) -> bool {
    let kind = msg.header.msg_type@;
    if kind == "QUOTE"@ && msg.contract is Some && msg.quote is Some {
        let c = msg.contract.unwrap();
        let q = msg.quote.unwrap();
        if dates_parse(c, q.date) {
            r matches Ok(MessagePlan::Quote(rec)) && is_quote_record(rec, c, q)
        } else {
            r matches Err(FirehoseError::DateParse(_))
        }
    } else if kind == "TRADE"@ && msg.contract is Some && msg.trade is Some {
        let c = msg.contract.unwrap();
        let t = msg.trade.unwrap();
        let k = key_view(c.root@, c.expiration, c.strike, c.right@);
        if dates_parse(c, t.date) {
            r matches Ok(MessagePlan::Trade(rec, agg)) && is_trade_record(rec, c, t)
                && is_agg_record(agg, rec, lookup(quotes, k), lookup(bars, k))
        } else {
            r matches Err(FirehoseError::DateParse(_))
        }
    } else if kind == "OHLC"@ && msg.contract is Some && msg.ohlc is Some {
        let c = msg.contract.unwrap();
        let o = msg.ohlc.unwrap();
        if dates_parse(c, o.date) {
            r matches Ok(MessagePlan::Ohlc(rec)) && is_ohlc_record(rec, c, o)
        } else {
            r matches Err(FirehoseError::DateParse(_))
        }
    } else {
        r matches Ok(MessagePlan::Ignore)
    }
}

impl FirehoseState {
    pub open spec fn wf(&self) -> bool {
        &&& self.latest_quotes.wf()
        &&& self.latest_ohlc.wf()
        &&& self.quote_buffer.wf()
        &&& self.trade_buffer.wf()
        &&& self.ohlc_buffer.wf()
    }

    /// No latest records and empty buffers.
    pub fn new() -> (r: Self)
        ensures
            r.wf(),
            r.latest_quotes@ == Map::<(Seq<char>, i32, i64, Seq<char>), QuoteData>::empty(),
            r.latest_ohlc@ == Map::<(Seq<char>, i32, i64, Seq<char>), OhlcData>::empty(),
            r.quote_buffer@ == Seq::<QuoteData>::empty(),
            r.trade_buffer@ == Seq::<TradeData>::empty(),
            r.ohlc_buffer@ == Seq::<OhlcData>::empty(),
    {
        FirehoseState {
            latest_quotes: LatestMap::new(),
            latest_ohlc: LatestMap::new(),
            quote_buffer: RecordBuffer::new(),
            trade_buffer: RecordBuffer::new(),
            ohlc_buffer: RecordBuffer::new(),
        }
    }

    /// The records that a message gives: a quote, trade or OHLC record with its
    /// timestamp, days to expiration and OCC symbol, and for a trade the aggregate
    /// record joined with its contract's latest quote and OHLC.
    pub fn handle_message(&self, msg: AppMessage) -> (r: Result<MessagePlan, FirehoseError>)
        requires
            self.wf(),
        ensures
            message_outcome(self.latest_quotes@, self.latest_ohlc@, msg, r),
    {
        let quote_tag = String::from_str("QUOTE");
        let trade_tag = String::from_str("TRADE");
        let ohlc_tag = String::from_str("OHLC");
        proof {
            reveal_strlit("QUOTE");
            reveal_strlit("TRADE");
            reveal_strlit("OHLC");
            assert("QUOTE"@[0] != "TRADE"@[0]);
            assert("QUOTE"@.len() != "OHLC"@.len());
            assert("TRADE"@.len() != "OHLC"@.len());
        }
        let AppMessage { header, contract, quote, ohlc, trade } = msg;
        if header.msg_type == quote_tag {
            if let (Some(contract), Some(quote)) = (contract, quote) {
                let stamp = match record_stamp(&contract, quote.date, quote.ms_of_day) {
                    Ok(s) => s,
                    Err(e) => {
                        return Err(e);
                    },
                };
                let rec = QuoteData {
                    timestamp: stamp.timestamp,
                    root: contract.root,
                    dte: stamp.dte,
                    expiration: contract.expiration,
                    strike: contract.strike,
                    right: contract.right,
                    symbol: stamp.symbol,
                    bid_condition: quote.bid_condition,
                    bid_exchange: quote.bid_exchange,
                    bid_size: quote.bid_size,
                    bid: quote.bid,
                    ask: quote.ask,
                    ask_size: quote.ask_size,
                    ask_exchange: quote.ask_exchange,
                    ask_condition: quote.ask_condition,
                    ms_of_day: quote.ms_of_day,
                    date: quote.date,
                };
                return Ok(MessagePlan::Quote(rec));
            }
            return Ok(MessagePlan::Ignore);
        }
        if header.msg_type == trade_tag {
            if let (Some(contract), Some(trade)) = (contract, trade) {
                let stamp = match record_stamp(&contract, trade.date, trade.ms_of_day) {
                    Ok(s) => s,
                    Err(e) => {
                        return Err(e);
                    },
                };
                let key = ContractKey {
                    root: contract.root.clone(),
                    expiration: contract.expiration,
                    strike: contract.strike,
                    right: contract.right.clone(),
                };
                let rec = TradeData {
                    timestamp: stamp.timestamp,
                    root: contract.root,
                    dte: stamp.dte,
                    expiration: contract.expiration,
                    strike: contract.strike,
                    right: contract.right,
                    symbol: stamp.symbol,
                    size: trade.size,
                    price: trade.price,
                    exchange: trade.exchange,
                    sequence: trade.sequence,
                    condition: trade.condition,
                    ms_of_day: trade.ms_of_day,
                    date: trade.date,
                };
                let latest_quote = self.latest_quotes.get(&key);
                let latest_ohlc = self.latest_ohlc.get(&key);
                let agg = build_agg(&rec, latest_quote, latest_ohlc);
                return Ok(MessagePlan::Trade(rec, agg));
            }
            return Ok(MessagePlan::Ignore);
        }
        if header.msg_type == ohlc_tag {
            if let (Some(contract), Some(ohlc)) = (contract, ohlc) {
                let stamp = match record_stamp(&contract, ohlc.date, ohlc.ms_of_day) {
                    Ok(s) => s,
                    Err(e) => {
                        return Err(e);
                    },
                };
                let rec = OhlcData {
                    timestamp: stamp.timestamp,
                    root: contract.root,
                    dte: stamp.dte,
                    expiration: contract.expiration,
                    strike: contract.strike,
                    right: contract.right,
                    symbol: stamp.symbol,
                    open: ohlc.open,
                    high: ohlc.high,
                    low: ohlc.low,
                    close: ohlc.close,
                    volume: ohlc.volume,
                    count: ohlc.count,
                    ms_of_day: ohlc.ms_of_day,
                    date: ohlc.date,
                };
                return Ok(MessagePlan::Ohlc(rec));
            }
            return Ok(MessagePlan::Ignore);
        }
        Ok(MessagePlan::Ignore)
    }

    /// Records a quote: it becomes the latest quote of its contract and joins the quote
    /// buffer; returns the oldest buffered quote when it has to be written out.
    pub fn record_quote(&mut self, rec: QuoteData) -> (evicted: Option<QuoteData>)
        requires
            old(self).wf(),
        ensures
            final(self).wf(),
            final(self).latest_quotes@ == old(self).latest_quotes@.insert(
                key_view(rec.root@, rec.expiration, rec.strike, rec.right@),
                rec,
            ),
            (final(self).quote_buffer@, evicted) == buffer_push(old(self).quote_buffer@, rec),
            final(self).latest_ohlc == old(self).latest_ohlc,
            final(self).trade_buffer == old(self).trade_buffer,
            final(self).ohlc_buffer == old(self).ohlc_buffer,
    {
        let key = record_key(&rec.root, rec.expiration, rec.strike, &rec.right);
        self.latest_quotes.insert(key, rec.duplicate());
        self.quote_buffer.push(rec)
    }

    /// Records a trade: it joins the trade buffer; returns the oldest buffered trade
    /// when it has to be written out.
    pub fn record_trade(&mut self, rec: TradeData) -> (evicted: Option<TradeData>)
        requires
            old(self).wf(),
        ensures
            final(self).wf(),
            (final(self).trade_buffer@, evicted) == buffer_push(old(self).trade_buffer@, rec),
            final(self).latest_quotes == old(self).latest_quotes,
            final(self).latest_ohlc == old(self).latest_ohlc,
            final(self).quote_buffer == old(self).quote_buffer,
            final(self).ohlc_buffer == old(self).ohlc_buffer,
    {
        self.trade_buffer.push(rec)
    }

    /// Records an OHLC bar: it becomes the latest bar of its contract and joins the OHLC
    /// buffer; returns the oldest buffered bar when it has to be written out.
    pub fn record_ohlc(&mut self, rec: OhlcData) -> (evicted: Option<OhlcData>)
        requires
            old(self).wf(),
        ensures
            final(self).wf(),
            final(self).latest_ohlc@ == old(self).latest_ohlc@.insert(
                key_view(rec.root@, rec.expiration, rec.strike, rec.right@),
                rec,
            ),
            (final(self).ohlc_buffer@, evicted) == buffer_push(old(self).ohlc_buffer@, rec),
            final(self).latest_quotes == old(self).latest_quotes,
            final(self).quote_buffer == old(self).quote_buffer,
            final(self).trade_buffer == old(self).trade_buffer,
    {
        let key = record_key(&rec.root, rec.expiration, rec.strike, &rec.right);
        self.latest_ohlc.insert(key, rec.duplicate());
        self.ohlc_buffer.push(rec)
    }

    /// Carries a plan forward to its next write: returns the record to write now, if
    /// any, and what is left of the plan. A quote or bar is recorded and the record that
    /// leaves its buffer is written; a trade first has its aggregate record written and
    /// only then is buffered, the trade that leaves the buffer being written in turn.
    pub fn next_write(&mut self, plan: MessagePlan) -> (r: (Option<CsvRecord>, MessagePlan))
        requires
            old(self).wf(),
        ensures
            final(self).wf(),
            match plan {
                MessagePlan::Ignore => {
                    &&& *final(self) == *old(self)
                    &&& r.0 is None
                    &&& r.1 is Ignore
                },
                MessagePlan::Quote(q) => {
                    let (buf, ev) = buffer_push(old(self).quote_buffer@, q);
                    &&& final(self).latest_quotes@ == old(self).latest_quotes@.insert(
                        key_view(q.root@, q.expiration, q.strike, q.right@),
                        q,
                    )
                    &&& final(self).quote_buffer@ == buf
                    &&& r.0 == evicted_as(ev, |x: QuoteData| CsvRecord::Quote(x))
                    &&& r.1 is Ignore
                    &&& final(self).latest_ohlc == old(self).latest_ohlc
                    &&& final(self).trade_buffer == old(self).trade_buffer
                    &&& final(self).ohlc_buffer == old(self).ohlc_buffer
                },
                MessagePlan::Trade(t, a) => {
                    &&& *final(self) == *old(self)
                    &&& r.0 == Some(CsvRecord::Agg(a))
                    &&& r.1 == MessagePlan::BufferTrade(t)
                },
                MessagePlan::BufferTrade(t) => {
                    let (buf, ev) = buffer_push(old(self).trade_buffer@, t);
                    &&& final(self).trade_buffer@ == buf
                    &&& r.0 == evicted_as(ev, |x: TradeData| CsvRecord::Trade(x))
                    &&& r.1 is Ignore
                    &&& final(self).latest_quotes == old(self).latest_quotes
                    &&& final(self).latest_ohlc == old(self).latest_ohlc
                    &&& final(self).quote_buffer == old(self).quote_buffer
                    &&& final(self).ohlc_buffer == old(self).ohlc_buffer
                },
                MessagePlan::Ohlc(o) => {
                    let (buf, ev) = buffer_push(old(self).ohlc_buffer@, o);
                    &&& final(self).latest_ohlc@ == old(self).latest_ohlc@.insert(
                        key_view(o.root@, o.expiration, o.strike, o.right@),
                        o,
                    )
                    &&& final(self).ohlc_buffer@ == buf
                    &&& r.0 == evicted_as(ev, |x: OhlcData| CsvRecord::Ohlc(x))
                    &&& r.1 is Ignore
                    &&& final(self).latest_quotes == old(self).latest_quotes
                    &&& final(self).quote_buffer == old(self).quote_buffer
                    &&& final(self).trade_buffer == old(self).trade_buffer
                },
            },
    {
        match plan {
            MessagePlan::Ignore => (None, MessagePlan::Ignore),
            MessagePlan::Quote(q) => {
                let write = match self.record_quote(q) {
                    Some(old_quote) => Some(CsvRecord::Quote(old_quote)),
                    None => None,
                };
                (write, MessagePlan::Ignore)
            },
            MessagePlan::Trade(t, a) => (Some(CsvRecord::Agg(a)), MessagePlan::BufferTrade(t)),
            MessagePlan::BufferTrade(t) => {
                let write = match self.record_trade(t) {
                    Some(old_trade) => Some(CsvRecord::Trade(old_trade)),
                    None => None,
                };
                (write, MessagePlan::Ignore)
            },
            MessagePlan::Ohlc(o) => {
                let write = match self.record_ohlc(o) {
                    Some(old_bar) => Some(CsvRecord::Ohlc(old_bar)),
                    None => None,
                };
                (write, MessagePlan::Ignore)
            },
        }
    }
}

/// The contract key of a record.
fn record_key(root: &String, expiration: i32, strike: i64, right: &String) -> (k: ContractKey)
    ensures
        k@ == key_view(root@, expiration, strike, right@),
{
    ContractKey { root: root.clone(), expiration, strike, right: right.clone() }
}

} // verus!
