use tdfirehose::buffer::{RecordBuffer, BUFFER_SIZE};
use tdfirehose::enums::{AppMessage, Contract, Header, Ohlc, Quote, Trade};
use tdfirehose::firehose::{build_agg, CsvRecord, FirehoseState, MessagePlan};
use tdfirehose::latest::{ContractKey, LatestMap};
use tdfirehose::utils::FirehoseError;

fn contract(root: &str, expiration: i32, strike: i64, right: &str) -> Contract {
    Contract {
        security_type: "OPTION".to_string(),
        root: root.to_string(),
        expiration,
        strike,
        right: right.to_string(),
    }
}

fn header(kind: &str) -> Header {
    Header { msg_type: kind.to_string(), status: "CONNECTED".to_string() }
}

fn spy_quote() -> Quote {
    Quote {
        bid_condition: 50,
        bid_exchange: 65,
        bid_size: 6,
        bid: 2.73f64.to_bits(),
        ask: 2.74f64.to_bits(),
        ask_size: 45,
        ask_exchange: 1,
        ask_condition: 50,
        ms_of_day: 41207731,
        date: 20240430,
    }
}

fn spy_trade() -> Trade {
    Trade {
        sequence: 1892502965,
        size: 1,
        price: 2.72f64.to_bits(),
        exchange: 6,
        condition: 125,
        ms_of_day: 41221290,
        date: 20240430,
    }
}

fn spy_ohlc() -> Ohlc {
    Ohlc {
        open: 3.38f64.to_bits(),
        high: 4.01f64.to_bits(),
        low: 2.55f64.to_bits(),
        close: 2.72f64.to_bits(),
        volume: 2577,
        count: 390,
        ms_of_day: 41221290,
        date: 20240430,
    }
}

fn message(kind: &str, c: Option<Contract>, q: Option<Quote>, o: Option<Ohlc>, t: Option<Trade>) -> AppMessage {
    AppMessage { header: header(kind), contract: c, quote: q, ohlc: o, trade: t }
}

#[test]
fn quote_message_gives_quote_record() {
    let state = FirehoseState::new();
    let msg = message("QUOTE", Some(contract("SPY", 20240502, 508000, "C")), Some(spy_quote()), None, None);
    match state.handle_message(msg).unwrap() {
        MessagePlan::Quote(q) => {
            assert_eq!(q.timestamp, "2024-04-30 11:26:47.731");
            assert_eq!(q.root, "SPY");
            assert_eq!(q.dte, 2);
            assert_eq!(q.expiration, 20240502);
            assert_eq!(q.strike, 508000);
            assert_eq!(q.right, "C");
            assert_eq!(q.symbol, "SPY240502C00508000");
            assert_eq!((q.bid_condition, q.bid_exchange, q.bid_size), (50, 65, 6));
            assert_eq!(f64::from_bits(q.bid), 2.73);
            assert_eq!(f64::from_bits(q.ask), 2.74);
            assert_eq!((q.ask_size, q.ask_exchange, q.ask_condition), (45, 1, 50));
            assert_eq!((q.ms_of_day, q.date), (41207731, 20240430));
        }
        other => panic!("unexpected plan {:?}", other),
    }
}

#[test]
fn trade_message_without_latest_records_joins_zeros() {
    let state = FirehoseState::new();
    let msg = message("TRADE", Some(contract("SPY", 20240502, 508000, "C")), None, None, Some(spy_trade()));
    match state.handle_message(msg).unwrap() {
        MessagePlan::Trade(t, a) => {
            assert_eq!(t.timestamp, "2024-04-30 11:27:01.290");
            assert_eq!(t.symbol, "SPY240502C00508000");
            assert_eq!(t.dte, 2);
            assert_eq!(t.sequence, 1892502965);
            assert_eq!(f64::from_bits(t.price), 2.72);
            assert_eq!(a.timestamp, t.timestamp);
            assert_eq!(a.symbol, t.symbol);
            assert_eq!(a.price, t.price);
            assert_eq!((a.bid_condition, a.bid_exchange, a.bid_size, a.ask_size), (0, 0, 0, 0));
            assert_eq!(f64::from_bits(a.bid), 0.0);
            assert_eq!(f64::from_bits(a.ask), 0.0);
            assert_eq!(f64::from_bits(a.open), 0.0);
            assert_eq!((a.volume, a.count), (0, 0));
        }
        other => panic!("unexpected plan {:?}", other),
    }
}

#[test]
fn trade_joins_latest_quote_and_ohlc_of_its_contract() {
    let mut state = FirehoseState::new();
    let c = contract("SPY", 20240502, 508000, "C");
    let q = match state.handle_message(message("QUOTE", Some(c.clone()), Some(spy_quote()), None, None)).unwrap() {
        MessagePlan::Quote(q) => q,
        other => panic!("unexpected plan {:?}", other),
    };
    assert!(state.record_quote(q).is_none());
    let o = match state.handle_message(message("OHLC", Some(c.clone()), None, Some(spy_ohlc()), None)).unwrap() {
        MessagePlan::Ohlc(o) => o,
        other => panic!("unexpected plan {:?}", other),
    };
    assert_eq!(o.timestamp, "2024-04-30 11:27:01.290");
    assert_eq!(f64::from_bits(o.open), 3.38);
    assert!(state.record_ohlc(o).is_none());
    match state.handle_message(message("TRADE", Some(c.clone()), None, None, Some(spy_trade()))).unwrap() {
        MessagePlan::Trade(_, a) => {
            assert_eq!((a.bid_condition, a.bid_exchange, a.bid_size), (50, 65, 6));
            assert_eq!(f64::from_bits(a.bid), 2.73);
            assert_eq!(f64::from_bits(a.ask), 2.74);
            assert_eq!(f64::from_bits(a.open), 3.38);
            assert_eq!(f64::from_bits(a.high), 4.01);
            assert_eq!(f64::from_bits(a.low), 2.55);
            assert_eq!(f64::from_bits(a.close), 2.72);
            assert_eq!((a.volume, a.count), (2577, 390));
        }
        other => panic!("unexpected plan {:?}", other),
    }
    // another strike of the same root finds nothing
    let other = contract("SPY", 20240502, 509000, "C");
    match state.handle_message(message("TRADE", Some(other), None, None, Some(spy_trade()))).unwrap() {
        MessagePlan::Trade(_, a) => assert_eq!((a.bid_size, a.volume), (0, 0)),
        other => panic!("unexpected plan {:?}", other),
    }
}

#[test]
fn newer_quote_replaces_older_one() {
    let mut state = FirehoseState::new();
    let c = contract("BLK", 20240517, 800000, "C");
    for size in [23u32, 99u32] {
        let mut q = spy_quote();
        q.bid_size = size;
        if let MessagePlan::Quote(rec) = state.handle_message(message("QUOTE", Some(c.clone()), Some(q), None, None)).unwrap() {
            state.record_quote(rec);
        } else {
            panic!("expected a quote record");
        }
    }
    let key = ContractKey { root: "BLK".to_string(), expiration: 20240517, strike: 800000, right: "C".to_string() };
    assert_eq!(state.latest_quotes.get(&key).unwrap().bid_size, 99);
    assert_eq!(state.quote_buffer.len(), 2);
    assert_eq!(state.quote_buffer.get(0).bid_size, 23);
}

#[test]
fn other_message_types_are_ignored() {
    let state = FirehoseState::new();
    let msg = message("STATUS", Some(contract("SPY", 20240502, 1, "C")), Some(spy_quote()), None, None);
    assert!(matches!(state.handle_message(msg), Ok(MessagePlan::Ignore)));
}

#[test]
fn messages_missing_their_payload_are_ignored() {
    let state = FirehoseState::new();
    let msg = message("QUOTE", Some(contract("SPY", 20240502, 1, "C")), None, None, Some(spy_trade()));
    assert!(matches!(state.handle_message(msg), Ok(MessagePlan::Ignore)));
    let msg = message("TRADE", None, None, None, Some(spy_trade()));
    assert!(matches!(state.handle_message(msg), Ok(MessagePlan::Ignore)));
    let msg = message("OHLC", Some(contract("SPY", 20240502, 1, "C")), None, None, None);
    assert!(matches!(state.handle_message(msg), Ok(MessagePlan::Ignore)));
}

#[test]
fn bad_dates_are_date_errors() {
    let state = FirehoseState::new();
    let msg = message("QUOTE", Some(contract("SPY", 20241340, 1, "C")), Some(spy_quote()), None, None);
    assert!(matches!(state.handle_message(msg), Err(FirehoseError::DateParse(_))));
    let mut t = spy_trade();
    t.date = 2024;
    let msg = message("TRADE", Some(contract("SPY", 20240502, 1, "C")), None, None, Some(t));
    assert!(matches!(state.handle_message(msg), Err(FirehoseError::DateParse(_))));
}

#[test]
fn dte_counts_calendar_days() {
    let state = FirehoseState::new();
    for (exp, dte) in [(20240517, 17i64), (20240503, 3), (20240430, 0), (20250430, 365), (20240429, -1)] {
        let msg = message("QUOTE", Some(contract("X", exp, 1, "P")), Some(spy_quote()), None, None);
        match state.handle_message(msg).unwrap() {
            MessagePlan::Quote(q) => assert_eq!(q.dte, dte),
            other => panic!("unexpected plan {:?}", other),
        }
    }
}

#[test]
fn seven_digit_dates_read_with_a_one_digit_day() {
    let state = FirehoseState::new();
    let mut q = spy_quote();
    q.date = 2024052;
    q.ms_of_day = 1;
    let msg = message("QUOTE", Some(contract("X", 2024053, 1, "P")), Some(q), None, None);
    match state.handle_message(msg).unwrap() {
        MessagePlan::Quote(r) => {
            assert_eq!(r.timestamp, "2024-05-02 00:00:00.001");
            assert_eq!(r.dte, 1);
            assert_eq!(r.symbol, "X240503P00000001");
        }
        other => panic!("unexpected plan {:?}", other),
    }
}

#[test]
fn buffer_evicts_oldest_beyond_capacity() {
    let mut b: RecordBuffer<u32> = RecordBuffer::new();
    for i in 0..BUFFER_SIZE as u32 {
        assert_eq!(b.push(i), None);
    }
    assert_eq!(b.len(), BUFFER_SIZE);
    assert_eq!(b.push(1000), Some(0));
    assert_eq!(b.push(1001), Some(1));
    assert_eq!(b.len(), BUFFER_SIZE);
    assert_eq!(*b.get(0), 2);
    assert_eq!(*b.get(BUFFER_SIZE - 1), 1001);
}

#[test]
fn buffer_keeps_everything_in_order() {
    let mut b: RecordBuffer<u32> = RecordBuffer::new();
    let mut written = Vec::new();
    for i in 0..250u32 {
        if let Some(e) = b.push(i) {
            written.push(e);
        }
    }
    for i in 0..b.len() {
        written.push(*b.get(i));
    }
    assert_eq!(written, (0..250u32).collect::<Vec<_>>());
}

#[test]
fn record_buffers_write_behind_by_one_hundred() {
    let mut state = FirehoseState::new();
    let c = contract("SPY", 20240502, 508000, "C");
    let mut evicted = Vec::new();
    for seq in 0..(BUFFER_SIZE as i64 + 2) {
        let mut t = spy_trade();
        t.sequence = seq;
        if let MessagePlan::Trade(rec, _) = state.handle_message(message("TRADE", Some(c.clone()), None, None, Some(t))).unwrap() {
            if let Some(e) = state.record_trade(rec) {
                evicted.push(e.sequence);
            }
        }
    }
    assert_eq!(evicted, vec![0, 1]);
    assert_eq!(state.trade_buffer.len(), BUFFER_SIZE);
}

#[test]
fn latest_map_read_after_write() {
    let mut m: LatestMap<u32> = LatestMap::new();
    let k1 = ContractKey { root: "A".to_string(), expiration: 1, strike: 2, right: "C".to_string() };
    let k2 = ContractKey { root: "A".to_string(), expiration: 1, strike: 2, right: "P".to_string() };
    assert_eq!(m.get(&k1), None);
    m.insert(k1.clone(), 5);
    m.insert(k2.clone(), 6);
    m.insert(k1.clone(), 7);
    assert_eq!(m.get(&k1), Some(&7));
    assert_eq!(m.get(&k2), Some(&6));
}

#[test]
fn agg_of_trade_alone_has_zero_quote_and_bar() {
    let state = FirehoseState::new();
    let msg = message("TRADE", Some(contract("CGC", 20240503, 8500, "P")), None, None, Some(spy_trade()));
    if let MessagePlan::Trade(t, _) = state.handle_message(msg).unwrap() {
        let a = build_agg(&t, None, None);
        assert_eq!(a.symbol, "CGC240503P00008500");
        assert_eq!(a.dte, 3);
        assert_eq!((a.bid, a.ask, a.open, a.high, a.low, a.close), (0, 0, 0, 0, 0, 0));
    } else {
        panic!("expected a trade");
    }
}

#[test]
fn dte_across_february() {
    let state = FirehoseState::new();
    for (date, exp, dte) in [(20240228, 20240301, 2i64), (20230228, 20230301, 1), (20001231, 20010101, 1), (19000228, 19000301, 1), (20000228, 20000301, 2)] {
        let mut q = spy_quote();
        q.date = date;
        let msg = message("QUOTE", Some(contract("X", exp, 1, "P")), Some(q), None, None);
        match state.handle_message(msg).unwrap() {
            MessagePlan::Quote(r) => assert_eq!(r.dte, dte),
            other => panic!("unexpected plan {:?}", other),
        }
    }
}

#[test]
fn timestamps_have_fixed_width() {
    let state = FirehoseState::new();
    for ms in [0u32, 1, 59_999, 3_600_000, 86_399_999, 86_400_000, 4_000_000_000] {
        let mut q = spy_quote();
        q.ms_of_day = ms;
        let msg = message("QUOTE", Some(contract("X", 20240502, 1, "P")), Some(q), None, None);
        match state.handle_message(msg).unwrap() {
            MessagePlan::Quote(r) => assert_eq!(r.timestamp.len(), 23),
            other => panic!("unexpected plan {:?}", other),
        }
    }
}

#[test]
fn trade_plan_writes_aggregate_before_buffering() {
    let mut state = FirehoseState::new();
    let c = contract("SPY", 20240502, 508000, "C");
    let plan = state.handle_message(message("TRADE", Some(c), None, None, Some(spy_trade()))).unwrap();
    let (first, rest) = state.next_write(plan);
    assert!(matches!(first, Some(CsvRecord::Agg(_))));
    assert_eq!(state.trade_buffer.len(), 0);
    assert!(matches!(rest, MessagePlan::BufferTrade(_)));
    let (second, rest) = state.next_write(rest);
    assert!(second.is_none());
    assert!(matches!(rest, MessagePlan::Ignore));
    assert_eq!(state.trade_buffer.len(), 1);
}

#[test]
fn quote_plan_writes_the_quote_that_leaves_the_buffer() {
    let mut state = FirehoseState::new();
    let c = contract("SPY", 20240502, 508000, "C");
    let mut written = Vec::new();
    for size in 0..(BUFFER_SIZE as u32 + 1) {
        let mut q = spy_quote();
        q.bid_size = size;
        let mut plan = state.handle_message(message("QUOTE", Some(c.clone()), Some(q), None, None)).unwrap();
        loop {
            let (w, rest) = state.next_write(plan);
            if let Some(CsvRecord::Quote(r)) = w {
                written.push(r.bid_size);
            }
            match rest {
                MessagePlan::Ignore => break,
                next => plan = next,
            }
        }
    }
    assert_eq!(written, vec![0]);
    assert_eq!(state.quote_buffer.len(), BUFFER_SIZE);
}
