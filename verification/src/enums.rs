//! The messages of the data feed and the records written from them.
//!
//! Prices are held as the bit patterns of their IEEE 754 binary64 values (what
//! `f64::to_bits` gives): the records carry prices through unchanged and never
//! compute with them.

use vstd::prelude::*;

verus! {

/// One message of the feed: a header and the parts its type carries.
#[derive(Debug, Clone)]
pub struct AppMessage {
    pub header: Header,
    pub contract: Option<Contract>,
    pub quote: Option<Quote>,
    pub ohlc: Option<Ohlc>,
    pub trade: Option<Trade>,
}

/// The message type (`QUOTE`, `TRADE`, `OHLC`, ...) and status.
#[derive(Debug, Clone)]
pub struct Header {
    pub msg_type: String,
    pub status: String,
}

/// An option contract.
#[derive(Debug, Clone)]
pub struct Contract {
    pub security_type: String,
    pub root: String,
    /// Expiration date, `YYYYMMDD` as an integer.
    pub expiration: i32,
    pub strike: i64,
    /// `C` or `P`.
    pub right: String,
}

/// A quote; `bid` and `ask` are price bit patterns.
#[derive(Debug, Clone, Copy)]
pub struct Quote {
    pub bid_condition: u8,
    pub bid_exchange: u8,
    pub bid_size: u32,
    pub bid: u64,
    pub ask: u64,
    pub ask_size: u32,
    pub ask_exchange: u8,
    pub ask_condition: u8,
    pub ms_of_day: u32,
    pub date: i32,
}

/// Open, high, low and close (price bit patterns), volume and count.
#[derive(Debug, Clone, Copy)]
pub struct Ohlc {
    pub open: u64,
    pub high: u64,
    pub low: u64,
    pub close: u64,
    pub volume: u32,
    pub count: u32,
    pub ms_of_day: u32,
    pub date: i32,
}

/// A trade; `price` is a price bit pattern.
#[derive(Debug, Clone, Copy)]
pub struct Trade {
    pub sequence: i64,
    pub size: u32,
    pub price: u64,
    pub exchange: u8,
    pub condition: u8,
    pub ms_of_day: u32,
    pub date: i32,
}

/// A quote record, as written to the quote file.
#[derive(Debug, Clone)]
pub struct QuoteData {
    pub timestamp: String,
    pub root: String,
    /// Days to expiration.
    pub dte: i64,
    pub expiration: i32,
    pub strike: i64,
    pub right: String,
    /// OCC symbol.
    pub symbol: String,
    pub bid_condition: u8,
    pub bid_exchange: u8,
    pub bid_size: u32,
    pub bid: u64,
    pub ask: u64,
    pub ask_size: u32,
    pub ask_exchange: u8,
    pub ask_condition: u8,
    pub ms_of_day: u32,
    pub date: i32,
}

/// An OHLC record, as written to the OHLC file.
#[derive(Debug, Clone)]
pub struct OhlcData {
    pub timestamp: String,
    pub root: String,
    pub dte: i64,
    pub expiration: i32,
    pub strike: i64,
    pub right: String,
    pub symbol: String,
    pub open: u64,
    pub high: u64,
    pub low: u64,
    pub close: u64,
    pub volume: u32,
    pub count: u32,
    pub ms_of_day: u32,
    pub date: i32,
}

/// A trade record, as written to the trade file.
#[derive(Debug, Clone)]
pub struct TradeData {
    pub timestamp: String,
    pub root: String,
    pub dte: i64,
    pub expiration: i32,
    pub strike: i64,
    pub right: String,
    pub symbol: String,
    pub size: u32,
    pub price: u64,
    pub exchange: u8,
    pub sequence: i64,
    pub condition: u8,
    pub ms_of_day: u32,
    pub date: i32,
}

/// A trade joined with the latest quote and OHLC of its contract, as written to the
/// aggregate file.
#[derive(Debug, Clone)]
pub struct AggData {
    pub timestamp: String,
    pub root: String,
    pub dte: i64,
    pub expiration: i32,
    pub strike: i64,
    pub right: String,
    pub symbol: String,
    pub size: u32,
    pub price: u64,
    pub exchange: u8,
    pub sequence: i64,
    pub condition: u8,
    pub bid_condition: u8,
    pub bid_exchange: u8,
    pub bid_size: u32,
    pub bid: u64,
    pub ask: u64,
    pub ask_size: u32,
    pub ask_exchange: u8,
    pub ask_condition: u8,
    pub open: u64,
    pub high: u64,
    pub low: u64,
    pub close: u64,
    pub volume: u32,
    pub count: u32,
    pub ms_of_day: u32,
    pub date: i32,
}

} // verus!
