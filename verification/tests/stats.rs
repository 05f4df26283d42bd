use tdfirehose::calendar::{CalendarDate, ClockTime, UtcDateTime};
use tdfirehose::enums::{AppMessage, Header, Quote};
use tdfirehose::stats::{quote_delay, FeedStats};

fn at(y: i32, mo: u32, d: u32, h: u32, mi: u32, s: u32, ns: u32) -> UtcDateTime {
    UtcDateTime {
        date: CalendarDate { year: y, month: mo, day: d },
        time: ClockTime { hour: h, minute: mi, second: s, nanosecond: ns },
    }
}

fn quote_message(kind: &str, date: i32, ms: u32) -> AppMessage {
    AppMessage {
        header: Header { msg_type: kind.to_string(), status: "CONNECTED".to_string() },
        contract: None,
        quote: Some(Quote {
            bid_condition: 0,
            bid_exchange: 0,
            bid_size: 0,
            bid: 0,
            ask: 0,
            ask_size: 0,
            ask_exchange: 0,
            ask_condition: 0,
            ms_of_day: ms,
            date,
        }),
        ohlc: None,
        trade: None,
    }
}

#[test]
fn quote_delay_in_whole_seconds() {
    let now = at(2024, 4, 30, 11, 27, 4, 100_000_000);
    let d = quote_delay(&quote_message("QUOTE", 20240430, 41221290), now).unwrap();
    assert_eq!(d, Some(2));
}

#[test]
fn quote_delay_across_days() {
    let now = at(2024, 5, 1, 0, 0, 1, 0);
    let d = quote_delay(&quote_message("QUOTE", 20240430, 86_399_000), now).unwrap();
    assert_eq!(d, Some(2));
}

#[test]
fn quote_delay_truncates_toward_zero_when_ahead() {
    let now = at(2024, 4, 30, 0, 0, 0, 0);
    let d = quote_delay(&quote_message("QUOTE", 20240430, 1_500), now).unwrap();
    assert_eq!(d, Some(-1));
}

#[test]
fn no_delay_for_other_messages() {
    let now = at(2024, 4, 30, 0, 0, 0, 0);
    assert_eq!(quote_delay(&quote_message("TRADE", 20240430, 0), now).unwrap(), None);
}

#[test]
fn delay_of_bad_date_is_an_error() {
    let now = at(2024, 4, 30, 0, 0, 0, 0);
    assert!(quote_delay(&quote_message("QUOTE", 20240432, 0), now).is_err());
}

#[test]
fn stats_count_messages_and_delays() {
    let mut s = FeedStats::new();
    s.count_message();
    s.count_message();
    s.add_delay(3);
    s.add_delay(-1);
    assert_eq!(s.message_count, 2);
    assert_eq!(s.total_delay, 2);
    assert_eq!(s.messages_with_delay, 2);
}

#[test]
fn reset_keeps_the_message_count() {
    let mut s = FeedStats::new();
    s.count_message();
    s.add_delay(4);
    s.reset_delays();
    assert_eq!((s.message_count, s.total_delay, s.messages_with_delay), (1, 0, 0));
}
