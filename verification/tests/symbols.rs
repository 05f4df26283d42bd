use tdfirehose::text::{int_to_string, push_zero_padded};
use tdfirehose::calendar::CalendarDate;
use tdfirehose::utils::{combine_date_time, date_time_at, occ_symbol_of, to_occ_contract, FirehoseError};

fn occ(root: &str, expiration: i32, right: &str, strike: i64) -> Result<String, FirehoseError> {
    to_occ_contract(&root.to_string(), expiration, &right.to_string(), strike)
}

#[test]
fn occ_symbol_spy_call() {
    assert_eq!(occ("SPY", 20240502, "C", 508000).unwrap(), "SPY240502C00508000");
}

#[test]
fn occ_symbol_blk_call() {
    assert_eq!(occ("BLK", 20240517, "C", 800000).unwrap(), "BLK240517C00800000");
}

#[test]
fn occ_symbol_cgc_put() {
    assert_eq!(occ("CGC", 20240503, "P", 8500).unwrap(), "CGC240503P00008500");
}

#[test]
fn occ_symbol_spxw_put() {
    assert_eq!(occ("SPXW", 20240430, "P", 5035000).unwrap(), "SPXW240430P05035000");
}

#[test]
fn occ_symbol_strike_wider_than_eight() {
    assert_eq!(occ("X", 20991231, "C", 123456789).unwrap(), "X991231C123456789");
}

#[test]
fn occ_symbol_negative_strike_keeps_sign_first() {
    assert_eq!(occ("X", 20240101, "C", -5).unwrap(), "X240101C-0000005");
}

#[test]
fn occ_symbol_zero_strike() {
    assert_eq!(occ("X", 20000101, "P", 0).unwrap(), "X000101P00000000");
}

#[test]
fn occ_symbol_rejects_impossible_date() {
    assert!(matches!(occ("SPY", 20241332, "C", 1), Err(FirehoseError::DateParse(_))));
    assert!(matches!(occ("SPY", 20230229, "C", 1), Err(FirehoseError::DateParse(_))));
    assert!(matches!(occ("SPY", -20240101, "C", 1), Err(FirehoseError::DateParse(_))));
}

#[test]
fn occ_symbol_leap_day() {
    assert_eq!(occ("SPY", 20240229, "C", 1).unwrap(), "SPY240229C00000001");
}

#[test]
fn zero_padding_matches_std_format() {
    for n in [0i64, 7, -7, 12345678, -1234567, 123456789, i64::MIN, i64::MAX] {
        for w in [0usize, 1, 8, 12] {
            let mut s = String::new();
            push_zero_padded(&mut s, n, w);
            assert_eq!(s, format!("{:0w$}", n, w = w));
        }
    }
}

#[test]
fn decimal_text_matches_to_string() {
    for n in [0i64, 9, 10, -1, 20240430, -20240430, i64::MIN, i64::MAX] {
        assert_eq!(int_to_string(n), n.to_string());
    }
}

#[test]
fn combine_date_time_splits_milliseconds() {
    let t = combine_date_time(20240430, 41221290).unwrap();
    assert_eq!((t.date.year, t.date.month, t.date.day), (2024, 4, 30));
    assert_eq!((t.time.hour, t.time.minute, t.time.second, t.time.nanosecond), (11, 27, 1, 290_000_000));
}

#[test]
fn combine_date_time_wraps_past_midnight_on_the_same_date() {
    let t = combine_date_time(20240430, 86_400_000 + 5).unwrap();
    assert_eq!((t.date.year, t.date.month, t.date.day), (2024, 4, 30));
    assert_eq!((t.time.hour, t.time.minute, t.time.second, t.time.nanosecond), (0, 0, 0, 5_000_000));
    let u = combine_date_time(20240430, 5).unwrap();
    assert_eq!(t, u);
}

#[test]
fn combine_date_time_last_millisecond() {
    let t = combine_date_time(19991231, 86_399_999).unwrap();
    assert_eq!((t.time.hour, t.time.minute, t.time.second, t.time.nanosecond), (23, 59, 59, 999_000_000));
}

#[test]
fn combine_date_time_rejects_bad_date() {
    assert!(matches!(combine_date_time(20240431, 0), Err(FirehoseError::DateParse(_))));
    assert!(matches!(combine_date_time(0, 0), Err(FirehoseError::DateParse(_))));
}

#[test]
fn occ_symbol_of_a_given_date() {
    let d = CalendarDate { year: 2024, month: 5, day: 2 };
    assert_eq!(occ_symbol_of(&"SPY".to_string(), d, &"C".to_string(), 508000), "SPY240502C00508000");
    let d = CalendarDate { year: 1999, month: 12, day: 31 };
    assert_eq!(occ_symbol_of(&"AB".to_string(), d, &"P".to_string(), 42), "AB991231P00000042");
}

#[test]
fn date_time_at_a_given_date() {
    let d = CalendarDate { year: 2024, month: 2, day: 29 };
    let t = date_time_at(d, 3_600_000 * 25 + 61_001).unwrap();
    assert_eq!(t.date, d);
    assert_eq!((t.time.hour, t.time.minute, t.time.second, t.time.nanosecond), (1, 1, 1, 1_000_000));
}

#[test]
fn later_dates_and_milliseconds_give_later_times() {
    let a = combine_date_time(20231231, 86_399_999).unwrap();
    let b = combine_date_time(20240101, 0).unwrap();
    let c = combine_date_time(20240101, 1_500).unwrap();
    let key = |t: &tdfirehose::calendar::UtcDateTime| {
        (t.date.year, t.date.month, t.date.day, t.time.hour, t.time.minute, t.time.second, t.time.nanosecond)
    };
    assert!(key(&a) < key(&b));
    assert!(key(&b) < key(&c));
    assert_eq!(c.time.second * 1000 + c.time.nanosecond / 1_000_000, 1_500);
}
