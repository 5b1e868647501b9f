use cbadv::config::CoinbaseConfig;
use cbadv::errors::CbError;
use cbadv::rest::RestClientBuilder;
use cbadv::signer::{request_url, status_outcome};
use cbadv::task_tracker::{current_window_start, newest_update, CandleUpdate, TaskTracker};
use cbadv::text::{is_blank, same_text, text_lt, u64_text};
use cbadv::time::{after, before, candle_windows, Granularity, Span};
use cbadv::traits::Query;

#[test]
fn decimal_text() {
    assert_eq!(u64_text(0), "0");
    assert_eq!(u64_text(7), "7");
    assert_eq!(u64_text(1234567890), "1234567890");
    assert_eq!(u64_text(u64::MAX), "18446744073709551615");
}

#[test]
fn blank_and_order_of_texts() {
    assert!(is_blank(""));
    assert!(is_blank(" \t\n\u{3000}"));
    assert!(!is_blank(" a "));
    assert!(same_text("abc", "abc"));
    assert!(!same_text("abc", "abd"));
    assert!(text_lt("2024-01-01", "2024-02-01"));
    assert!(text_lt("ab", "abc"));
    assert!(!text_lt("abc", "abc"));
    assert!(!text_lt("b", "a"));
}

#[test]
fn granularity_seconds_round_trip() {
    let all = [
        Granularity::OneMinute,
        Granularity::FiveMinute,
        Granularity::FifteenMinute,
        Granularity::ThirtyMinute,
        Granularity::OneHour,
        Granularity::TwoHour,
        Granularity::SixHour,
        Granularity::OneDay,
    ];
    for g in all {
        assert_eq!(Granularity::from_secs(Granularity::to_secs(&g)), g);
    }
    assert_eq!(Granularity::to_secs(&Granularity::FiveMinute), 300);
    assert_eq!(Granularity::to_secs(&Granularity::OneDay), 86400);
    assert_eq!(Granularity::from_secs(61), Granularity::Unknown);
    assert_eq!(Granularity::OneHour.as_ref(), "ONE_HOUR");
    assert_eq!(Granularity::Unknown.to_string(), "UNKNOWN_GRANULARITY");
}

#[test]
fn span_counts_whole_intervals() {
    let s = Span::new(0, 3600, &Granularity::OneMinute);
    assert_eq!(s.granularity, 60);
    assert_eq!(s.count(), 60);
    let s = Span::new(59, 121, &Granularity::OneMinute);
    assert_eq!(s.count(), 2);
    let s = Span::new(61, 119, &Granularity::OneMinute);
    assert_eq!(s.count(), 0);
    assert_eq!(Span::new(10, 20, &Granularity::OneMinute).to_query(), "start=10&end=20&granularity=ONE_MINUTE");
    match Span::new(20, 20, &Granularity::OneMinute).check() {
        Err(CbError::BadQuery(m)) => assert_eq!(m, "start must be before end"),
        _ => panic!("a span that does not move forward is refused"),
    }
    match Span::new(10, 20, &Granularity::Unknown).check() {
        Err(CbError::BadQuery(m)) => assert_eq!(m, "granularity must be greater than 0"),
        _ => panic!("a span without granularity is refused"),
    }
}

#[test]
fn timestamps_move() {
    assert_eq!(after(100, 20), 120);
    assert_eq!(before(100, 20), 80);
}

#[test]
fn candle_windows_cover_the_span() {
    let query = Span { start: 0, end: 60 * 601 + 30, granularity: 60 };
    let windows = candle_windows(&query);
    assert_eq!(windows.len(), 3);
    assert_eq!((windows[0].start, windows[0].end), (0, 18000));
    assert_eq!((windows[1].start, windows[1].end), (18000, 36000));
    assert_eq!((windows[2].start, windows[2].end), (36000, 36090));
    assert!(windows.iter().all(|w| w.granularity == 60 && w.count() >= 1 && w.count() <= 300));
    let query = Span { start: 0, end: 60000, granularity: 60 };
    assert_eq!(candle_windows(&query)[0].end, 18000);
}

#[test]
fn candle_windows_drop_a_last_partial_interval() {
    let query = Span { start: 0, end: 60 * 300 + 59, granularity: 60 };
    let windows = candle_windows(&query);
    assert_eq!(windows.len(), 1);
    assert_eq!(windows[0].end, 18000);
    let short = Span { start: 10, end: 50, granularity: 60 };
    assert!(candle_windows(&short).is_empty());
    let backwards = Span { start: 50, end: 10, granularity: 60 };
    assert!(candle_windows(&backwards).is_empty());
}

fn update(id: &str, start: u64, candle: u32) -> CandleUpdate<u32> {
    CandleUpdate { product_id: id.to_string(), start, candle }
}

#[test]
fn newest_update_is_the_first_with_the_latest_start() {
    let updates = vec![update("A", 5, 1), update("B", 9, 2), update("C", 9, 3), update("D", 1, 4)];
    assert_eq!(newest_update(&updates), Some(1));
    let none: Vec<CandleUpdate<u32>> = vec![];
    assert_eq!(newest_update(&none), None);
}

#[test]
fn tracker_ejects_a_candle_when_a_later_one_arrives() {
    let mut tracker: TaskTracker<u32> = TaskTracker::new();
    assert_eq!(tracker.check_candle("BTC-USD", 300, 1), None);
    assert_eq!(tracker.check_candle("BTC-USD", 300, 2), None);
    assert_eq!(tracker.check_candle("ETH-USD", 600, 9), None);
    assert_eq!(tracker.check_candle("BTC-USD", 600, 3), Some(2));
    assert_eq!(tracker.check_candle("BTC-USD", 300, 4), None);
    assert_eq!(tracker.check_candle("BTC-USD", 900, 5), Some(4));
    assert_eq!(tracker.check_candle("ETH-USD", 900, 10), Some(9));
}

#[test]
fn tracker_acts_on_the_newest_update_of_a_message() {
    let mut tracker: TaskTracker<u32> = TaskTracker::new();
    assert!(tracker.process_updates(vec![], 1000).is_none());
    assert!(tracker.process_updates(vec![update("A", 300, 1), update("A", 0, 7)], 1000).is_none());
    let done = tracker
        .process_updates(vec![update("B", 0, 2), update("A", 600, 3)], 1250)
        .unwrap();
    assert_eq!(done.current_start, 1200);
    assert_eq!(done.product_id, "A");
    assert_eq!(done.candle, 1);
    assert!(tracker.message_callback(vec![update("A", 600, 4)]).is_none());
}

#[test]
fn window_start_rounds_down_to_ten_minutes() {
    assert_eq!(current_window_start(0), 0);
    assert_eq!(current_window_start(599), 0);
    assert_eq!(current_window_start(600), 600);
    assert_eq!(current_window_start(1_700_000_123), 1_699_999_800);
}

#[test]
fn rest_client_is_authenticated_with_key_and_secret() {
    let client = RestClientBuilder::new().build();
    assert!(!client.is_authenticated());
    assert!(!client.uses_sandbox());
    let client = RestClientBuilder::new().with_authentication("k", "s").use_sandbox(true).build();
    assert!(client.is_authenticated());
    assert!(client.uses_sandbox());
    let (k, s) = client.credentials().unwrap();
    assert_eq!((k.as_str(), s.as_str()), ("k", "s"));
    let config = CoinbaseConfig { api_key: "a".to_string(), api_secret: "b".to_string(), use_sandbox: false };
    let client = RestClientBuilder::default().use_sandbox(true).with_config(&config).build();
    assert!(client.is_authenticated());
    assert!(!client.uses_sandbox());
}

#[test]
fn request_addresses_and_statuses() {
    assert_eq!(
        request_url("api.coinbase.com", "/api/v3/brokerage/products", "?limit=5"),
        "https://api.coinbase.com/api/v3/brokerage/products?limit=5"
    );
    assert_eq!(request_url("h", "/r", ""), "https://h/r");
    assert!(status_outcome(200, None).is_ok());
    match status_outcome(404, Some("not found")) {
        Err(CbError::BadStatus(m)) => assert_eq!(m, "Status Code: 404, not found"),
        _ => panic!("a failed status is an error"),
    }
    match status_outcome(500, None) {
        Err(CbError::BadStatus(m)) => assert_eq!(m, "Status Code: 500, could not parse error message"),
        _ => panic!("a failed status is an error"),
    }
}
