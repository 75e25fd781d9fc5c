use nautilus_alpaca::{
    common::{
        enums::AlpacaDataFeed,
        model::{BarAggregation, BarSpecification, PriceType},
        session::SessionCalendar,
    },
    config::AlpacaDataClientConfig,
    data::{
        calendar_window, feed_for, historical_bars_params, poll_params, poll_schedule, validate_bar_subscription,
        unsupported, window_start, BarSubscriptions, SubscribeError, UnsupportedData, MAX_BAR_PAGES,
    },
    http::parse::{parse_rfc3339_nanos, TimeframeError},
};

fn spec(step: u64, aggregation: BarAggregation) -> BarSpecification {
    BarSpecification { step, aggregation, price_type: PriceType::Last }
}

fn key(symbol: &str, step: u64, aggregation: BarAggregation) -> String {
    format!("{symbol}.ALPACA-{step}-{aggregation:?}-LAST-EXTERNAL")
}

fn subscribe(subs: &mut BarSubscriptions, symbol: &str, step: u64, aggregation: BarAggregation) -> bool {
    subs.insert(&key(symbol, step, aggregation), symbol, spec(step, aggregation))
}

#[test]
fn test_insert_is_idempotent() {
    let mut subs = BarSubscriptions::new();
    assert!(subscribe(&mut subs, "AAPL", 1, BarAggregation::Minute));
    assert!(!subscribe(&mut subs, "AAPL", 1, BarAggregation::Minute));
}

#[test]
fn test_remove_reports_whether_it_was_present() {
    let mut subs = BarSubscriptions::new();
    subscribe(&mut subs, "AAPL", 1, BarAggregation::Minute);
    let k = key("AAPL", 1, BarAggregation::Minute);
    assert!(subs.remove(&k));
    assert!(!subs.remove(&k));
    assert!(subs.is_empty());
}

#[test]
fn test_symbols_sharing_a_timeframe_are_grouped_into_one_request() {
    let mut subs = BarSubscriptions::new();
    subscribe(&mut subs, "AAPL", 1, BarAggregation::Minute);
    subscribe(&mut subs, "MSFT", 1, BarAggregation::Minute);
    subscribe(&mut subs, "AAPL", 5, BarAggregation::Minute);

    let groups = subs.by_timeframe();
    assert_eq!(groups.len(), 2);
    let one = groups.iter().find(|g| g.timeframe == "1Min").unwrap();
    let five = groups.iter().find(|g| g.timeframe == "5Min").unwrap();
    assert_eq!(one.keys.len(), 2);
    assert_eq!(five.keys.len(), 1);
}

#[test]
fn test_unpollable_timeframes_are_dropped_from_grouping() {
    let mut subs = BarSubscriptions::new();
    subscribe(&mut subs, "AAPL", 1, BarAggregation::Minute);
    subscribe(&mut subs, "AAPL", 1, BarAggregation::Second);
    let groups = subs.by_timeframe();
    assert_eq!(groups.len(), 1);
    assert_eq!(groups[0].timeframe, "1Min");
}

#[test]
fn test_first_bar_for_a_subscription_is_new() {
    let mut subs = BarSubscriptions::new();
    subscribe(&mut subs, "AAPL", 1, BarAggregation::Minute);
    assert!(subs.is_new(&key("AAPL", 1, BarAggregation::Minute), 100));
}

#[test]
fn test_rolling_window_does_not_republish_seen_bars() {
    let mut subs = BarSubscriptions::new();
    subscribe(&mut subs, "AAPL", 1, BarAggregation::Minute);
    let k = key("AAPL", 1, BarAggregation::Minute);
    subs.advance(&k, 200);
    assert!(!subs.is_new(&k, 100));
    assert!(!subs.is_new(&k, 200));
    assert!(subs.is_new(&k, 300));
}

#[test]
fn test_watermark_never_moves_backwards() {
    let mut subs = BarSubscriptions::new();
    subscribe(&mut subs, "AAPL", 1, BarAggregation::Minute);
    let k = key("AAPL", 1, BarAggregation::Minute);
    subs.advance(&k, 300);
    subs.advance(&k, 100);
    assert!(!subs.is_new(&k, 200));
}

#[test]
fn test_bars_for_an_unsubscribed_type_are_never_new() {
    let subs = BarSubscriptions::new();
    assert!(!subs.is_new(&key("AAPL", 1, BarAggregation::Minute), 100));
}

#[test]
fn test_advance_on_an_unsubscribed_type_is_a_no_op() {
    let mut subs = BarSubscriptions::new();
    subs.advance(&key("AAPL", 1, BarAggregation::Minute), 100);
    assert!(subs.is_empty());
}

#[test]
fn test_watermarks_are_independent_per_bar_type() {
    let mut subs = BarSubscriptions::new();
    subscribe(&mut subs, "AAPL", 1, BarAggregation::Minute);
    subscribe(&mut subs, "MSFT", 1, BarAggregation::Minute);
    subs.advance(&key("AAPL", 1, BarAggregation::Minute), 500);
    assert!(!subs.is_new(&key("AAPL", 1, BarAggregation::Minute), 400));
    assert!(subs.is_new(&key("MSFT", 1, BarAggregation::Minute), 400));
}

#[test]
fn test_poll_selects_each_new_close_once_in_order() {
    let mut subs = BarSubscriptions::new();
    subscribe(&mut subs, "AAPL", 1, BarAggregation::Minute);
    let k = key("AAPL", 1, BarAggregation::Minute);
    // Out of order, with a repeat: dispatch 100, 200, 300 once each, at first occurrence.
    let closes = vec![300, 100, 200, 100, 300];
    let picks = subs.new_bars(&k, &closes);
    assert_eq!(picks, vec![1, 2, 0]);
    for i in &picks {
        subs.advance(&k, closes[*i]);
    }
    // The same window polled again republishes nothing.
    assert!(subs.new_bars(&k, &closes).is_empty());
    assert_eq!(subs.new_bars(&k, &vec![250, 400]), vec![1]);
    assert!(subs.new_bars(&key("MSFT", 1, BarAggregation::Minute), &closes).is_empty());
}

#[test]
fn test_window_start_precedes_now_by_the_configured_span() {
    let now = 1_000 * 60 * 1_000_000_000;
    let start = window_start(now, 5).unwrap();
    assert_eq!(parse_rfc3339_nanos(&start), Ok(now - 5 * 60 * 1_000_000_000));
    assert_eq!(start, "1970-01-01T16:35:00Z");
}

#[test]
fn test_window_start_saturates_at_the_epoch() {
    assert_eq!(window_start(0, 5).as_deref(), Some("1970-01-01T00:00:00Z"));
    assert!(window_start(0, u64::MAX).is_none());
}

#[test]
fn test_rfc3339_formatting_round_trips() {
    let ts = 1_786_717_800_000_000_000;
    let params = poll_params(&vec!["AAPL".to_string()], "1Min", AlpacaDataFeed::Sip, ts, 5).unwrap();
    let end = params.end.clone().unwrap();
    assert_eq!(parse_rfc3339_nanos(&end), Ok(ts));
    assert_eq!(params.symbols, "AAPL");
    assert_eq!(params.feed, Some(AlpacaDataFeed::Sip));
}

#[test]
fn test_poll_schedule_is_at_least_one() {
    let mut config = AlpacaDataClientConfig::default();
    assert_eq!(poll_schedule(&config).interval_secs, 15);
    config.poll_interval_secs = 0;
    config.poll_window_mins = 0;
    let schedule = poll_schedule(&config);
    assert_eq!((schedule.interval_secs, schedule.window_mins), (1, 1));
    assert_eq!(MAX_BAR_PAGES, 20);
}

#[test]
fn test_feed_falls_back_outside_any_session() {
    let calendar = SessionCalendar::new();
    assert_eq!(feed_for(&calendar, 0, AlpacaDataFeed::Boats), AlpacaDataFeed::Boats);
}

#[test]
fn test_subscription_validation() {
    assert_eq!(validate_bar_subscription(spec(1, BarAggregation::Minute), true), Ok("1Min".to_string()));
    assert_eq!(
        validate_bar_subscription(spec(1, BarAggregation::Second), true),
        Err(SubscribeError::Timeframe(TimeframeError::UnsupportedAggregation(BarAggregation::Second)))
    );
    assert_eq!(
        validate_bar_subscription(spec(1, BarAggregation::Minute), false),
        Err(SubscribeError::InstrumentNotLoaded)
    );
}

#[test]
fn test_historical_request() {
    let params = historical_bars_params(
        "AAPL".to_string(),
        spec(1, BarAggregation::Day),
        AlpacaDataFeed::Boats,
        Some("2026-01-01T00:00:00Z".to_string()),
        None,
        Some(5_000_000_000),
    )
    .unwrap();
    assert_eq!(params.timeframe, "1Day");
    assert_eq!(params.symbols, "AAPL");
    assert_eq!(params.limit, None);
    assert_eq!(params.start.as_deref(), Some("2026-01-01T00:00:00Z"));
    assert!(historical_bars_params("AAPL".to_string(), spec(1, BarAggregation::Tick), AlpacaDataFeed::Boats, None, None, Some(10)).is_err());
}

#[test]
fn test_unsupported_data_is_refused_with_a_reason() {
    assert_eq!(
        unsupported(UnsupportedData::Quotes),
        "Alpaca quotes are not available over the REST polling transport; they require the market data WebSocket"
    );
    assert!(unsupported(UnsupportedData::InstrumentStatus).contains("instrument status updates"));
}

#[test]
fn test_calendar_window_reaches_back_a_day() {
    // 2026-08-19T02:00:00Z is still 18 August in New York.
    let params = calendar_window(1_787_104_800_000_000_000, 14).unwrap();
    assert_eq!(params.start.as_deref(), Some("2026-08-17"));
    assert_eq!(params.end.as_deref(), Some("2026-09-01"));
    let params = calendar_window(1_787_104_800_000_000_000, 0).unwrap();
    assert_eq!(params.end.as_deref(), Some("2026-08-18"));
}

#[test]
fn test_successive_polls_dispatch_each_bar_once() {
    let mut subs = BarSubscriptions::new();
    subscribe(&mut subs, "AAPL", 1, BarAggregation::Minute);
    let k = key("AAPL", 1, BarAggregation::Minute);
    // The first poll's window holds three bars, out of order and with a repeat.
    let first = vec![300, 100, 200, 300];
    assert_eq!(subs.dispatch(&k, &first), vec![1, 2, 0]);
    // The next window overlaps the first: only the bar after the last dispatched one goes out.
    let second = vec![200, 300, 400];
    assert_eq!(subs.dispatch(&k, &second), vec![2]);
    assert!(subs.dispatch(&k, &second).is_empty());
    assert!(!subs.is_new(&k, 400));
    assert!(subs.is_new(&k, 401));
    // A bar type that is not subscribed gets nothing.
    assert!(subs.dispatch(&key("MSFT", 1, BarAggregation::Minute), &second).is_empty());
}
