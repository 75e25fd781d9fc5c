use nautilus_alpaca::{
    common::{
        enums::AlpacaDataFeed,
        session::{
            market_datetime_to_utc, parse_venue_time, AlpacaSession, CivilDate, MarketDateTime, SessionCalendar, TradingDay,
            WallTime,
        },
    },
    data::calendar_window,
    http::models::CalendarDay,
};

fn date(year: i16, month: i8, day: i8) -> CivilDate {
    CivilDate { year, month, day }
}

fn time(hour: i8, minute: i8) -> WallTime {
    WallTime { hour, minute, second: 0, subsec_nanosecond: 0 }
}

fn day(date: &str, session: bool) -> CalendarDay {
    CalendarDay {
        date: date.to_string(),
        open: "09:30".to_string(),
        close: "16:00".to_string(),
        session_open: session.then(|| "0400".to_string()),
        session_close: session.then(|| "2000".to_string()),
        settlement_date: None,
    }
}

/// Friday 14 August 2026 and the following Monday to Wednesday.
fn calendar() -> SessionCalendar {
    let days = vec![
        day("2026-08-14", true),
        day("2026-08-17", true),
        day("2026-08-18", true),
        day("2026-08-19", true),
    ];
    SessionCalendar::from_calendar_days(&days)
}

/// An instant from an Eastern wall-clock date and time.
fn et(y: i16, m: i8, d: i8, hh: i8, mm: i8) -> u64 {
    market_datetime_to_utc(MarketDateTime { date: date(y, m, d), time: time(hh, mm) }).unwrap()
}

#[test]
fn test_both_venue_time_formats_parse() {
    for (raw, hour, minute) in [("09:30", 9, 30), ("16:00", 16, 0), ("0400", 4, 0), ("2000", 20, 0)] {
        assert_eq!(parse_venue_time(raw), Some(time(hour, minute)), "{raw}");
    }
}

#[test]
fn test_malformed_venue_times_are_rejected() {
    for raw in ["", "930", "09:30:00", "abcd", "25:00", "0960"] {
        assert!(parse_venue_time(raw).is_none(), "{raw}");
    }
}

#[test]
fn test_calendar_parses_canonical_payload() {
    let calendar = calendar();
    assert_eq!(calendar.len(), 4);
    let friday: &TradingDay = calendar.trading_day(date(2026, 8, 14)).unwrap();
    assert_eq!(friday.open, time(9, 30));
    assert_eq!(friday.close, time(16, 0));
    assert_eq!(friday.session_open, time(4, 0));
    assert_eq!(friday.session_close, time(20, 0));
}

#[test]
fn test_weekend_is_not_a_trading_day() {
    let calendar = calendar();
    assert!(!calendar.is_trading_day(date(2026, 8, 15)));
    assert!(!calendar.is_trading_day(date(2026, 8, 16)));
    assert!(calendar.is_trading_day(date(2026, 8, 17)));
}

#[test]
fn test_session_boundaries_on_a_trading_day() {
    let calendar = calendar();
    for (hour, minute, expected) in [
        (3, 30, AlpacaSession::Overnight),
        (4, 0, AlpacaSession::PreMarket),
        (9, 29, AlpacaSession::PreMarket),
        (9, 30, AlpacaSession::Regular),
        (15, 59, AlpacaSession::Regular),
        (16, 0, AlpacaSession::AfterHours),
        (19, 59, AlpacaSession::AfterHours),
        (20, 0, AlpacaSession::Overnight),
        (23, 30, AlpacaSession::Overnight),
    ] {
        assert_eq!(calendar.session_at(et(2026, 8, 18, hour, minute)), expected, "{hour}:{minute}");
    }
}

#[test]
fn test_sunday_evening_opens_the_week() {
    let calendar = calendar();
    assert!(!calendar.is_trading_day(date(2026, 8, 16)));
    assert_eq!(calendar.session_at(et(2026, 8, 16, 21, 0)), AlpacaSession::Overnight);
}

#[test]
fn test_friday_evening_is_closed() {
    assert_eq!(calendar().session_at(et(2026, 8, 14, 21, 0)), AlpacaSession::Closed);
}

#[test]
fn test_saturday_is_closed_all_day() {
    let calendar = calendar();
    for hour in [1, 6, 12, 18, 22] {
        assert_eq!(calendar.session_at(et(2026, 8, 15, hour, 0)), AlpacaSession::Closed, "hour {hour}");
    }
}

#[test]
fn test_monday_small_hours_are_overnight() {
    assert_eq!(calendar().session_at(et(2026, 8, 17, 2, 0)), AlpacaSession::Overnight);
}

#[test]
fn test_feed_selection() {
    for (session, expected) in [
        (AlpacaSession::Overnight, Some(AlpacaDataFeed::Boats)),
        (AlpacaSession::PreMarket, Some(AlpacaDataFeed::Sip)),
        (AlpacaSession::Regular, Some(AlpacaDataFeed::Sip)),
        (AlpacaSession::AfterHours, Some(AlpacaDataFeed::Sip)),
        (AlpacaSession::Closed, None),
    ] {
        assert_eq!(session.feed(), expected);
    }
}

#[test]
fn test_extended_hours_classification() {
    for (session, expected) in [
        (AlpacaSession::PreMarket, true),
        (AlpacaSession::AfterHours, true),
        (AlpacaSession::Regular, false),
        (AlpacaSession::Overnight, false),
    ] {
        assert_eq!(session.is_extended_hours(), expected);
    }
    assert!(!AlpacaSession::Closed.is_open());
    assert!(AlpacaSession::Overnight.is_open());
}

#[test]
fn test_empty_calendar_reports_closed() {
    assert_eq!(SessionCalendar::new().session_at(et(2026, 8, 18, 12, 0)), AlpacaSession::Closed);
    assert!(SessionCalendar::new().is_empty());
}

#[test]
fn test_dst_spring_forward_gap_is_rejected() {
    let gap = MarketDateTime { date: date(2026, 3, 8), time: time(2, 30) };
    assert!(market_datetime_to_utc(gap).is_none());
}

#[test]
fn test_dst_fall_back_fold_resolves_to_first_occurrence() {
    let ts = market_datetime_to_utc(MarketDateTime { date: date(2026, 11, 1), time: time(1, 30) }).unwrap();
    let later = market_datetime_to_utc(MarketDateTime { date: date(2026, 11, 1), time: time(2, 30) }).unwrap();
    assert!(ts < later);
    // 01:30 EDT is 05:30 UTC, the first of the two occurrences.
    assert_eq!(ts, 1_793_511_000_000_000_000);
}

#[test]
fn test_session_boundary_holds_across_dst_transition() {
    let calendar = SessionCalendar::from_calendar_days(&[day("2026-03-09", true), day("2026-03-10", true)]);
    assert_eq!(calendar.session_at(et(2026, 3, 9, 19, 59)), AlpacaSession::AfterHours);
    assert_eq!(calendar.session_at(et(2026, 3, 9, 20, 0)), AlpacaSession::Overnight);
}

#[test]
fn test_unparseable_calendar_entry_is_skipped_not_fatal() {
    let mut bad = day("not-a-date", false);
    bad.session_open = None;
    let days = vec![bad, day("2026-08-18", true)];
    assert_eq!(SessionCalendar::from_calendar_days(&days).len(), 1);
}

#[test]
fn test_session_open_defaults_to_regular_open_when_absent() {
    let calendar = SessionCalendar::from_calendar_days(&[day("2026-08-18", false)]);
    let d = calendar.trading_day(date(2026, 8, 18)).unwrap();
    assert_eq!(d.session_open, d.open);
    assert_eq!(d.session_close, d.close);
    assert_eq!(calendar.session_at(et(2026, 8, 18, 5, 0)), AlpacaSession::Closed);
}

#[test]
fn test_wall_clock_and_dates() {
    // 2026-08-18T13:30:00Z is 09:30 in New York (EDT): the regular open.
    assert_eq!(calendar().session_at(1_787_059_800_000_000_000), AlpacaSession::Regular);
    assert_eq!(calendar().session_at(1_787_059_799_999_999_999), AlpacaSession::PreMarket);
    let parsed = SessionCalendar::from_calendar_days(&[day("2026-08-18", true), day("2026-02-30", true)]);
    assert_eq!(parsed.len(), 1);
    assert!(parsed.trading_day(date(2026, 8, 18)).is_some());
    // The evening overnight session looks up the following date, across month and year ends.
    let new_year = SessionCalendar::from_calendar_days(&[day("2027-01-01", true), day("2024-02-29", true)]);
    assert_eq!(new_year.session_at(et(2026, 12, 31, 21, 0)), AlpacaSession::Overnight);
    assert_eq!(new_year.session_at(et(2024, 2, 28, 21, 0)), AlpacaSession::Overnight);
    assert_eq!(new_year.session_at(et(2024, 2, 27, 21, 0)), AlpacaSession::Closed);
    assert_eq!(calendar().feed_at(et(2026, 8, 18, 22, 0)), Some(AlpacaDataFeed::Boats));
    assert_eq!(calendar().feed_at(et(2026, 8, 18, 10, 0)), Some(AlpacaDataFeed::Sip));
    assert_eq!(calendar().feed_at(et(2026, 8, 15, 10, 0)), None);
}

#[test]
fn test_date_arithmetic_and_text() {
    let window = |y, m, dd, lookahead| {
        let p = calendar_window(et(y, m, dd, 12, 0), lookahead).unwrap();
        (p.start.unwrap(), p.end.unwrap())
    };
    assert_eq!(window(2026, 3, 1, 0), ("2026-02-28".to_string(), "2026-03-01".to_string()));
    assert_eq!(window(2024, 3, 1, 1), ("2024-02-29".to_string(), "2024-03-02".to_string()));
    assert_eq!(window(2026, 1, 1, 365), ("2025-12-31".to_string(), "2027-01-01".to_string()));
    assert_eq!(window(2026, 8, 18, 14), ("2026-08-17".to_string(), "2026-09-01".to_string()));
}
