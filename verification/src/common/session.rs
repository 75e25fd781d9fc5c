//! US equity trading sessions and the calendar that resolves them.
//!
//! All boundaries are US Eastern wall-clock times. The overnight session (20:00-04:00 Eastern,
//! served by the Blue Ocean ATS) is attributed to the trading day it precedes, so Sunday evening
//! opens the week and Friday evening closes it.

use std::collections::BTreeMap;

use jiff::tz::{AmbiguousOffset, TimeZoneDatabase};
use vstd::prelude::*;

use crate::{common::enums::AlpacaDataFeed, http::models::CalendarDay};

verus! {

/// A trading session.
#[derive(Copy, Clone, Debug, PartialEq, Eq, Hash, Structural)]
pub enum AlpacaSession {
    /// Blue Ocean ATS overnight session, 20:00-04:00 Eastern.
    Overnight,
    /// Pre-market, from the extended session open to the regular open.
    PreMarket,
    /// Regular session.
    Regular,
    /// After-hours, from the regular close to the extended session close.
    AfterHours,
    /// No session is running.
    Closed,
}

/// The market data feed carrying a session.
pub open spec fn spec_session_feed(session: AlpacaSession) -> Option<AlpacaDataFeed> {
    match session {
        AlpacaSession::Overnight => Some(AlpacaDataFeed::Boats),
        AlpacaSession::PreMarket | AlpacaSession::Regular | AlpacaSession::AfterHours => Some(
            AlpacaDataFeed::Sip,
        ),
        AlpacaSession::Closed => None,
    }
}

impl AlpacaSession {
    /// Returns the market data feed carrying this session, if any.
    pub fn feed(self) -> (res: Option<AlpacaDataFeed>)
        ensures
            res == spec_session_feed(self),
    {
        match self {
            Self::Overnight => Some(AlpacaDataFeed::Boats),
            Self::PreMarket | Self::Regular | Self::AfterHours => Some(AlpacaDataFeed::Sip),
            Self::Closed => None,
        }
    }

    /// Returns true when orders in this session require the extended-hours flag.
    pub fn is_extended_hours(self) -> (res: bool)
        ensures
            res == (self == AlpacaSession::PreMarket || self == AlpacaSession::AfterHours),
    {
        matches!(self, Self::PreMarket | Self::AfterHours)
    }

    /// Returns true when any trading is possible in this session.
    pub fn is_open(self) -> (res: bool)
        ensures
            res == (self != AlpacaSession::Closed),
    {
        !matches!(self, Self::Closed)
    }
}

} // verus!

verus! {

broadcast use vstd::std_specs::btree::group_btree_axioms, vstd::laws_cmp::group_laws_cmp;

/// The IANA name of the market's time zone.
pub const MARKET_TIMEZONE: &'static str = "America/New_York";

/// A civil (calendar) date, as the time zone database reports it.
#[derive(Copy, Clone, Debug, PartialEq, Eq, Hash, Structural)]
pub struct CivilDate {
    /// Year, -9999 to 9999.
    pub year: i16,
    /// Month, 1 to 12.
    pub month: i8,
    /// Day of the month, from 1.
    pub day: i8,
}

/// Gregorian leap year.
pub open spec fn is_leap_year(year: int) -> bool {
    (year % 4 == 0 && year % 100 != 0) || year % 400 == 0
}

/// Days in a month of the Gregorian calendar.
pub open spec fn days_in_month(year: int, month: int) -> int {
    if month == 2 {
        if is_leap_year(year) { 29 } else { 28 }
    } else if month == 4 || month == 6 || month == 9 || month == 11 {
        30
    } else {
        31
    }
}

/// A date that exists in the supported range.
pub open spec fn valid_date(d: CivilDate) -> bool {
    &&& -9999 <= d.year <= 9999
    &&& 1 <= d.month <= 12
    &&& 1 <= d.day <= days_in_month(d.year as int, d.month as int)
}

/// The last supported date.
pub open spec fn is_max_date(d: CivilDate) -> bool {
    d.year == 9999 && d.month == 12 && d.day == 31
}

/// The day after a date; the last supported date has no successor and maps to itself.
pub open spec fn next_date(d: CivilDate) -> CivilDate {
    if is_max_date(d) {
        d
    } else if d.day < days_in_month(d.year as int, d.month as int) {
        CivilDate { day: (d.day + 1) as i8, ..d }
    } else if d.month < 12 {
        CivilDate { month: (d.month + 1) as i8, day: 1, ..d }
    } else {
        CivilDate { year: (d.year + 1) as i16, month: 1, day: 1 }
    }
}

/// The calendar key of a date; keys order as dates do.
pub open spec fn date_key(d: CivilDate) -> (i16, i8, i8) {
    (d.year, d.month, d.day)
}

/// A wall-clock time of day, as the time zone database reports it.
#[derive(Copy, Clone, Debug, PartialEq, Eq, Hash, Structural)]
pub struct WallTime {
    /// Hour, 0 to 23.
    pub hour: i8,
    /// Minute, 0 to 59.
    pub minute: i8,
    /// Second, 0 to 59.
    pub second: i8,
    /// Fraction of the second in nanoseconds, 0 to 999,999,999.
    pub subsec_nanosecond: i32,
}

/// A time of day that exists.
pub open spec fn valid_time(t: WallTime) -> bool {
    &&& 0 <= t.hour < 24
    &&& 0 <= t.minute < 60
    &&& 0 <= t.second < 60
    &&& 0 <= t.subsec_nanosecond < 1_000_000_000
}

/// Nanoseconds since midnight; times order by it.
pub open spec fn nanos_of_day(t: WallTime) -> int {
    ((t.hour * 60 + t.minute) * 60 + t.second) * 1_000_000_000 + t.subsec_nanosecond
}

/// The time at a whole hour and minute.
pub open spec fn hm(hour: int, minute: int) -> WallTime {
    WallTime { hour: hour as i8, minute: minute as i8, second: 0, subsec_nanosecond: 0 }
}

/// Start of the overnight session, 20:00 Eastern.
pub open spec fn overnight_open() -> WallTime {
    hm(20, 0)
}

/// End of the overnight session, 04:00 Eastern.
pub open spec fn overnight_close() -> WallTime {
    hm(4, 0)
}

/// Returns nanoseconds since midnight for a valid time.
pub fn time_nanos(t: WallTime) -> (res: u64)
    requires
        valid_time(t),
    ensures
        res == nanos_of_day(t),
{
    ((t.hour as u64 * 60 + t.minute as u64) * 60 + t.second as u64) * 1_000_000_000
        + t.subsec_nanosecond as u64
}

/// A date and wall-clock time in the market's time zone.
#[derive(Copy, Clone, Debug, PartialEq, Eq, Hash, Structural)]
pub struct MarketDateTime {
    /// The date.
    pub date: CivilDate,
    /// The time of day.
    pub time: WallTime,
}

/// One trading day's session boundaries, in Eastern wall-clock time.
#[derive(Copy, Clone, Debug, PartialEq, Eq, Hash, Structural)]
pub struct TradingDay {
    /// The trading date.
    pub date: CivilDate,
    /// Regular session open.
    pub open: WallTime,
    /// Regular session close.
    pub close: WallTime,
    /// Extended session open; the pre-market boundary.
    pub session_open: WallTime,
    /// Extended session close; the after-hours boundary.
    pub session_close: WallTime,
}

/// A trading day whose date and times exist.
pub open spec fn valid_trading_day(t: TradingDay) -> bool {
    &&& valid_date(t.date)
    &&& valid_time(t.open)
    &&& valid_time(t.close)
    &&& valid_time(t.session_open)
    &&& valid_time(t.session_close)
}

/// The session in effect at a market-local instant, given the trading days by date.
///
/// The overnight session belongs to the trading day it precedes: an evening instant resolves
/// through the following date and an early-morning one through its own. A date the calendar
/// does not hold is closed.
pub open spec fn spec_session_at(days: Map<(i16, i8, i8), TradingDay>, dt: MarketDateTime) -> AlpacaSession {
    let t = nanos_of_day(dt.time);
    if t >= nanos_of_day(overnight_open()) {
        if days.contains_key(date_key(next_date(dt.date))) {
            AlpacaSession::Overnight
        } else {
            AlpacaSession::Closed
        }
    } else if t < nanos_of_day(overnight_close()) {
        if days.contains_key(date_key(dt.date)) {
            AlpacaSession::Overnight
        } else {
            AlpacaSession::Closed
        }
    } else if !days.contains_key(date_key(dt.date)) {
        AlpacaSession::Closed
    } else {
        let day = days[date_key(dt.date)];
        if t < nanos_of_day(day.session_open) || t >= nanos_of_day(day.session_close) {
            AlpacaSession::Closed
        } else if t < nanos_of_day(day.open) {
            AlpacaSession::PreMarket
        } else if t < nanos_of_day(day.close) {
            AlpacaSession::Regular
        } else {
            AlpacaSession::AfterHours
        }
    }
}

/// What the time zone database reports for an instant given in nanoseconds since the Unix
/// epoch: the market-local year, month, day, hour, minute, second and subsecond nanoseconds.
pub uninterp spec fn market_wall_clock(nanos: u64) -> Option<(i16, i8, i8, i8, i8, i8, i32)>;

/// The market-local date and time that a reading of the time zone database spells.
pub open spec fn wall_clock_datetime(r: (i16, i8, i8, i8, i8, i8, i32)) -> MarketDateTime {
    MarketDateTime {
        date: CivilDate { year: r.0, month: r.1, day: r.2 },
        time: WallTime { hour: r.3, minute: r.4, second: r.5, subsec_nanosecond: r.6 },
    }
}

/// Converts an instant to the market's wall clock with the bundled IANA database
/// (`jiff::Timestamp::from_nanosecond` and `TimeZone::to_datetime` for `America/New_York`).
///
/// The reading is the named function of the instant; a civil datetime always holds an existing
/// date and time. `None` when the instant is out of range or the zone is missing.
#[verifier::external_body]
pub(crate) fn market_datetime_at(nanos: u64) -> (res: Option<MarketDateTime>)
    ensures
        res matches Some(dt) ==> market_wall_clock(nanos) matches Some(r) && dt
            == wall_clock_datetime(r) && valid_date(dt.date) && valid_time(dt.time),
        res is None ==> market_wall_clock(nanos) is None,
{
    let ts = jiff::Timestamp::from_nanosecond(i128::from(nanos)).ok()?;
    let tz = TimeZoneDatabase::bundled().get(MARKET_TIMEZONE).ok()?;
    let dt = tz.to_datetime(ts);
    Some(MarketDateTime {
        date: CivilDate { year: dt.year(), month: dt.month(), day: dt.day() },
        time: WallTime {
            hour: dt.hour(),
            minute: dt.minute(),
            second: dt.second(),
            subsec_nanosecond: dt.subsec_nanosecond(),
        },
    })
}

/// Returns the day after a date (`jiff::civil::Date::tomorrow`), `None` for the last supported
/// date.
#[verifier::external_body]
pub(crate) fn date_tomorrow(d: CivilDate) -> (res: Option<CivilDate>)
    requires
        valid_date(d),
    ensures
        res matches Some(n) ==> !is_max_date(d) && n == next_date(d),
        res is None ==> is_max_date(d),
{
    let date = jiff::civil::Date::new(d.year, d.month, d.day).ok()?;
    let next = date.tomorrow().ok()?;
    Some(CivilDate { year: next.year(), month: next.month(), day: next.day() })
}

/// The first supported date.
pub open spec fn is_min_date(d: CivilDate) -> bool {
    d.year == -9999 && d.month == 1 && d.day == 1
}

/// The day before a date; the first supported date has no predecessor and maps to itself.
pub open spec fn prev_date(d: CivilDate) -> CivilDate {
    if is_min_date(d) {
        d
    } else if d.day > 1 {
        CivilDate { day: (d.day - 1) as i8, ..d }
    } else if d.month > 1 {
        CivilDate {
            month: (d.month - 1) as i8,
            day: days_in_month(d.year as int, d.month - 1) as i8,
            ..d
        }
    } else {
        CivilDate { year: (d.year - 1) as i16, month: 12, day: 31 }
    }
}

/// The date `n` days after `d`, or `None` when the supported range ends first.
pub open spec fn plus_days(d: CivilDate, n: nat) -> Option<CivilDate>
    decreases n,
{
    if n == 0 {
        Some(d)
    } else if is_max_date(d) {
        None
    } else {
        plus_days(next_date(d), (n - 1) as nat)
    }
}

/// Counting days forward from a supported date only ever lands on supported dates.
pub proof fn lemma_plus_days_valid(d: CivilDate, n: nat)
    requires
        valid_date(d),
    ensures
        plus_days(d, n) matches Some(e) ==> valid_date(e),
    decreases n,
{
    if n > 0 && !is_max_date(d) {
        lemma_plus_days_valid(next_date(d), (n - 1) as nat);
    }
}

/// The most days a span may hold (`jiff::Span::days` panics beyond it).
pub const MAX_SPAN_DAYS: u32 = 7_304_484;

/// Returns the day before a date (`jiff::civil::Date::yesterday`), `None` for the first supported
/// date.
#[verifier::external_body]
pub(crate) fn date_yesterday(d: CivilDate) -> (res: Option<CivilDate>)
    requires
        valid_date(d),
    ensures
        res matches Some(p) ==> !is_min_date(d) && p == prev_date(d),
        res is None ==> is_min_date(d),
{
    let date = jiff::civil::Date::new(d.year, d.month, d.day).ok()?;
    let prev = date.yesterday().ok()?;
    Some(CivilDate { year: prev.year(), month: prev.month(), day: prev.day() })
}

/// Returns the date `n` days later (`jiff::civil::Date::checked_add` with a span of `n` days),
/// `None` when it falls past the last supported date.
#[verifier::external_body]
pub(crate) fn date_plus_days(d: CivilDate, n: u32) -> (res: Option<CivilDate>)
    requires
        valid_date(d),
        n <= MAX_SPAN_DAYS,
    ensures
        res == plus_days(d, n as nat),
{
    let date = jiff::civil::Date::new(d.year, d.month, d.day).ok()?;
    let later = date.checked_add(jiff::Span::new().days(i64::from(n))).ok()?;
    Some(CivilDate { year: later.year(), month: later.month(), day: later.day() })
}

/// `n` in decimal, zero-padded on the left to `width` digits.
pub open spec fn padded(n: nat, width: nat) -> Seq<char> {
    let digits = crate::common::text::decimal(n);
    if digits.len() < width {
        Seq::new((width - digits.len()) as nat, |i: int| '0') + digits
    } else {
        digits
    }
}

/// The ISO 8601 text of a date, as the date's `Display` writes it: `YYYY-MM-DD`, with a year
/// before year zero written `-00YYYY`.
pub open spec fn spec_date_text(d: CivilDate) -> Seq<char> {
    let sign = if d.year < 0 {
        "-00"@
    } else {
        ""@
    };
    let year = if d.year < 0 {
        -d.year
    } else {
        d.year as int
    };
    sign + padded(year as nat, 4) + "-"@ + padded(d.month as nat, 2) + "-"@ + padded(
        d.day as nat,
        2,
    )
}

/// Writes a date in ISO 8601 (`Display` of `jiff::civil::Date`).
#[verifier::external_body]
pub(crate) fn date_to_string(d: CivilDate) -> (res: String)
    requires
        valid_date(d),
    ensures
        res@ == spec_date_text(d),
{
    match jiff::civil::Date::new(d.year, d.month, d.day) {
        Ok(date) => date.to_string(),
        Err(_) => String::new(),
    }
}

/// What `jiff::civil::Date`'s parser yields for a text: year, month and day.
pub uninterp spec fn parsed_civil_date(text: Seq<char>) -> Option<(i16, i8, i8)>;

/// Parses a `YYYY-MM-DD` date with `jiff::civil::Date`'s `FromStr`.
///
/// The result is the named function of the text; a parsed date always exists.
#[verifier::external_body]
pub(crate) fn parse_civil_date(text: &str) -> (res: Option<CivilDate>)
    ensures
        res matches Some(d) ==> parsed_civil_date(text@) == Some((d.year, d.month, d.day))
            && valid_date(d),
        res is None ==> parsed_civil_date(text@) is None,
{
    let date: jiff::civil::Date = text.parse().ok()?;
    Some(CivilDate { year: date.year(), month: date.month(), day: date.day() })
}

/// How a market-local datetime maps onto the timeline.
#[derive(Copy, Clone, Debug, PartialEq, Eq, Structural)]
pub enum LocalResolution {
    /// The datetime happens once; the instant, if representable, in nanoseconds since the epoch.
    Unambiguous(Option<i128>),
    /// The datetime happens twice (autumn transition); the first occurrence, if representable.
    Fold(Option<i128>),
    /// The datetime does not happen (spring transition).
    Gap,
    /// The time zone could not be loaded.
    Unavailable,
}

/// What the time zone database reports for a market-local datetime.
pub uninterp spec fn market_resolution(dt: MarketDateTime) -> LocalResolution;

/// Resolves a market-local datetime against the bundled IANA database
/// (`TimeZone::to_ambiguous_timestamp` for `America/New_York`, then `unambiguous` or `earlier`).
#[verifier::external_body]
pub(crate) fn resolve_market_datetime(dt: MarketDateTime) -> (res: LocalResolution)
    requires
        valid_date(dt.date),
        valid_time(dt.time),
    ensures
        res == market_resolution(dt),
{
    let (d, t) = (dt.date, dt.time);
    let civil = jiff::civil::DateTime::new(d.year, d.month, d.day, t.hour, t.minute, t.second, t.subsec_nanosecond);
    let (Ok(civil), Ok(tz)) = (civil, TimeZoneDatabase::bundled().get(MARKET_TIMEZONE)) else {
        return LocalResolution::Unavailable;
    };
    let amb = tz.to_ambiguous_timestamp(civil);
    match amb.offset() {
        AmbiguousOffset::Unambiguous { .. } => LocalResolution::Unambiguous(amb.unambiguous().ok().map(|x| x.as_nanosecond())),
        AmbiguousOffset::Fold { .. } => LocalResolution::Fold(amb.earlier().ok().map(|x| x.as_nanosecond())),
        AmbiguousOffset::Gap { .. } => LocalResolution::Gap,
    }
}

/// The instant a resolution names, when it is one that fits an unsigned nanosecond count.
pub open spec fn spec_resolution_nanos(r: LocalResolution) -> Option<u64> {
    match r {
        LocalResolution::Unambiguous(Some(n)) | LocalResolution::Fold(Some(n)) => if 0 <= n
            <= u64::MAX {
            Some(n as u64)
        } else {
            None
        },
        _ => None,
    }
}

/// Converts a market-local datetime to nanoseconds since the epoch.
///
/// A repeated hour at the autumn transition resolves to its first occurrence, and the
/// nonexistent hour at the spring transition is rejected rather than shifted into an adjacent
/// session.
pub fn market_datetime_to_utc(dt: MarketDateTime) -> (res: Option<u64>)
    requires
        valid_date(dt.date),
        valid_time(dt.time),
    ensures
        res == spec_resolution_nanos(market_resolution(dt)),
        market_resolution(dt) == LocalResolution::Gap ==> res is None,
{
    match resolve_market_datetime(dt) {
        LocalResolution::Unambiguous(Some(n)) | LocalResolution::Fold(Some(n)) => {
            if 0 <= n && n <= u64::MAX as i128 {
                Some(n as u64)
            } else {
                None
            }
        },
        _ => None,
    }
}

/// Checks that a digit string's characters are ASCII digits.
pub open spec fn is_digit(c: char) -> bool {
    '0' <= c && c <= '9'
}

/// The ASCII digits of a text, in order.
pub open spec fn digits_of(s: Seq<char>) -> Seq<char> {
    s.filter(|c: char| is_digit(c))
}

/// The value of an ASCII digit.
pub open spec fn digit_value(c: char) -> int {
    (c as u32) - ('0' as u32)
}

/// The time a venue time string spells: exactly four digits once separators are dropped,
/// read as `HHMM`, naming an existing time. Both `HH:MM` and `HHMM` are accepted.
pub open spec fn spec_parse_venue_time(raw: Seq<char>) -> Option<WallTime> {
    let d = digits_of(raw);
    if d.len() != 4 {
        None
    } else {
        let hour = digit_value(d[0]) * 10 + digit_value(d[1]);
        let minute = digit_value(d[2]) * 10 + digit_value(d[3]);
        if hour < 24 && minute < 60 {
            Some(hm(hour, minute))
        } else {
            None
        }
    }
}

fn digit_of(c: char) -> (res: i8)
    requires
        is_digit(c),
    ensures
        res == digit_value(c),
        0 <= res <= 9,
{
    let digits = ['0', '1', '2', '3', '4', '5', '6', '7', '8', '9'];
    let mut i: usize = 0;
    while i < 10
        invariant
            i <= 10,
            digits@ == seq!['0', '1', '2', '3', '4', '5', '6', '7', '8', '9'],
            forall|j: int| 0 <= j < i ==> digits@[j] != c,
        decreases 10 - i,
    {
        if digits[i] == c {
            assert(digit_value(c) == i);
            return i as i8;
        }
        i = i + 1;
    }
    assert(false);
    0
}

/// Parses a venue time, `HH:MM` or `HHMM`.
pub fn parse_venue_time(raw: &str) -> (res: Option<WallTime>)
    ensures
        res == spec_parse_venue_time(raw@),
{
    let n = raw.unicode_len();
    let mut digits: Vec<char> = Vec::new();
    let mut i: usize = 0;
    while i < n
        invariant
            n == raw@.len(),
            i <= n,
            digits@ == digits_of(raw@.take(i as int)),
        decreases n - i,
    {
        let c = raw.get_char(i);
        proof {
            let p = |c: char| is_digit(c);
            assert(raw@.take(i + 1).drop_last() =~= raw@.take(i as int));
            reveal_with_fuel(Seq::<char>::filter, 1);
        }
        if '0' <= c && c <= '9' {
            digits.push(c);
        }
        i = i + 1;
    }
    assert(raw@.take(n as int) =~= raw@);
    if digits.len() != 4 {
        return None;
    }
    let hour = digit_of(digits[0]) * 10 + digit_of(digits[1]);
    let minute = digit_of(digits[2]) * 10 + digit_of(digits[3]);
    if hour < 24 && minute < 60 {
        Some(WallTime { hour, minute, second: 0, subsec_nanosecond: 0 })
    } else {
        None
    }
}

} // verus!

verus! {

/// The trading day a venue calendar entry describes, if it parses: the session boundaries
/// default to the regular ones when absent or malformed.
pub open spec fn spec_trading_day_of(day: CalendarDay) -> Option<TradingDay> {
    match parsed_civil_date(day.date@) {
        None => None,
        Some(d) => match (spec_parse_venue_time(day.open@), spec_parse_venue_time(day.close@)) {
            (Some(open), Some(close)) => {
                let session_open = match day.session_open {
                    Some(s) => match spec_parse_venue_time(s@) {
                        Some(t) => t,
                        None => open,
                    },
                    None => open,
                };
                let session_close = match day.session_close {
                    Some(s) => match spec_parse_venue_time(s@) {
                        Some(t) => t,
                        None => close,
                    },
                    None => close,
                };
                Some(
                    TradingDay {
                        date: CivilDate { year: d.0, month: d.1, day: d.2 },
                        open,
                        close,
                        session_open,
                        session_close,
                    },
                )
            },
            _ => None,
        },
    }
}

/// A parsed venue time is an existing whole-minute time.
proof fn lemma_parsed_times_valid()
    ensures
        forall|raw: Seq<char>| #[trigger] spec_parse_venue_time(raw) is Some ==> valid_time(
            spec_parse_venue_time(raw)->0,
        ),
{
}

fn parse_optional_time(raw: &Option<String>, fallback: WallTime) -> (res: WallTime)
    ensures
        res == (match *raw {
            Some(s) => match spec_parse_venue_time(s@) {
                Some(t) => t,
                None => fallback,
            },
            None => fallback,
        }),
{
    match raw {
        Some(s) => match parse_venue_time(s.as_str()) {
            Some(t) => t,
            None => fallback,
        },
        None => fallback,
    }
}

impl TradingDay {
    /// Builds a trading day from a venue calendar entry.
    ///
    /// Returns `None` when the date or a regular session time cannot be parsed, so one
    /// malformed entry drops a single day rather than failing the whole calendar.
    pub fn from_calendar_day(day: &CalendarDay) -> (res: Option<TradingDay>)
        ensures
            res == spec_trading_day_of(*day),
            res matches Some(t) ==> valid_trading_day(t),
    {
        let date = parse_civil_date(day.date.as_str())?;
        let open = parse_venue_time(day.open.as_str())?;
        let close = parse_venue_time(day.close.as_str())?;
        proof {
            lemma_parsed_times_valid();
        }
        let session_open = parse_optional_time(&day.session_open, open);
        let session_close = parse_optional_time(&day.session_close, close);
        Some(TradingDay { date, open, close, session_open, session_close })
    }
}

/// The trading days a list of venue entries yields, keyed by date; malformed entries are
/// skipped and a later entry for the same date replaces an earlier one.
pub open spec fn spec_calendar_of(days: Seq<CalendarDay>) -> Map<(i16, i8, i8), TradingDay>
    decreases days.len(),
{
    if days.len() == 0 {
        Map::empty()
    } else {
        let before = spec_calendar_of(days.drop_last());
        match spec_trading_day_of(days.last()) {
            Some(t) => before.insert(date_key(t.date), t),
            None => before,
        }
    }
}

/// Trading days keyed by date, each under its own date and with existing times.
pub open spec fn well_keyed(days: Map<(i16, i8, i8), TradingDay>) -> bool {
    forall|k: (i16, i8, i8)|
        #[trigger] days.contains_key(k) ==> date_key(days[k].date) == k && valid_trading_day(
            days[k],
        )
}

/// Trading days by date, resolving which session is in effect at any instant.
#[derive(Clone, Debug)]
pub struct SessionCalendar {
    days: BTreeMap<(i16, i8, i8), TradingDay>,
}

impl View for SessionCalendar {
    type V = Map<(i16, i8, i8), TradingDay>;

    closed spec fn view(&self) -> Map<(i16, i8, i8), TradingDay> {
        self.days@
    }
}

impl SessionCalendar {
    /// The calendar's invariant: every trading day is held under its own date.
    pub closed spec fn wf(&self) -> bool {
        well_keyed(self.days@)
    }

    /// Creates an empty calendar.
    pub fn new() -> (res: Self)
        ensures
            res@ == Map::<(i16, i8, i8), TradingDay>::empty(),
            res.wf(),
    {
        SessionCalendar { days: BTreeMap::new() }
    }

    /// Builds a calendar from venue entries, skipping any that cannot be parsed.
    pub fn from_calendar_days(days: &[CalendarDay]) -> (res: Self)
        ensures
            res@ == spec_calendar_of(days@),
            res.wf(),
    {
        let mut map: BTreeMap<(i16, i8, i8), TradingDay> = BTreeMap::new();
        let n = days.len();
        let mut i: usize = 0;
        while i < n
            invariant
                n == days@.len(),
                i <= n,
                map@ == spec_calendar_of(days@.take(i as int)),
                well_keyed(map@),
            decreases n - i,
        {
            proof {
                assert(days@.take(i + 1).drop_last() =~= days@.take(i as int));
            }
            match TradingDay::from_calendar_day(&days[i]) {
                Some(parsed) => {
                    map.insert((parsed.date.year, parsed.date.month, parsed.date.day), parsed);
                },
                None => {},
            }
            i = i + 1;
        }
        assert(days@.take(n as int) =~= days@);
        SessionCalendar { days: map }
    }

    /// Returns the number of trading days held.
    pub fn len(&self) -> (res: usize)
        ensures
            res == self@.len(),
    {
        self.days.len()
    }

    /// Returns true when no trading days are held.
    pub fn is_empty(&self) -> (res: bool)
        ensures
            res == (self@.len() == 0),
    {
        self.days.is_empty()
    }

    /// Returns the trading day for `date`, if the market opens that day.
    pub fn trading_day(&self, date: CivilDate) -> (res: Option<&TradingDay>)
        ensures
            res matches Some(t) ==> self@.contains_key(date_key(date)) && *t == self@[date_key(
                date,
            )],
            res is None ==> !self@.contains_key(date_key(date)),
    {
        self.days.get(&(date.year, date.month, date.day))
    }

    /// Returns true when the market opens on `date`.
    pub fn is_trading_day(&self, date: CivilDate) -> (res: bool)
        ensures
            res == self@.contains_key(date_key(date)),
    {
        self.days.contains_key(&(date.year, date.month, date.day))
    }

    /// Returns the session in effect at a market-local date and time.
    pub fn session_at_local(&self, dt: MarketDateTime) -> (res: AlpacaSession)
        requires
            self.wf(),
            valid_date(dt.date),
            valid_time(dt.time),
        ensures
            res == spec_session_at(self@, dt),
    {
        let t = time_nanos(dt.time);
        if t >= 72_000_000_000_000 {
            let next = match date_tomorrow(dt.date) {
                Some(n) => n,
                None => dt.date,
            };
            return if self.is_trading_day(next) {
                AlpacaSession::Overnight
            } else {
                AlpacaSession::Closed
            };
        }
        if t < 14_400_000_000_000 {
            return if self.is_trading_day(dt.date) {
                AlpacaSession::Overnight
            } else {
                AlpacaSession::Closed
            };
        }
        let day = match self.trading_day(dt.date) {
            Some(day) => day,
            None => {
                return AlpacaSession::Closed;
            },
        };
        proof {
            assert(valid_trading_day(self@[date_key(dt.date)]));
        }
        if t < time_nanos(day.session_open) || t >= time_nanos(day.session_close) {
            AlpacaSession::Closed
        } else if t < time_nanos(day.open) {
            AlpacaSession::PreMarket
        } else if t < time_nanos(day.close) {
            AlpacaSession::Regular
        } else {
            AlpacaSession::AfterHours
        }
    }

    /// Returns the session in effect at an instant, in nanoseconds since the Unix epoch.
    ///
    /// Closed when the instant falls outside every session, and also when the calendar does not
    /// cover it: an unknown date must not be reported as open.
    pub fn session_at(&self, ts: u64) -> (res: AlpacaSession)
        requires
            self.wf(),
        ensures
            res == (match market_wall_clock(ts) {
                Some(r) => spec_session_at(self@, wall_clock_datetime(r)),
                None => AlpacaSession::Closed,
            }),
    {
        match market_datetime_at(ts) {
            Some(dt) => self.session_at_local(dt),
            None => AlpacaSession::Closed,
        }
    }

    /// Returns the market data feed to consume at an instant.
    pub fn feed_at(&self, ts: u64) -> (res: Option<AlpacaDataFeed>)
        requires
            self.wf(),
        ensures
            res == spec_session_feed(
                match market_wall_clock(ts) {
                    Some(r) => spec_session_at(self@, wall_clock_datetime(r)),
                    None => AlpacaSession::Closed,
                },
            ),
    {
        self.session_at(ts).feed()
    }
}

/// A session other than closed is only ever reported on a date the calendar holds: the date
/// itself, or for the evening overnight session the date it precedes.
pub proof fn lemma_open_session_needs_a_trading_day(
    days: Map<(i16, i8, i8), TradingDay>,
    dt: MarketDateTime,
)
    ensures
        spec_session_at(days, dt) != AlpacaSession::Closed ==> days.contains_key(
            date_key(dt.date),
        ) || (nanos_of_day(dt.time) >= nanos_of_day(overnight_open()) && days.contains_key(
            date_key(next_date(dt.date)),
        )),
{
}

/// An empty calendar reports every instant closed.
pub proof fn lemma_empty_calendar_is_closed(dt: MarketDateTime)
    ensures
        spec_session_at(Map::empty(), dt) == AlpacaSession::Closed,
{
}

/// The feed is absent exactly when the session is closed, and the overnight session is served
/// by the overnight feed.
pub proof fn lemma_feed_follows_session(session: AlpacaSession)
    ensures
        spec_session_feed(session) is None <==> session == AlpacaSession::Closed,
        spec_session_feed(session) == Some(AlpacaDataFeed::Boats) <==> session
            == AlpacaSession::Overnight,
{
}

/// On a trading day the regular session runs from its open (inclusive) to its close
/// (exclusive), provided it sits inside the extended session and away from the overnight hours.
pub proof fn lemma_regular_session_bounds(days: Map<(i16, i8, i8), TradingDay>, dt: MarketDateTime)
    requires
        days.contains_key(date_key(dt.date)),
        nanos_of_day(overnight_close()) <= nanos_of_day(dt.time) < nanos_of_day(overnight_open()),
        nanos_of_day(days[date_key(dt.date)].session_open) <= nanos_of_day(
            days[date_key(dt.date)].open,
        ),
        nanos_of_day(days[date_key(dt.date)].close) <= nanos_of_day(
            days[date_key(dt.date)].session_close,
        ),
    ensures
        spec_session_at(days, dt) == AlpacaSession::Regular <==> nanos_of_day(
            days[date_key(dt.date)].open,
        ) <= nanos_of_day(dt.time) < nanos_of_day(days[date_key(dt.date)].close),
{
}

/// Coverage is continuous around a trading day whose extended session meets the overnight
/// hours (04:00 to 20:00): from 20:00 on the evening before it until 20:00 on the day itself,
/// no instant is closed, and the evening hours are the overnight session.
pub proof fn lemma_trading_day_is_covered(
    days: Map<(i16, i8, i8), TradingDay>,
    day: CivilDate,
    dt: MarketDateTime,
)
    requires
        days.contains_key(date_key(day)),
        nanos_of_day(days[date_key(day)].session_open) <= nanos_of_day(overnight_close()),
        nanos_of_day(overnight_open()) <= nanos_of_day(days[date_key(day)].session_close),
    ensures
        dt.date == day && nanos_of_day(dt.time) < nanos_of_day(overnight_open()) ==> spec_session_at(
            days,
            dt,
        ) != AlpacaSession::Closed,
        next_date(dt.date) == day && nanos_of_day(overnight_open()) <= nanos_of_day(dt.time)
            ==> spec_session_at(days, dt) == AlpacaSession::Overnight,
{
}

} // verus!
