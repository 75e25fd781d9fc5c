//! Parsing of venue reference data.

use vstd::prelude::*;

use crate::{
    common::{
        consts::ALPACA,
        decimal::Decimal,
        instrument_info::{build_info, spec_info_of, InstrumentInfo},
        reg_nms::{spec_sub_dollar_increment, sub_dollar_increment, PRICE_PRECISION},
        model::{BarAggregation, BarSpecification},
        text::{decimal, str_equals, u64_to_string},
    },
    http::models::Asset,
};

verus! {

/// The only asset class this adapter loads.
pub const ASSET_CLASS_US_EQUITY: &'static str = "us_equity";

/// The engine's instrument identifier for a symbol on this venue: `SYMBOL.ALPACA`.
pub open spec fn spec_instrument_id(symbol: Seq<char>) -> Seq<char> {
    symbol + "."@ + ALPACA@
}

/// Returns the instrument identifier string for a venue symbol.
pub fn instrument_id(symbol: &str) -> (res: String)
    ensures
        res@ == spec_instrument_id(symbol@),
{
    let mut id = String::from_str(symbol);
    id.append(".");
    id.append(ALPACA);
    id
}

/// Returns true when an asset is loaded as an instrument: a US equity that is both active and
/// tradable.
pub fn is_loadable(asset: &Asset) -> (res: bool)
    ensures
        res == (asset.class@ == ASSET_CLASS_US_EQUITY@ && asset.status@ == "active"@
            && asset.tradable),
{
    str_equals(asset.class.as_str(), ASSET_CLASS_US_EQUITY) && asset.is_tradable_now()
}

/// The venue's unit for each bar aggregation it serves.
pub open spec fn timeframe_unit(aggregation: BarAggregation) -> Option<Seq<char>> {
    match aggregation {
        BarAggregation::Minute => Some("Min"@),
        BarAggregation::Hour => Some("Hour"@),
        BarAggregation::Day => Some("Day"@),
        BarAggregation::Week => Some("Week"@),
        BarAggregation::Month => Some("Month"@),
        _ => None,
    }
}

/// Why a bar specification has no venue timeframe.
#[derive(Copy, Clone, Debug, PartialEq, Eq, Structural)]
pub enum TimeframeError {
    /// The venue's smallest bar is one minute, and it has no non-time bars.
    UnsupportedAggregation(BarAggregation),
}

/// Maps a bar specification to the venue timeframe, e.g. `5Min`.
pub fn bar_spec_to_timeframe(spec: BarSpecification) -> (res: Result<String, TimeframeError>)
    ensures
        res matches Ok(t) ==> timeframe_unit(spec.aggregation) matches Some(u) && t@ == decimal(
            spec.step as nat,
        ) + u,
        res matches Err(e) ==> timeframe_unit(spec.aggregation) is None && e
            == TimeframeError::UnsupportedAggregation(spec.aggregation),
{
    let unit = match spec.aggregation {
        BarAggregation::Minute => "Min",
        BarAggregation::Hour => "Hour",
        BarAggregation::Day => "Day",
        BarAggregation::Week => "Week",
        BarAggregation::Month => "Month",
        other => {
            return Err(TimeframeError::UnsupportedAggregation(other));
        },
    };
    let mut timeframe = u64_to_string(spec.step);
    timeframe.append(unit);
    Ok(timeframe)
}

/// Nanoseconds since the UNIX epoch of an RFC 3339 timestamp, or `None` when the text is not
/// one; as the timestamp parser reads it.
pub uninterp spec fn parsed_timestamp_nanos(text: Seq<char>) -> Option<int>;

/// Parses an RFC 3339 timestamp into signed nanoseconds since the UNIX epoch
/// (`jiff::Timestamp` from text, then `as_nanosecond`).
#[verifier::external_body]
fn timestamp_nanos(raw: &str) -> (res: Option<i128>)
    ensures
        res matches Some(n) ==> parsed_timestamp_nanos(raw@) == Some(n as int),
        res is None <==> parsed_timestamp_nanos(raw@) is None,
{
    match raw.parse::<jiff::Timestamp>() {
        Ok(ts) => Some(ts.as_nanosecond()),
        Err(_) => None,
    }
}

/// Why a timestamp could not be read.
#[derive(Copy, Clone, Debug, PartialEq, Eq, Structural)]
pub enum TimestampError {
    /// The text is not an RFC 3339 timestamp.
    Malformed,
    /// The instant lies before the UNIX epoch or beyond the nanosecond range of a `u64`.
    OutOfRange,
}

/// The outcome of reading an RFC 3339 timestamp as unsigned nanoseconds.
pub open spec fn spec_parse_rfc3339_nanos(raw: Seq<char>) -> Result<u64, TimestampError> {
    match parsed_timestamp_nanos(raw) {
        None => Err(TimestampError::Malformed),
        Some(n) => if 0 <= n <= u64::MAX {
            Ok(n as u64)
        } else {
            Err(TimestampError::OutOfRange)
        },
    }
}

/// Parses an RFC 3339 timestamp into nanoseconds since the UNIX epoch.
///
/// Fails when the timestamp is malformed or outside the representable range.
pub fn parse_rfc3339_nanos(raw: &str) -> (res: Result<u64, TimestampError>)
    ensures
        res == spec_parse_rfc3339_nanos(raw@),
{
    match timestamp_nanos(raw) {
        None => Err(TimestampError::Malformed),
        Some(n) => {
            if 0 <= n && n <= 18446744073709551615i128 {
                Ok(n as u64)
            } else {
                Err(TimestampError::OutOfRange)
            }
        },
    }
}

/// An equity instrument as this adapter defines it, quoted in USD.
///
/// The venue publishes no price increment, so the instrument is sized at the finest increment the
/// regulation permits: precision 4 and an increment of `0.0001`; coarser sizing would have the
/// risk engine deny legitimate sub-dollar limit prices. Orders at or above `$1.00` must still be
/// whole cents, which no single increment expresses and which order submission enforces. There
/// is no lot size (orders start at one share) and no tick scheme.
#[derive(Clone, Debug, PartialEq, Eq)]
pub struct EquityDefinition {
    /// Engine instrument identifier, `SYMBOL.ALPACA`.
    pub instrument_id: String,
    /// Venue symbol.
    pub symbol: String,
    /// Price precision: four decimals.
    pub price_precision: u8,
    /// Price increment: `0.0001`.
    pub price_increment: Decimal,
    /// Quote currency: `USD`.
    pub quote_currency: String,
    /// Size precision: whole shares, zero decimals.
    pub size_precision: u8,
    /// Board lot: none, orders start at one share.
    pub lot_size: Option<Decimal>,
    /// Venue metadata carried on the instrument.
    pub info: InstrumentInfo,
    /// Event time (UNIX nanoseconds): the initialisation time.
    pub ts_event: u64,
    /// Initialisation time (UNIX nanoseconds).
    pub ts_init: u64,
}

impl EquityDefinition {
    /// An equal copy.
    pub fn duplicate(&self) -> (res: Self)
        ensures
            res == *self,
    {
        EquityDefinition {
            instrument_id: self.instrument_id.clone(),
            symbol: self.symbol.clone(),
            price_precision: self.price_precision,
            price_increment: self.price_increment,
            quote_currency: self.quote_currency.clone(),
            size_precision: self.size_precision,
            lot_size: self.lot_size,
            info: self.info.duplicate(),
            ts_event: self.ts_event,
            ts_init: self.ts_init,
        }
    }
}

/// Why an asset cannot become an instrument.
#[derive(Copy, Clone, Debug, PartialEq, Eq, Structural)]
pub enum ParseEquityError {
    /// The asset is not a US equity.
    NotAnEquity,
}

/// True when `e` is the equity definition made from `asset` at `ts_init`.
pub open spec fn spec_equity_of(asset: Asset, e: EquityDefinition, ts_init: u64) -> bool {
    &&& e.instrument_id@ == spec_instrument_id(asset.symbol@)
    &&& e.symbol@ == asset.symbol@
    &&& e.price_precision == PRICE_PRECISION
    &&& e.price_increment == spec_sub_dollar_increment()
    &&& e.quote_currency@ == "USD"@
    &&& e.size_precision == 0
    &&& e.lot_size is None
    &&& spec_info_of(asset, e.info)
    &&& e.ts_event == ts_init
    &&& e.ts_init == ts_init
}

/// Converts a venue asset into an equity instrument definition.
///
/// Fails when the asset is not a US equity.
pub fn parse_equity(asset: &Asset, ts_init: u64) -> (res: Result<EquityDefinition, ParseEquityError>)
    ensures
        res is Err <==> asset.class@ != ASSET_CLASS_US_EQUITY@,
        res matches Ok(e) ==> spec_equity_of(*asset, e, ts_init),
{
    if !str_equals(asset.class.as_str(), ASSET_CLASS_US_EQUITY) {
        return Err(ParseEquityError::NotAnEquity);
    }
    Ok(
        EquityDefinition {
            instrument_id: instrument_id(asset.symbol.as_str()),
            symbol: asset.symbol.clone(),
            price_precision: PRICE_PRECISION,
            price_increment: sub_dollar_increment(),
            quote_currency: String::from_str("USD"),
            size_precision: 0,
            lot_size: None,
            ts_event: ts_init,
            info: build_info(asset),
            ts_init,
        },
    )
}

/// Why a bar's time could not be read.
#[derive(Copy, Clone, Debug, PartialEq, Eq, Structural)]
pub enum BarTimeError {
    /// The open timestamp could not be read.
    Timestamp(TimestampError),
}

/// The instant a venue bar is stamped at: its close.
///
/// The venue stamps a bar with its open time while the engine stamps time bars at their close,
/// so the bar's interval is added (saturating); a bar labelled `14:30` is emitted as `14:31` for
/// a one-minute bar. Emitting the open time would let a strategy act on a bar before the period
/// it covers had finished.
pub fn bar_close_time(open_raw: &str, interval_nanos: u64) -> (res: Result<u64, BarTimeError>)
    ensures
        match (res, spec_parse_rfc3339_nanos(open_raw@)) {
            (Ok(t), Ok(open)) => t == if open + interval_nanos <= u64::MAX {
                (open + interval_nanos) as u64
            } else {
                u64::MAX
            },
            (Err(BarTimeError::Timestamp(e)), Err(f)) => e == f,
            _ => false,
        },
{
    match parse_rfc3339_nanos(open_raw) {
        Ok(open) => Ok(open.saturating_add(interval_nanos)),
        Err(e) => Err(BarTimeError::Timestamp(e)),
    }
}

/// A bar is never stamped before its period has finished: its stamp is at least its open time
/// plus its interval, short of the range's end.
pub proof fn lemma_bars_are_stamped_at_their_close(open: u64, interval_nanos: u64, stamp: u64)
    requires
        stamp == if open + interval_nanos <= u64::MAX {
            (open + interval_nanos) as u64
        } else {
            u64::MAX
        },
    ensures
        stamp >= open,
        open + interval_nanos <= u64::MAX ==> stamp == open + interval_nanos,
{
}

} // verus!
