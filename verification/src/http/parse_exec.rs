//! Parsing of venue execution payloads.

use vstd::prelude::*;

use crate::{
    common::{
        decimal::{abs, from_parts, parse_decimal_str, parsed_decimal, round_to_scale, spec_rounded, Decimal},
        reg_nms::PRICE_PRECISION,
        model::{
            spec_is_open_status, LiquiditySide, OrderSide, OrderStatus, OrderType, PositionSideSpecified,
            TimeInForce,
        },
        order_enums::{
            spec_order_type_to_nautilus, spec_side_to_nautilus, spec_status_to_nautilus,
            spec_tif_to_nautilus, ConversionError,
        },
        text::{trim, trimmed},
    },
    http::{
        models::{
            first_present, opt_ref_view, spec_resolved_order_type, starts_negative,
            AlpacaFillActivity, AlpacaOrder, AlpacaPosition, OrderTypeError,
        },
        parse::{
            instrument_id, parse_rfc3339_nanos, spec_instrument_id, spec_parse_rfc3339_nanos,
            TimestampError,
        },
    },
    websocket::messages::{spec_carries_fill_figures, TradeUpdate},
};

verus! {

/// The longest identifier a trade ID holds, in bytes.
pub const MAX_TRADE_ID_LEN: usize = 36;

/// True when `s` holds the separator `::` at `i`.
pub open spec fn sep_at(s: Seq<char>, i: int) -> bool {
    0 <= i && i + 1 < s.len() && s[i] == ':' && s[i + 1] == ':'
}

/// The part after the last `::` separator, or the whole identifier when it has none
/// (`rsplit("::").next()`).
pub open spec fn last_part(s: Seq<char>) -> Seq<char> {
    if exists|i: int| sep_at(s, i) {
        let i = choose|i: int| sep_at(s, i) && forall|j: int| sep_at(s, j) ==> j <= i;
        s.skip(i + 2)
    } else {
        s
    }
}

/// The UTF-8 length in bytes of a character sequence.
pub open spec fn byte_len(s: Seq<char>) -> nat {
    vstd::utf8::encode_utf8(s).len()
}

/// The trade identifier carried by an activity identifier: its last `::` part when that fits a
/// trade ID, else the whole identifier when that fits, else nothing.
pub open spec fn spec_execution_id(activity_id: Seq<char>) -> Option<Seq<char>> {
    if byte_len(last_part(activity_id)) <= MAX_TRADE_ID_LEN {
        Some(last_part(activity_id))
    } else if byte_len(activity_id) <= MAX_TRADE_ID_LEN {
        Some(activity_id)
    } else {
        None
    }
}

proof fn lemma_suffix_bytes(s: Seq<char>, k: int)
    requires
        0 <= k <= s.len(),
    ensures
        byte_len(s.skip(k)) <= byte_len(s),
    decreases k,
{
    if k > 0 {
        lemma_suffix_bytes(s.drop_first(), k - 1);
        assert(s.skip(k) =~= s.drop_first().skip(k - 1));
    } else {
        assert(s.skip(0) =~= s);
    }
}

/// The part after the last separator is never longer than the whole identifier, so the whole
/// identifier is never taken in its place: the trade identifier is the last part when that fits,
/// and an identifier whose last part is too long is refused rather than truncated.
pub proof fn lemma_trade_id_is_the_last_part(activity_id: Seq<char>)
    ensures
        byte_len(last_part(activity_id)) <= byte_len(activity_id),
        spec_execution_id(activity_id) == if byte_len(last_part(activity_id)) <= MAX_TRADE_ID_LEN {
            Some(last_part(activity_id))
        } else {
            None::<Seq<char>>
        },
{
    if exists|i: int| sep_at(activity_id, i) {
        let i = choose|i: int| sep_at(activity_id, i) && forall|j: int| sep_at(activity_id, j) ==> j <= i;
        let w = choose|i: int| sep_at(activity_id, i);
        assert(sep_at(activity_id, w));
        lemma_last_separator_exists(activity_id, w);
        lemma_suffix_bytes(activity_id, i + 2);
    }
}

proof fn lemma_last_separator_exists(s: Seq<char>, w: int)
    requires
        sep_at(s, w),
    ensures
        exists|i: int| sep_at(s, i) && forall|j: int| sep_at(s, j) ==> j <= i,
    decreases s.len() - w,
{
    if exists|j: int| sep_at(s, j) && j > w {
        let j = choose|j: int| sep_at(s, j) && j > w;
        lemma_last_separator_exists(s, j);
    } else {
        assert(forall|j: int| sep_at(s, j) ==> j <= w);
    }
}

/// Why no trade identifier could be taken from an activity identifier.
#[derive(Copy, Clone, Debug, PartialEq, Eq, Structural)]
pub enum ExecutionIdError {
    /// No part of the identifier is short enough; it is refused rather than truncated, since
    /// truncation could collide with another execution.
    TooLong,
}

/// Returns the start of the last `::` separator in `s`, if any.
fn find_last_separator(s: &str) -> (res: Option<usize>)
    ensures
        res matches Some(k) ==> sep_at(s@, k as int) && forall|j: int| sep_at(s@, j) ==> j <= k,
        res is None ==> forall|j: int| !sep_at(s@, j),
{
    let n = s.unicode_len();
    let mut i: usize = n;
    while i >= 2
        invariant
            n == s@.len(),
            i <= n,
            forall|j: int| i - 1 <= j ==> !sep_at(s@, j),
        decreases i,
    {
        if s.get_char(i - 2) == ':' && s.get_char(i - 1) == ':' {
            return Some(i - 2);
        }
        i = i - 1;
    }
    None
}

/// Returns the trade identifier within an activity identifier.
///
/// Activity identifiers take the form `<sequence>::<uuid>`; the UUID half is what the trading
/// event stream reports as the execution identifier, so a fill seen on both paths resolves to
/// one trade.
pub fn extract_execution_id(activity_id: &str) -> (res: Result<&str, ExecutionIdError>)
    ensures
        res matches Ok(r) ==> spec_execution_id(activity_id@) == Some(r@),
        res is Err ==> spec_execution_id(activity_id@) is None,
{
    let n = activity_id.unicode_len();
    let ghost s = activity_id@;
    let candidate = match find_last_separator(activity_id) {
        Some(k) => {
            proof {
                let c = choose|c: int| sep_at(s, c) && forall|j: int| sep_at(s, j) ==> j <= c;
                assert(c == k);
            }
            activity_id.substring_char(k + 2, n)
        },
        None => activity_id,
    };
    assert(candidate@ == last_part(s));
    if candidate.as_bytes().len() <= MAX_TRADE_ID_LEN {
        return Ok(candidate);
    }
    if activity_id.as_bytes().len() <= MAX_TRADE_ID_LEN {
        return Ok(activity_id);
    }
    Err(ExecutionIdError::TooLong)
}

/// Returns true when an engine order status is still open.
pub fn is_open_status(status: OrderStatus) -> (res: bool)
    ensures
        res == spec_is_open_status(status),
{
    matches!(
        status,
        OrderStatus::Submitted | OrderStatus::Accepted | OrderStatus::PartiallyFilled
            | OrderStatus::PendingUpdate | OrderStatus::PendingCancel
    )
}

/// The decimal a text holds, read exactly once surrounding whitespace is trimmed.
pub open spec fn spec_decimal_text(raw: Seq<char>) -> Option<Decimal> {
    match parsed_decimal(trimmed(raw)) {
        Some(p) => Some(from_parts(p)),
        None => None,
    }
}

/// The share quantity a text holds: the magnitude of its decimal (the venue may report
/// quantities signed) in whole shares, a half share rounded up.
pub open spec fn spec_quantity_text(raw: Seq<char>) -> Option<Decimal> {
    match spec_decimal_text(raw) {
        Some(d) => spec_rounded(Decimal { mantissa: abs(d.mantissa as int) as i128, scale: d.scale }, 0),
        None => None,
    }
}

/// The price a text holds at `precision` decimals, a half rounded away from zero; `None` when
/// the text is not a decimal or the price cannot be carried at that precision.
pub open spec fn spec_price_at(raw: Seq<char>, precision: nat) -> Option<Decimal> {
    match spec_decimal_text(raw) {
        Some(d) => spec_rounded(d, precision),
        None => None,
    }
}

/// The price a text holds at the instruments' price precision.
pub open spec fn spec_price_text(raw: Seq<char>) -> Option<Decimal> {
    spec_price_at(raw, PRICE_PRECISION as nat)
}

/// A field that does not hold a decimal.
#[derive(Clone, Debug, PartialEq, Eq)]
pub struct InvalidDecimal {
    /// The field's name.
    pub field: String,
    /// The text it held.
    pub raw: String,
}

/// Reads the decimal a text holds, ignoring surrounding whitespace.
pub fn decimal_text_of(raw: &str) -> (res: Option<Decimal>)
    ensures
        res == spec_decimal_text(raw@),
        res matches Some(d) ==> d.wf(),
{
    decimal_text(raw)
}

fn decimal_text(raw: &str) -> (res: Option<Decimal>)
    ensures
        res == spec_decimal_text(raw@),
        res matches Some(d) ==> d.wf(),
{
    match parse_decimal_str(trim(raw)) {
        Some(d) => Some(d),
        None => None,
    }
}

fn quantity_text(raw: &str) -> (res: Option<Decimal>)
    ensures
        res == spec_quantity_text(raw@),
        res matches Some(d) ==> d.wf() && d.mantissa >= 0 && d.scale == 0,
{
    match decimal_text(raw) {
        Some(d) => round_to_scale(d.abs(), 0),
        None => None,
    }
}

fn price_text(raw: &str, precision: u8) -> (res: Option<Decimal>)
    ensures
        res == spec_price_at(raw@, precision as nat),
        res matches Some(d) ==> d.wf() && d.scale == precision,
{
    match decimal_text(raw) {
        Some(d) => round_to_scale(d, precision as u32),
        None => None,
    }
}

/// Parses a decimal string exactly, without an intermediate float, ignoring surrounding
/// whitespace.
///
/// Fails, naming the field and its text, when the value is not a decimal.
pub fn parse_decimal(raw: &str, field: &str) -> (res: Result<Decimal, InvalidDecimal>)
    ensures
        res matches Ok(d) ==> d.wf() && spec_decimal_text(raw@) == Some(d),
        res is Err <==> spec_decimal_text(raw@) is None,
        res matches Err(e) ==> e.field@ == field@ && e.raw@ == raw@,
{
    match decimal_text(raw) {
        Some(d) => Ok(d),
        None => Err(InvalidDecimal { field: String::from_str(field), raw: String::from_str(raw) }),
    }
}

/// Parses a price at `precision` decimals, a half rounded away from zero.
///
/// Fails, naming the field and its text, when the value is not a decimal or the price cannot be
/// carried at that precision.
pub fn parse_price(raw: &str, field: &str, precision: u8) -> (res: Result<Decimal, InvalidDecimal>)
    ensures
        res matches Ok(d) ==> d.wf() && d.scale == precision && spec_price_at(raw@, precision as nat)
            == Some(d),
        res is Err <==> spec_price_at(raw@, precision as nat) is None,
        res matches Err(e) ==> e.field@ == field@ && e.raw@ == raw@,
{
    match price_text(raw, precision) {
        Some(d) => Ok(d),
        None => Err(InvalidDecimal { field: String::from_str(field), raw: String::from_str(raw) }),
    }
}

/// Parses a share quantity, which the venue may report signed, as its magnitude in whole
/// shares, a half share rounded up.
///
/// Fails, naming the field and its text, when the value is not a decimal.
pub fn parse_quantity(raw: &str, field: &str) -> (res: Result<Decimal, InvalidDecimal>)
    ensures
        res matches Ok(d) ==> d.wf() && spec_quantity_text(raw@) == Some(d),
        res is Err <==> spec_quantity_text(raw@) is None,
        res matches Err(e) ==> e.field@ == field@ && e.raw@ == raw@,
{
    match quantity_text(raw) {
        Some(d) => Ok(d),
        None => Err(InvalidDecimal { field: String::from_str(field), raw: String::from_str(raw) }),
    }
}

/// The venue field a report could not read.
#[derive(Copy, Clone, Debug, PartialEq, Eq, Structural)]
pub enum ReportField {
    /// `qty`.
    Qty,
    /// `filled_qty`.
    FilledQty,
    /// `limit_price`.
    LimitPrice,
    /// `stop_price`.
    StopPrice,
    /// `filled_avg_price`.
    FilledAvgPrice,
    /// `price` of a fill.
    Price,
}

/// Why a venue payload could not become a report.
#[derive(Clone, Debug, PartialEq, Eq)]
pub enum ReportError {
    /// The order was replaced by the order named, when the venue names it; the replacement is
    /// reported instead.
    Superseded { replaced_by: Option<String> },
    /// The order has no quantity: notional orders are not supported.
    NoQuantity,
    /// A field does not hold a decimal, or holds a price that cannot be carried at the price
    /// precision.
    InvalidDecimal(ReportField),
    /// A timestamp could not be read.
    Timestamp(TimestampError),
    /// An enum has no engine equivalent.
    Conversion(ConversionError),
    /// The order type could not be resolved.
    OrderType(OrderTypeError),
    /// The trade update carries no execution detail.
    NoFillDetail,
    /// A fill carries no price.
    NoFillPrice,
    /// A fill carries no quantity.
    NoFillQuantity,
    /// A fill carries no execution identifier, so a redelivery could not be told from a new
    /// fill.
    NoExecutionId,
    /// No part of an activity identifier fits a trade identifier.
    ExecutionId(ExecutionIdError),
}

/// The non-text content of an order status report.
#[derive(Copy, Clone, Debug, PartialEq, Eq, Structural)]
pub struct OrderReportFields {
    /// Engine order side.
    pub order_side: OrderSide,
    /// Engine order type.
    pub order_type: OrderType,
    /// Engine time in force.
    pub time_in_force: TimeInForce,
    /// Engine order status.
    pub order_status: OrderStatus,
    /// Ordered quantity, in shares.
    pub quantity: Decimal,
    /// Filled quantity, in shares.
    pub filled_qty: Decimal,
    /// When the order was accepted (UNIX nanoseconds).
    pub ts_accepted: u64,
    /// When the order last changed (UNIX nanoseconds).
    pub ts_last: u64,
    /// When the report was made (UNIX nanoseconds).
    pub ts_init: u64,
    /// Limit price.
    pub price: Option<Decimal>,
    /// Stop price.
    pub trigger_price: Option<Decimal>,
    /// Average fill price.
    pub avg_px: Option<Decimal>,
}

/// An order status report: the venue's view of one order, in engine terms.
#[derive(Clone, Debug, PartialEq, Eq)]
pub struct OrderStatusReport {
    /// The account reporting.
    pub account_id: String,
    /// Engine instrument identifier, `SYMBOL.ALPACA`.
    pub instrument_id: String,
    /// Client order identifier.
    pub client_order_id: String,
    /// Venue order identifier.
    pub venue_order_id: String,
    /// Everything else the report states.
    pub fields: OrderReportFields,
}

/// The venue's name for a field a report could not read.
pub open spec fn report_field_name(f: ReportField) -> Seq<char> {
    match f {
        ReportField::Qty => "qty"@,
        ReportField::FilledQty => "filled_qty"@,
        ReportField::LimitPrice => "limit_price"@,
        ReportField::StopPrice => "stop_price"@,
        ReportField::FilledAvgPrice => "filled_avg_price"@,
        ReportField::Price => "price"@,
    }
}

/// The description of a report error for the order with venue identifier `order_id`.
pub open spec fn report_error_text(e: ReportError, order_id: Seq<char>) -> Seq<char> {
    match e {
        ReportError::Superseded { replaced_by } => "Order "@ + order_id + " was replaced by "@
            + match replaced_by {
            Some(r) => r@,
            None => "an unknown order"@,
        } + "; report the replacement instead"@,
        ReportError::NoQuantity => "Order "@ + order_id
            + " has no quantity; notional orders are not supported by this adapter"@,
        ReportError::InvalidDecimal(f) => "Invalid decimal for "@ + report_field_name(f)
            + " of order "@ + order_id,
        ReportError::Timestamp(_) => "Invalid timestamp for order "@ + order_id,
        ReportError::Conversion(c) => crate::common::order_enums::conversion_message(c),
        ReportError::OrderType(_) => "Order "@ + order_id + " has no usable order type"@,
        ReportError::NoFillDetail => "Trade update for order "@ + order_id
            + " carries no execution detail"@,
        ReportError::NoFillPrice => "Fill for order "@ + order_id + " has no price"@,
        ReportError::NoFillQuantity => "Fill for order "@ + order_id + " has no quantity"@,
        ReportError::NoExecutionId => "Fill for order "@ + order_id + " has no execution ID"@,
        ReportError::ExecutionId(_) => "Activity for order "@ + order_id
            + " has no part short enough for a trade ID"@,
    }
}

impl ReportField {
    /// The venue's name for the field.
    pub fn name(&self) -> (res: &'static str)
        ensures
            res@ == report_field_name(*self),
    {
        match self {
            ReportField::Qty => "qty",
            ReportField::FilledQty => "filled_qty",
            ReportField::LimitPrice => "limit_price",
            ReportField::StopPrice => "stop_price",
            ReportField::FilledAvgPrice => "filled_avg_price",
            ReportField::Price => "price",
        }
    }
}

impl ReportError {
    /// Describes the error for the order with venue identifier `order_id`; a refused replaced
    /// order names the order that replaced it.
    pub fn message(&self, order_id: &str) -> (res: String)
        ensures
            res@ == report_error_text(*self, order_id@),
    {
        match self {
            ReportError::Superseded { replaced_by } => {
                let mut m = String::from_str("Order ");
                m.append(order_id);
                m.append(" was replaced by ");
                match replaced_by {
                    Some(r) => m.append(r.as_str()),
                    None => m.append("an unknown order"),
                }
                m.append("; report the replacement instead");
                m
            },
            ReportError::NoQuantity => {
                let mut m = String::from_str("Order ");
                m.append(order_id);
                m.append(" has no quantity; notional orders are not supported by this adapter");
                m
            },
            ReportError::InvalidDecimal(f) => {
                let mut m = String::from_str("Invalid decimal for ");
                m.append(f.name());
                m.append(" of order ");
                m.append(order_id);
                m
            },
            ReportError::Timestamp(_) => {
                let mut m = String::from_str("Invalid timestamp for order ");
                m.append(order_id);
                m
            },
            ReportError::Conversion(c) => String::from_str(c.message()),
            ReportError::OrderType(_) => {
                let mut m = String::from_str("Order ");
                m.append(order_id);
                m.append(" has no usable order type");
                m
            },
            ReportError::NoFillDetail => {
                let mut m = String::from_str("Trade update for order ");
                m.append(order_id);
                m.append(" carries no execution detail");
                m
            },
            ReportError::NoFillPrice => {
                let mut m = String::from_str("Fill for order ");
                m.append(order_id);
                m.append(" has no price");
                m
            },
            ReportError::NoFillQuantity => {
                let mut m = String::from_str("Fill for order ");
                m.append(order_id);
                m.append(" has no quantity");
                m
            },
            ReportError::NoExecutionId => {
                let mut m = String::from_str("Fill for order ");
                m.append(order_id);
                m.append(" has no execution ID");
                m
            },
            ReportError::ExecutionId(_) => {
                let mut m = String::from_str("Activity for order ");
                m.append(order_id);
                m.append(" has no part short enough for a trade ID");
                m
            },
        }
    }
}

/// An optional decimal field: absent stays absent, present must parse.
pub open spec fn spec_opt_decimal(raw: Option<String>, field: ReportField) -> Result<
    Option<Decimal>,
    ReportError,
> {
    match raw {
        None => Ok(None),
        Some(s) => match spec_decimal_text(s@) {
            Some(d) => Ok(Some(d)),
            None => Err(ReportError::InvalidDecimal(field)),
        },
    }
}

/// An optional price: absent stays absent, present must parse at the price precision.
pub open spec fn spec_opt_price(raw: Option<String>, field: ReportField) -> Result<
    Option<Decimal>,
    ReportError,
> {
    match raw {
        None => Ok(None),
        Some(s) => match spec_price_text(s@) {
            Some(d) => Ok(Some(d)),
            None => Err(ReportError::InvalidDecimal(field)),
        },
    }
}

/// An optional timestamp: absent takes the default, present must parse.
pub open spec fn spec_timestamp_or(raw: Option<Seq<char>>, default: u64) -> Result<
    u64,
    ReportError,
> {
    match raw {
        None => Ok(default),
        Some(s) => match spec_parse_rfc3339_nanos(s) {
            Ok(n) => Ok(n),
            Err(e) => Err(ReportError::Timestamp(e)),
        },
    }
}

/// When the order was accepted, as the venue names it: `submitted_at`, else `created_at`.
pub open spec fn spec_ts_accepted_raw(order: AlpacaOrder) -> Option<Seq<char>> {
    first_present(seq![order.submitted_at, order.created_at])
}

/// When the order last changed, as the venue names it.
pub open spec fn spec_ts_last_raw(order: AlpacaOrder) -> Option<Seq<char>> {
    first_present(
        seq![
            order.updated_at,
            order.filled_at,
            order.canceled_at,
            order.submitted_at,
            order.created_at,
        ],
    )
}

/// The engine enums of an order, converted in the order the report reads them.
pub open spec fn spec_order_enums(order: AlpacaOrder) -> Result<
    (OrderSide, OrderType, TimeInForce, OrderStatus),
    ReportError,
> {
    match spec_side_to_nautilus(order.side) {
        Err(e) => Err(ReportError::Conversion(e)),
        Ok(side) => match spec_resolved_order_type(order.order_type, order.type_alias) {
            Err(e) => Err(ReportError::OrderType(e)),
            Ok(t) => match spec_order_type_to_nautilus(t) {
                Err(e) => Err(ReportError::Conversion(e)),
                Ok(order_type) => match spec_tif_to_nautilus(order.time_in_force) {
                    Err(e) => Err(ReportError::Conversion(e)),
                    Ok(tif) => match spec_status_to_nautilus(order.status) {
                        Err(e) => Err(ReportError::Conversion(e)),
                        Ok(status) => Ok((side, order_type, tif, status)),
                    },
                },
            },
        },
    }
}

/// The prices of an order: limit, stop and average fill, each parsed when present.
pub open spec fn spec_order_prices(order: AlpacaOrder) -> Result<
    (Option<Decimal>, Option<Decimal>, Option<Decimal>),
    ReportError,
> {
    match spec_opt_price(order.limit_price, ReportField::LimitPrice) {
        Err(e) => Err(e),
        Ok(price) => match spec_opt_price(order.stop_price, ReportField::StopPrice) {
            Err(e) => Err(e),
            Ok(trigger) => match spec_opt_decimal(order.filled_avg_price, ReportField::FilledAvgPrice) {
                Err(e) => Err(e),
                Ok(avg) => Ok((price, trigger, avg)),
            },
        },
    }
}

/// The report an order becomes, or the first reason it cannot become one: a replaced order is
/// refused, then quantities, timestamps, enums and prices are read in turn. A missing filled
/// quantity is zero; a missing acceptance time is `ts_init`; a missing last-change time is the
/// acceptance time.
pub open spec fn spec_order_status_report(order: AlpacaOrder, ts_init: u64) -> Result<
    OrderReportFields,
    ReportError,
> {
    if order.status == crate::common::order_enums::AlpacaOrderStatus::Replaced {
        Err(ReportError::Superseded { replaced_by: order.replaced_by })
    } else {
        match order.qty {
            None => Err(ReportError::NoQuantity),
            Some(raw_qty) => match spec_quantity_text(raw_qty@) {
                None => Err(ReportError::InvalidDecimal(ReportField::Qty)),
                Some(quantity) => {
                    let filled = match order.filled_qty {
                        None => Some(Decimal { mantissa: 0, scale: 0 }),
                        Some(raw) => spec_quantity_text(raw@),
                    };
                    match filled {
                        None => Err(ReportError::InvalidDecimal(ReportField::FilledQty)),
                        Some(filled_qty) => match spec_timestamp_or(
                            spec_ts_accepted_raw(order),
                            ts_init,
                        ) {
                            Err(e) => Err(e),
                            Ok(ts_accepted) => match spec_timestamp_or(
                                spec_ts_last_raw(order),
                                ts_accepted,
                            ) {
                                Err(e) => Err(e),
                                Ok(ts_last) => match spec_order_enums(order) {
                                    Err(e) => Err(e),
                                    Ok(enums) => match spec_order_prices(order) {
                                        Err(e) => Err(e),
                                        Ok(prices) => Ok(
                                            OrderReportFields {
                                                order_side: enums.0,
                                                order_type: enums.1,
                                                time_in_force: enums.2,
                                                order_status: enums.3,
                                                quantity,
                                                filled_qty,
                                                ts_accepted,
                                                ts_last,
                                                ts_init,
                                                price: prices.0,
                                                trigger_price: prices.1,
                                                avg_px: prices.2,
                                            },
                                        ),
                                    },
                                },
                            },
                        },
                    }
                },
            },
        }
    }
}

fn opt_str(v: &Option<String>) -> (res: Option<&str>)
    ensures
        opt_ref_view(res) == (match v {
            Some(s) => Some(s@),
            None => None::<Seq<char>>,
        }),
{
    match v {
        Some(s) => Some(s.as_str()),
        None => None,
    }
}

fn opt_decimal(raw: &Option<String>, field: ReportField) -> (res: Result<Option<Decimal>, ReportError>)
    ensures
        res == spec_opt_decimal(*raw, field),
        res matches Ok(Some(d)) ==> d.wf(),
{
    match raw {
        None => Ok(None),
        Some(s) => match decimal_text(s.as_str()) {
            Some(d) => Ok(Some(d)),
            None => Err(ReportError::InvalidDecimal(field)),
        },
    }
}

fn opt_price(raw: &Option<String>, field: ReportField) -> (res: Result<Option<Decimal>, ReportError>)
    ensures
        res == spec_opt_price(*raw, field),
        res matches Ok(Some(d)) ==> d.wf(),
{
    match raw {
        None => Ok(None),
        Some(s) => match price_text(s.as_str(), PRICE_PRECISION) {
            Some(d) => Ok(Some(d)),
            None => Err(ReportError::InvalidDecimal(field)),
        },
    }
}

fn timestamp_or(raw: Option<&str>, default: u64) -> (res: Result<u64, ReportError>)
    ensures
        res == spec_timestamp_or(opt_ref_view(raw), default),
{
    match raw {
        None => Ok(default),
        Some(s) => match parse_rfc3339_nanos(s) {
            Ok(n) => Ok(n),
            Err(e) => Err(ReportError::Timestamp(e)),
        },
    }
}

fn order_enums(order: &AlpacaOrder) -> (res: Result<(OrderSide, OrderType, TimeInForce, OrderStatus), ReportError>)
    ensures
        res == spec_order_enums(*order),
{
    let side = match order.side.to_nautilus() {
        Ok(v) => v,
        Err(e) => {
            return Err(ReportError::Conversion(e));
        },
    };
    let resolved = match order.resolved_order_type() {
        Ok(v) => v,
        Err(e) => {
            return Err(ReportError::OrderType(e));
        },
    };
    let order_type = match resolved.to_nautilus() {
        Ok(v) => v,
        Err(e) => {
            return Err(ReportError::Conversion(e));
        },
    };
    let tif = match order.time_in_force.to_nautilus() {
        Ok(v) => v,
        Err(e) => {
            return Err(ReportError::Conversion(e));
        },
    };
    let status = match order.status.to_nautilus() {
        Ok(v) => v,
        Err(e) => {
            return Err(ReportError::Conversion(e));
        },
    };
    Ok((side, order_type, tif, status))
}

fn order_prices(order: &AlpacaOrder) -> (res: Result<(Option<Decimal>, Option<Decimal>, Option<Decimal>), ReportError>)
    ensures
        res == spec_order_prices(*order),
{
    let price = match opt_price(&order.limit_price, ReportField::LimitPrice) {
        Ok(v) => v,
        Err(e) => {
            return Err(e);
        },
    };
    let trigger = match opt_price(&order.stop_price, ReportField::StopPrice) {
        Ok(v) => v,
        Err(e) => {
            return Err(e);
        },
    };
    let avg = match opt_decimal(&order.filled_avg_price, ReportField::FilledAvgPrice) {
        Ok(v) => v,
        Err(e) => {
            return Err(e);
        },
    };
    Ok((price, trigger, avg))
}

/// Converts a venue order into an order status report.
///
/// An amendment at the venue creates a new order: the original moves to `replaced` and a fresh
/// identifier takes over. There is no engine status for that, and reporting it as a cancellation
/// would tell the engine an order is dead while it is still working, so such orders are refused
/// and the caller follows `replaced_by` instead.
pub fn parse_order_status_report(order: &AlpacaOrder, account_id: &str, ts_init: u64) -> (res:
    Result<OrderStatusReport, ReportError>)
    ensures
        match (res, spec_order_status_report(*order, ts_init)) {
            (Ok(r), Ok(f)) => {
                &&& r.fields == f
                &&& r.account_id@ == account_id@
                &&& r.instrument_id@ == spec_instrument_id(order.symbol@)
                &&& r.client_order_id@ == order.client_order_id@
                &&& r.venue_order_id@ == order.id@
            },
            (Err(e), Err(g)) => e == g,
            _ => false,
        },
{
    if order.status.is_superseded() {
        let replaced_by = match &order.replaced_by {
            Some(r) => Some(r.clone()),
            None => None,
        };
        return Err(ReportError::Superseded { replaced_by });
    }
    let quantity = match opt_str(&order.qty) {
        None => {
            return Err(ReportError::NoQuantity);
        },
        Some(raw) => match quantity_text(raw) {
            Some(q) => q,
            None => {
                return Err(ReportError::InvalidDecimal(ReportField::Qty));
            },
        },
    };
    let filled_qty = match opt_str(&order.filled_qty) {
        None => Decimal::new(0, 0),
        Some(raw) => match quantity_text(raw) {
            Some(q) => q,
            None => {
                return Err(ReportError::InvalidDecimal(ReportField::FilledQty));
            },
        },
    };
    let ts_accepted = match timestamp_or(order.ts_accepted_raw(), ts_init) {
        Ok(t) => t,
        Err(e) => {
            return Err(e);
        },
    };
    let ts_last = match timestamp_or(order.ts_last_raw(), ts_accepted) {
        Ok(t) => t,
        Err(e) => {
            return Err(e);
        },
    };
    let enums = match order_enums(order) {
        Ok(v) => v,
        Err(e) => {
            return Err(e);
        },
    };
    let prices = match order_prices(order) {
        Ok(v) => v,
        Err(e) => {
            return Err(e);
        },
    };
    Ok(
        OrderStatusReport {
            account_id: String::from_str(account_id),
            instrument_id: instrument_id(order.symbol.as_str()),
            client_order_id: order.client_order_id.clone(),
            venue_order_id: order.id.clone(),
            fields: OrderReportFields {
                order_side: enums.0,
                order_type: enums.1,
                time_in_force: enums.2,
                order_status: enums.3,
                quantity,
                filled_qty,
                ts_accepted,
                ts_last,
                ts_init,
                price: prices.0,
                trigger_price: prices.1,
                avg_px: prices.2,
            },
        },
    )
}

/// A fill report: one execution, in engine terms.
///
/// The venue reports no per-fill commission and US equity trading there is commission-free, so
/// none is recorded; nor does it say whether a fill took or made liquidity.
#[derive(Clone, Debug, PartialEq, Eq)]
pub struct FillReport {
    /// The account reporting.
    pub account_id: String,
    /// Engine instrument identifier, `SYMBOL.ALPACA`.
    pub instrument_id: String,
    /// Venue order identifier.
    pub venue_order_id: String,
    /// Trade identifier, unique per execution.
    pub trade_id: String,
    /// Engine order side.
    pub order_side: OrderSide,
    /// Executed quantity, in shares.
    pub last_qty: Decimal,
    /// Execution price.
    pub last_px: Decimal,
    /// Commission in US dollars; the venue reports none and US equity trading there is
    /// commission-free, so it is zero.
    pub commission: Decimal,
    /// Liquidity side; the venue does not report it.
    pub liquidity_side: LiquiditySide,
    /// Client order identifier, where the payload carries one.
    pub client_order_id: Option<String>,
    /// When the execution happened (UNIX nanoseconds).
    pub ts_event: u64,
    /// When the report was made (UNIX nanoseconds).
    pub ts_init: u64,
}

/// The non-text content of a fill report built from a trade update: side, quantity, price and
/// event time, or the first reason it cannot be built.
pub open spec fn spec_fill_report(update: TradeUpdate, ts_init: u64) -> Result<
    (OrderSide, Decimal, Decimal, u64),
    ReportError,
> {
    if !spec_carries_fill_figures(update) {
        Err(ReportError::NoFillDetail)
    } else {
        match (update.price, update.qty, update.execution_id) {
            (None, _, _) => Err(ReportError::NoFillPrice),
            (_, None, _) => Err(ReportError::NoFillQuantity),
            (_, _, None) => Err(ReportError::NoExecutionId),
            (Some(raw_price), Some(raw_qty), Some(_)) => match spec_timestamp_or(
                match update.timestamp {
                    Some(t) => Some(t@),
                    None => None,
                },
                ts_init,
            ) {
                Err(e) => Err(e),
                Ok(ts_event) => match spec_side_to_nautilus(update.order.side) {
                    Err(e) => Err(ReportError::Conversion(e)),
                    Ok(side) => match spec_quantity_text(raw_qty@) {
                        None => Err(ReportError::InvalidDecimal(ReportField::Qty)),
                        Some(qty) => match spec_price_text(raw_price@) {
                            None => Err(ReportError::InvalidDecimal(ReportField::Price)),
                            Some(px) => Ok((side, qty, px, ts_event)),
                        },
                    },
                },
            },
        }
    }
}

/// Converts a fill-bearing trade update into a fill report.
///
/// Fails when the update carries no execution detail or no execution identifier (without one a
/// redelivered fill could not be told from a new one), or when a value cannot be converted.
pub fn parse_fill_report(update: &TradeUpdate, account_id: &str, ts_init: u64) -> (res: Result<
    FillReport,
    ReportError,
>)
    ensures
        match (res, spec_fill_report(*update, ts_init)) {
            (Ok(r), Ok(f)) => {
                &&& r.order_side == f.0
                &&& r.last_qty == f.1
                &&& r.last_px == f.2
                &&& r.ts_event == f.3
                &&& r.ts_init == ts_init
                &&& r.account_id@ == account_id@
                &&& r.instrument_id@ == spec_instrument_id(update.order.symbol@)
                &&& r.venue_order_id@ == update.order.id@
                &&& update.execution_id matches Some(x) && r.trade_id@ == x@
                &&& r.commission.mantissa == 0
                &&& r.liquidity_side == LiquiditySide::NoLiquiditySide
                &&& r.client_order_id matches Some(c) && c@ == update.order.client_order_id@
            },
            (Err(e), Err(g)) => e == g,
            _ => false,
        },
{
    if !update.carries_fill_figures() {
        return Err(ReportError::NoFillDetail);
    }
    let raw_price = match opt_str(&update.price) {
        Some(p) => p,
        None => {
            return Err(ReportError::NoFillPrice);
        },
    };
    let raw_qty = match opt_str(&update.qty) {
        Some(q) => q,
        None => {
            return Err(ReportError::NoFillQuantity);
        },
    };
    let trade_id = match opt_str(&update.execution_id) {
        Some(x) => x,
        None => {
            return Err(ReportError::NoExecutionId);
        },
    };
    let ts_event = match timestamp_or(opt_str(&update.timestamp), ts_init) {
        Ok(t) => t,
        Err(e) => {
            return Err(e);
        },
    };
    let side = match update.order.side.to_nautilus() {
        Ok(s) => s,
        Err(e) => {
            return Err(ReportError::Conversion(e));
        },
    };
    let last_qty = match quantity_text(raw_qty) {
        Some(q) => q,
        None => {
            return Err(ReportError::InvalidDecimal(ReportField::Qty));
        },
    };
    let last_px = match price_text(raw_price, PRICE_PRECISION) {
        Some(p) => p,
        None => {
            return Err(ReportError::InvalidDecimal(ReportField::Price));
        },
    };
    Ok(
        FillReport {
            account_id: String::from_str(account_id),
            instrument_id: instrument_id(update.order.symbol.as_str()),
            venue_order_id: update.order.id.clone(),
            trade_id: String::from_str(trade_id),
            order_side: side,
            last_qty,
            last_px,
            commission: Decimal { mantissa: 0, scale: 0 },
            liquidity_side: LiquiditySide::NoLiquiditySide,
            client_order_id: Some(update.order.client_order_id.clone()),
            ts_event,
            ts_init,
        },
    )
}

/// The non-text content of a fill report built from a fill activity: side, quantity, price and
/// transaction time, or the first reason it cannot be built. The quantity is the execution's
/// own `qty`, never the order's running `cum_qty`.
pub open spec fn spec_fill_activity_report(activity: AlpacaFillActivity) -> Result<
    (OrderSide, Decimal, Decimal, u64),
    ReportError,
> {
    match spec_execution_id(activity.id@) {
        None => Err(ReportError::ExecutionId(ExecutionIdError::TooLong)),
        Some(_) => match spec_side_to_nautilus(activity.side) {
            Err(e) => Err(ReportError::Conversion(e)),
            Ok(side) => match spec_quantity_text(activity.qty@) {
                None => Err(ReportError::InvalidDecimal(ReportField::Qty)),
                Some(qty) => match spec_price_text(activity.price@) {
                    None => Err(ReportError::InvalidDecimal(ReportField::Price)),
                    Some(px) => match spec_parse_rfc3339_nanos(activity.transaction_time@) {
                        Err(e) => Err(ReportError::Timestamp(e)),
                        Ok(ts) => Ok((side, qty, px, ts)),
                    },
                },
            },
        },
    }
}

/// Converts a fill activity into a fill report.
///
/// The activity feed is how fills are recovered at startup: the trading event stream reports
/// them as they happen but cannot be replayed. The trade identifier is the one the stream
/// reports for the same execution, so a fill seen on both paths is one trade.
pub fn parse_fill_activity_report(
    activity: &AlpacaFillActivity,
    account_id: &str,
    ts_init: u64,
) -> (res: Result<FillReport, ReportError>)
    ensures
        match (res, spec_fill_activity_report(*activity)) {
            (Ok(r), Ok(f)) => {
                &&& r.order_side == f.0
                &&& r.last_qty == f.1
                &&& r.last_px == f.2
                &&& r.ts_event == f.3
                &&& r.ts_init == ts_init
                &&& r.account_id@ == account_id@
                &&& r.instrument_id@ == spec_instrument_id(activity.symbol@)
                &&& r.venue_order_id@ == activity.order_id@
                &&& spec_execution_id(activity.id@) == Some(r.trade_id@)
                &&& r.commission.mantissa == 0
                &&& r.liquidity_side == LiquiditySide::NoLiquiditySide
                &&& r.client_order_id is None
            },
            (Err(e), Err(g)) => e == g,
            _ => false,
        },
{
    let trade_id = match extract_execution_id(activity.id.as_str()) {
        Ok(t) => t,
        Err(e) => {
            return Err(ReportError::ExecutionId(e));
        },
    };
    let side = match activity.side.to_nautilus() {
        Ok(s) => s,
        Err(e) => {
            return Err(ReportError::Conversion(e));
        },
    };
    let last_qty = match quantity_text(activity.qty.as_str()) {
        Some(q) => q,
        None => {
            return Err(ReportError::InvalidDecimal(ReportField::Qty));
        },
    };
    let last_px = match price_text(activity.price.as_str(), PRICE_PRECISION) {
        Some(p) => p,
        None => {
            return Err(ReportError::InvalidDecimal(ReportField::Price));
        },
    };
    let ts_event = match parse_rfc3339_nanos(activity.transaction_time.as_str()) {
        Ok(t) => t,
        Err(e) => {
            return Err(ReportError::Timestamp(e));
        },
    };
    Ok(
        FillReport {
            account_id: String::from_str(account_id),
            instrument_id: instrument_id(activity.symbol.as_str()),
            venue_order_id: activity.order_id.clone(),
            trade_id: String::from_str(trade_id),
            order_side: side,
            last_qty,
            last_px,
            commission: Decimal { mantissa: 0, scale: 0 },
            liquidity_side: LiquiditySide::NoLiquiditySide,
            client_order_id: None,
            ts_event,
            ts_init,
        },
    )
}

/// A position status report: the venue's net position in one instrument.
#[derive(Clone, Debug, PartialEq, Eq)]
pub struct PositionStatusReport {
    /// The account reporting.
    pub account_id: String,
    /// Engine instrument identifier, `SYMBOL.ALPACA`.
    pub instrument_id: String,
    /// Flat, long or short.
    pub position_side: PositionSideSpecified,
    /// Position size, in shares, unsigned.
    pub quantity: Decimal,
    /// Average entry price, when the venue's figure parses.
    pub avg_px_open: Option<Decimal>,
    /// When the report was made (UNIX nanoseconds).
    pub ts_init: u64,
}

/// The side of a position: flat when its size is zero, else short when either the venue's
/// `side` says so or the size is negative, else long.
pub open spec fn spec_position_side(position: AlpacaPosition, quantity: Decimal) -> PositionSideSpecified {
    if quantity.mantissa == 0 {
        PositionSideSpecified::Flat
    } else if crate::common::text::eq_ignore_ascii_case(position.side@, "short"@) || starts_negative(
        position.qty@,
    ) {
        PositionSideSpecified::Short
    } else {
        PositionSideSpecified::Long
    }
}

/// Converts a venue position into a position status report.
///
/// Fails only when the size is not a decimal; an unreadable entry price is left out.
pub fn parse_position_status_report(
    position: &AlpacaPosition,
    account_id: &str,
    ts_init: u64,
) -> (res: Result<PositionStatusReport, ReportError>)
    ensures
        res is Err <==> spec_quantity_text(position.qty@) is None,
        res matches Err(e) ==> e == ReportError::InvalidDecimal(ReportField::Qty),
        res matches Ok(r) ==> {
            &&& spec_quantity_text(position.qty@) == Some(r.quantity)
            &&& r.position_side == spec_position_side(*position, r.quantity)
            &&& r.avg_px_open == spec_decimal_text(position.avg_entry_price@)
            &&& r.ts_init == ts_init
            &&& r.account_id@ == account_id@
            &&& r.instrument_id@ == spec_instrument_id(position.symbol@)
        },
{
    let quantity = match quantity_text(position.qty.as_str()) {
        Some(q) => q,
        None => {
            return Err(ReportError::InvalidDecimal(ReportField::Qty));
        },
    };
    let side = if quantity.is_zero() {
        PositionSideSpecified::Flat
    } else if position.is_short() {
        PositionSideSpecified::Short
    } else {
        PositionSideSpecified::Long
    };
    Ok(
        PositionStatusReport {
            account_id: String::from_str(account_id),
            instrument_id: instrument_id(position.symbol.as_str()),
            position_side: side,
            quantity,
            avg_px_open: decimal_text(position.avg_entry_price.as_str()),
            ts_init,
        },
    )
}

} // verus!
