//! Data models for the Alpaca Trading API.

use vstd::prelude::*;

use crate::common::{
    credential::opt_string_view,
    decimal::{
        decimal_checked_div, decimal_checked_mul, decimal_checked_sub, decimal_difference,
        decimal_le, decimal_product, decimal_quotient, decimal_string, decimal_to_string,
        from_parts, parse_decimal_str, parsed_decimal, parts, value_le, Decimal,
    },
    order_enums::{AlpacaOrderSide, AlpacaOrderStatus, AlpacaOrderType, AlpacaTimeInForce},
    text::{eq_ignore_ascii_case, is_ws, str_eq_ignore_ascii_case, str_equals},
};

verus! {

/// Market clock and current session state.
#[derive(Clone, Debug, PartialEq, Eq)]
pub struct Clock {
    /// Current venue timestamp (RFC 3339).
    pub timestamp: String,
    /// Whether the regular session is currently open.
    pub is_open: bool,
    /// Next regular session open (RFC 3339).
    pub next_open: String,
    /// Next regular session close (RFC 3339).
    pub next_close: String,
}

/// A venue order.
#[derive(Clone, Debug, PartialEq, Eq)]
pub struct AlpacaOrder {
    /// Venue order identifier.
    pub id: String,
    /// Client-assigned order identifier.
    pub client_order_id: String,
    /// Ticker symbol.
    pub symbol: String,
    /// Asset class, e.g. `us_equity`.
    pub asset_class: Option<String>,
    /// Order type, from the `order_type` field.
    ///
    /// The venue sends the order type twice, once here and once as `type`; read them through
    /// [`AlpacaOrder::resolved_order_type`] rather than directly.
    pub order_type: Option<AlpacaOrderType>,
    /// Order type, from the `type` field. See [`AlpacaOrder::order_type`].
    pub type_alias: Option<AlpacaOrderType>,
    /// Order side.
    pub side: AlpacaOrderSide,
    /// Time in force.
    pub time_in_force: AlpacaTimeInForce,
    /// Order status.
    pub status: AlpacaOrderStatus,
    /// Ordered quantity, in shares.
    pub qty: Option<String>,
    /// Filled quantity, in shares.
    pub filled_qty: Option<String>,
    /// Average fill price.
    pub filled_avg_price: Option<String>,
    /// Limit price.
    pub limit_price: Option<String>,
    /// Stop price.
    pub stop_price: Option<String>,
    /// Notional order amount; this adapter never sets it.
    pub notional: Option<String>,
    /// Whether the order may execute outside the regular session.
    pub extended_hours: bool,
    /// Order class, e.g. `simple`, `bracket`.
    pub order_class: Option<String>,
    /// Identifier of the order this one replaced.
    pub replaces: Option<String>,
    /// Identifier of the order that replaced this one.
    pub replaced_by: Option<String>,
    /// When the order was created (RFC 3339).
    pub created_at: Option<String>,
    /// When the order was submitted (RFC 3339).
    pub submitted_at: Option<String>,
    /// When the order was last updated (RFC 3339).
    pub updated_at: Option<String>,
    /// When the order was filled (RFC 3339).
    pub filled_at: Option<String>,
    /// When the order was canceled (RFC 3339).
    pub canceled_at: Option<String>,
    /// When the order expired (RFC 3339).
    pub expired_at: Option<String>,
    /// When the order is scheduled to expire (RFC 3339).
    pub expires_at: Option<String>,
    /// When the order was replaced (RFC 3339).
    pub replaced_at: Option<String>,
    /// When the order failed (RFC 3339).
    pub failed_at: Option<String>,
}

/// Why an order's type could not be resolved.
#[derive(Copy, Clone, Debug, PartialEq, Eq, Structural)]
pub enum OrderTypeError {
    /// The two copies of the type disagree.
    Conflicting(AlpacaOrderType, AlpacaOrderType),
    /// Neither copy is present.
    Missing,
}

/// The order type the two copies resolve to.
pub open spec fn spec_resolved_order_type(
    order_type: Option<AlpacaOrderType>,
    type_alias: Option<AlpacaOrderType>,
) -> Result<AlpacaOrderType, OrderTypeError> {
    match (order_type, type_alias) {
        (Some(a), Some(b)) => if a != b {
            Err(OrderTypeError::Conflicting(a, b))
        } else {
            Ok(a)
        },
        (Some(a), None) => Ok(a),
        (None, Some(b)) => Ok(b),
        (None, None) => Err(OrderTypeError::Missing),
    }
}

/// The first present value of a list of optional strings.
pub open spec fn first_present(values: Seq<Option<String>>) -> Option<Seq<char>>
    decreases values.len(),
{
    if values.len() == 0 {
        None
    } else {
        match values[0] {
            Some(s) => Some(s@),
            None => first_present(values.drop_first()),
        }
    }
}

/// The view of an optional borrowed string.
pub open spec fn opt_ref_view(v: Option<&str>) -> Option<Seq<char>> {
    match v {
        Some(s) => Some(s@),
        None => None,
    }
}

fn as_opt_str(v: &Option<String>) -> (res: Option<&str>)
    ensures
        opt_ref_view(res) == opt_string_view(*v),
{
    match v {
        Some(s) => Some(s.as_str()),
        None => None,
    }
}

impl AlpacaOrder {
    /// Returns the order type, reconciling the venue's two copies of it.
    ///
    /// Fails when neither field is present, and when the two disagree: picking one arbitrarily
    /// could submit or report the wrong order type.
    pub fn resolved_order_type(&self) -> (res: Result<AlpacaOrderType, OrderTypeError>)
        ensures
            res == spec_resolved_order_type(self.order_type, self.type_alias),
    {
        match (self.order_type, self.type_alias) {
            (Some(a), Some(b)) => {
                if a != b {
                    Err(OrderTypeError::Conflicting(a, b))
                } else {
                    Ok(a)
                }
            },
            (Some(a), None) => Ok(a),
            (None, Some(b)) => Ok(b),
            (None, None) => Err(OrderTypeError::Missing),
        }
    }

    /// Returns the timestamp best representing the last activity on the order: the first of
    /// `updated_at`, `filled_at`, `canceled_at`, `submitted_at` and `created_at` present.
    pub fn ts_last_raw(&self) -> (res: Option<&str>)
        ensures
            opt_ref_view(res) == first_present(
                seq![
                    self.updated_at,
                    self.filled_at,
                    self.canceled_at,
                    self.submitted_at,
                    self.created_at,
                ],
            ),
    {
        let ghost values = seq![
            self.updated_at,
            self.filled_at,
            self.canceled_at,
            self.submitted_at,
            self.created_at,
        ];
        proof {
            reveal_with_fuel(first_present, 6);
            assert(values.drop_first() =~= seq![
                self.filled_at,
                self.canceled_at,
                self.submitted_at,
                self.created_at,
            ]);
            assert(values.drop_first().drop_first() =~= seq![
                self.canceled_at,
                self.submitted_at,
                self.created_at,
            ]);
            assert(values.drop_first().drop_first().drop_first() =~= seq![
                self.submitted_at,
                self.created_at,
            ]);
            assert(values.drop_first().drop_first().drop_first().drop_first() =~= seq![
                self.created_at,
            ]);
            assert(values.drop_first().drop_first().drop_first().drop_first().drop_first()
                =~= Seq::<Option<String>>::empty());
        }
        if self.updated_at.is_some() {
            as_opt_str(&self.updated_at)
        } else if self.filled_at.is_some() {
            as_opt_str(&self.filled_at)
        } else if self.canceled_at.is_some() {
            as_opt_str(&self.canceled_at)
        } else if self.submitted_at.is_some() {
            as_opt_str(&self.submitted_at)
        } else {
            as_opt_str(&self.created_at)
        }
    }

    /// Returns the timestamp best representing venue acceptance: `submitted_at`, else
    /// `created_at`.
    pub fn ts_accepted_raw(&self) -> (res: Option<&str>)
        ensures
            opt_ref_view(res) == first_present(seq![self.submitted_at, self.created_at]),
    {
        let ghost values = seq![self.submitted_at, self.created_at];
        proof {
            reveal_with_fuel(first_present, 3);
            assert(values.drop_first() =~= seq![self.created_at]);
            assert(values.drop_first().drop_first() =~= Seq::<Option<String>>::empty());
        }
        if self.submitted_at.is_some() {
            as_opt_str(&self.submitted_at)
        } else {
            as_opt_str(&self.created_at)
        }
    }
}

/// One fill from the account activity feed.
#[derive(Clone, Debug, PartialEq, Eq)]
pub struct AlpacaFillActivity {
    /// Activity identifier, unique per fill.
    pub id: String,
    /// Always `FILL` for this type.
    pub activity_type: Option<String>,
    /// `fill` for a complete fill, `partial_fill` otherwise.
    pub fill_type: Option<String>,
    /// When the fill occurred (RFC 3339).
    pub transaction_time: String,
    /// Ticker symbol.
    pub symbol: String,
    /// Side of the fill.
    pub side: AlpacaOrderSide,
    /// Execution price.
    pub price: String,
    /// Executed quantity.
    pub qty: String,
    /// Venue order identifier the fill belongs to.
    pub order_id: String,
    /// Cumulative filled quantity on the order.
    pub cum_qty: Option<String>,
    /// Quantity still working on the order.
    pub leaves_qty: Option<String>,
    /// Order status after the fill.
    pub order_status: Option<String>,
}

/// An open position.
#[derive(Clone, Debug, PartialEq, Eq)]
pub struct AlpacaPosition {
    /// Venue-assigned asset identifier.
    pub asset_id: String,
    /// Ticker symbol.
    pub symbol: String,
    /// Listing exchange.
    pub exchange: Option<String>,
    /// Asset class.
    pub asset_class: Option<String>,
    /// Signed position size: negative when short.
    pub qty: String,
    /// Quantity not reserved by working orders.
    pub qty_available: Option<String>,
    /// Average entry price.
    pub avg_entry_price: String,
    /// Position direction, `long` or `short`.
    pub side: String,
    /// Current market value.
    pub market_value: Option<String>,
    /// Cost basis.
    pub cost_basis: Option<String>,
    /// Unrealized profit and loss.
    pub unrealized_pl: Option<String>,
    /// Latest traded price.
    pub current_price: Option<String>,
}

/// True when the first non-whitespace character of `s` is a minus sign.
pub open spec fn starts_negative(s: Seq<char>) -> bool {
    exists|i: int|
        0 <= i < s.len() && s[i] == '-' && forall|j: int| 0 <= j < i ==> is_ws(#[trigger] s[j])
}

/// Returns true when the first non-whitespace character of `s` is `-`
/// (`s.trim_start().starts_with('-')`).
pub fn str_starts_negative(s: &str) -> (res: bool)
    ensures
        res == starts_negative(s@),
{
    let n = s.unicode_len();
    let mut i: usize = 0;
    while i < n
        invariant
            n == s@.len(),
            i <= n,
            forall|j: int| 0 <= j < i ==> is_ws(#[trigger] s@[j]),
        decreases n - i,
    {
        let c = s.get_char(i);
        if !crate::common::text::is_whitespace(c) {
            if c == '-' {
                return true;
            } else {
                assert forall|k: int|
                    0 <= k < s@.len() && s@[k] == '-' implies !(forall|j: int|
                    0 <= j < k ==> is_ws(#[trigger] s@[j])) by {
                    if k > i as int {
                        assert(!is_ws(s@[i as int]));
                    }
                }
                return false;
            }
        }
        i = i + 1;
    }
    false
}

impl AlpacaPosition {
    /// Returns true when the position is short.
    ///
    /// The venue reports direction twice, in `side` and in the sign of `qty`; both are consulted
    /// so a disagreement cannot silently flip a position.
    pub fn is_short(&self) -> (res: bool)
        ensures
            res == (eq_ignore_ascii_case(self.side@, "short"@) || starts_negative(self.qty@)),
    {
        let short = "short";
        str_eq_ignore_ascii_case(self.side.as_str(), short) || str_starts_negative(
            self.qty.as_str(),
        )
    }
}

/// One day of the venue trading calendar.
#[derive(Clone, Debug, PartialEq, Eq)]
pub struct CalendarDay {
    /// Trading date as `YYYY-MM-DD`.
    pub date: String,
    /// Regular session open in US Eastern time, formatted `HH:MM`.
    pub open: String,
    /// Regular session close in US Eastern time, formatted `HH:MM`.
    pub close: String,
    /// Extended session open in US Eastern time, formatted `HHMM`.
    pub session_open: Option<String>,
    /// Extended session close in US Eastern time, formatted `HHMM`.
    pub session_close: Option<String>,
    /// Settlement date as `YYYY-MM-DD`.
    pub settlement_date: Option<String>,
}

/// Attribute marking eligibility for the overnight session.
pub const ATTR_OVERNIGHT_TRADABLE: &'static str = "overnight_tradable";

/// Attribute marking a halt in the overnight session.
pub const ATTR_OVERNIGHT_HALTED: &'static str = "overnight_halted";

/// Attribute marking fractional extended-hours eligibility.
pub const ATTR_FRACTIONAL_EH_ENABLED: &'static str = "fractional_eh_enabled";

/// Attribute marking a listed options chain.
pub const ATTR_HAS_OPTIONS: &'static str = "has_options";

/// Attribute marking a publicly traded partnership without exception.
pub const ATTR_PTP_NO_EXCEPTION: &'static str = "ptp_no_exception";

/// Attribute marking a publicly traded partnership with exception.
pub const ATTR_PTP_WITH_EXCEPTION: &'static str = "ptp_with_exception";

/// A tradable asset as the venue lists it.
#[derive(Clone, Debug, PartialEq, Eq)]
pub struct Asset {
    /// Venue-assigned asset identifier.
    pub id: String,
    /// Asset class, e.g. `us_equity`.
    pub class: String,
    /// Listing exchange.
    pub exchange: String,
    /// Ticker symbol.
    pub symbol: String,
    /// Human-readable name.
    pub name: Option<String>,
    /// Asset status, e.g. `active`, `inactive`.
    pub status: String,
    /// Whether the asset is tradable through Alpaca; independent of `status`.
    pub tradable: bool,
    /// Whether the asset is marginable.
    pub marginable: bool,
    /// Whether the asset is shortable.
    pub shortable: bool,
    /// Whether the asset is currently easy to borrow.
    pub easy_to_borrow: bool,
    /// Borrow classification.
    pub borrow_status: Option<String>,
    /// Whether the asset supports fractional quantities.
    pub fractionable: bool,
    /// Maintenance margin requirement as a whole percentage.
    pub maintenance_margin_requirement: Option<u32>,
    /// Long margin requirement as a percentage string.
    pub margin_requirement_long: Option<String>,
    /// Short margin requirement as a percentage string.
    pub margin_requirement_short: Option<String>,
    /// Venue attributes such as `overnight_tradable` or `has_options`.
    pub attributes: Vec<String>,
}

/// True when `attributes` holds `attribute`.
pub open spec fn has_attr(attributes: Seq<String>, attribute: Seq<char>) -> bool {
    exists|i: int| 0 <= i < attributes.len() && (#[trigger] attributes[i])@ == attribute
}

impl Asset {
    /// Returns true when the asset carries the given venue attribute.
    pub fn has_attribute(&self, attribute: &str) -> (res: bool)
        ensures
            res == has_attr(self.attributes@, attribute@),
    {
        let n = self.attributes.len();
        let mut i: usize = 0;
        while i < n
            invariant
                n == self.attributes@.len(),
                i <= n,
                forall|j: int| 0 <= j < i ==> (#[trigger] self.attributes@[j])@ != attribute@,
            decreases n - i,
        {
            if str_equals(self.attributes[i].as_str(), attribute) {
                return true;
            }
            i = i + 1;
        }
        false
    }

    /// Returns true when the asset can currently be traded: `status` is `active` and
    /// `tradable` is set, the two being independent.
    pub fn is_tradable_now(&self) -> (res: bool)
        ensures
            res == (self.status@ == "active"@ && self.tradable),
    {
        let active = "active";
        str_equals(self.status.as_str(), active) && self.tradable
    }

    /// Returns true when the asset is eligible for the Blue Ocean ATS overnight session.
    pub fn is_overnight_tradable(&self) -> (res: bool)
        ensures
            res == has_attr(self.attributes@, ATTR_OVERNIGHT_TRADABLE@),
    {
        self.has_attribute(ATTR_OVERNIGHT_TRADABLE)
    }

    /// Returns true when the asset is halted for the overnight session.
    ///
    /// Independent of [`Self::is_overnight_tradable`]; check both before routing an overnight
    /// order.
    pub fn is_overnight_halted(&self) -> (res: bool)
        ensures
            res == has_attr(self.attributes@, ATTR_OVERNIGHT_HALTED@),
    {
        self.has_attribute(ATTR_OVERNIGHT_HALTED)
    }

    /// Returns true when the asset has a listed options chain.
    pub fn has_options(&self) -> (res: bool)
        ensures
            res == has_attr(self.attributes@, ATTR_HAS_OPTIONS@),
    {
        self.has_attribute(ATTR_HAS_OPTIONS)
    }

    /// Returns true when the asset is a publicly traded partnership.
    pub fn is_publicly_traded_partnership(&self) -> (res: bool)
        ensures
            res == (has_attr(self.attributes@, ATTR_PTP_NO_EXCEPTION@) || has_attr(
                self.attributes@,
                ATTR_PTP_WITH_EXCEPTION@,
            )),
    {
        self.has_attribute(ATTR_PTP_NO_EXCEPTION) || self.has_attribute(ATTR_PTP_WITH_EXCEPTION)
    }
}

/// The trading account.
#[derive(Clone, Debug, PartialEq, Eq)]
pub struct Account {
    /// Venue-assigned account identifier.
    pub id: String,
    /// Human-readable account number.
    pub account_number: String,
    /// Account status, e.g. `ACTIVE`.
    pub status: String,
    /// Settlement currency, e.g. `USD`.
    pub currency: String,
    /// Available cash balance.
    pub cash: String,
    /// Total portfolio value.
    pub portfolio_value: Option<String>,
    /// Total equity.
    pub equity: String,
    /// Equity at the previous close.
    pub last_equity: String,
    /// Available buying power.
    pub buying_power: String,
    /// Initial margin requirement.
    pub initial_margin: Option<String>,
    /// Maintenance margin requirement.
    pub maintenance_margin: Option<String>,
    /// Whether the account is flagged as a pattern day trader.
    pub pattern_day_trader: bool,
    /// Whether trading is blocked on the account.
    pub trading_blocked: bool,
    /// Whether the account is blocked from transfers.
    pub transfers_blocked: bool,
    /// Whether the account is blocked outright.
    pub account_blocked: bool,
    /// Number of day trades in the trailing five sessions.
    pub daytrade_count: Option<u32>,
}

/// Why an account is not fit for trading.
#[derive(Copy, Clone, Debug, PartialEq, Eq, Structural)]
pub enum AccountError {
    /// The status is not `ACTIVE`.
    Inactive,
    /// Trading or the account is blocked.
    Blocked,
    /// The account does not settle in USD.
    NotUsd,
    /// The account number is not the one configured.
    UnexpectedAccountNumber,
}

/// The outcome of the pre-trade account check, the checks taken in order.
pub open spec fn spec_validate_for_trading(account: Account, expected: Option<Seq<char>>) -> Result<
    (),
    AccountError,
> {
    if account.status@ != "ACTIVE"@ {
        Err(AccountError::Inactive)
    } else if account.trading_blocked || account.account_blocked {
        Err(AccountError::Blocked)
    } else if account.currency@ != "USD"@ {
        Err(AccountError::NotUsd)
    } else if expected matches Some(e) && account.account_number@ != e {
        Err(AccountError::UnexpectedAccountNumber)
    } else {
        Ok(())
    }
}

impl Account {
    /// Returns true when the venue reports any block that prevents order submission.
    pub fn is_blocked(&self) -> (res: bool)
        ensures
            res == (self.trading_blocked || self.account_blocked),
    {
        self.trading_blocked || self.account_blocked
    }

    /// Validates the venue facts required before trading this account.
    ///
    /// Fails when the account is inactive, blocked, non-USD, or does not match the configured
    /// account number, checked in that order.
    pub fn validate_for_trading(&self, expected_account_number: Option<&str>) -> (res: Result<
        (),
        AccountError,
    >)
        ensures
            res == spec_validate_for_trading(*self, opt_ref_view(expected_account_number)),
    {
        let active = "ACTIVE";
        let usd = "USD";
        if !str_equals(self.status.as_str(), active) {
            return Err(AccountError::Inactive);
        }
        if self.is_blocked() {
            return Err(AccountError::Blocked);
        }
        if !str_equals(self.currency.as_str(), usd) {
            return Err(AccountError::NotUsd);
        }
        if let Some(expected) = expected_account_number {
            if !str_equals(self.account_number.as_str(), expected) {
                return Err(AccountError::UnexpectedAccountNumber);
            }
        }
        Ok(())
    }
}

/// A previous-close equity loss which crossed a configured account limit.
#[derive(Clone, Copy, Debug, PartialEq, Eq, Structural)]
pub struct DailyLossBreach {
    /// Absolute loss from the previous close, in USD.
    pub loss_usd: Decimal,
    /// Loss as a percentage of previous-close equity.
    pub loss_pct: Decimal,
}

impl DailyLossBreach {
    /// Describes the breach.
    pub fn message(&self) -> (res: String)
        requires
            self.loss_usd.wf(),
            self.loss_pct.wf(),
        ensures
            res@ == "Alpaca daily loss "@ + decimal_string(
                self.loss_usd.mantissa as int,
                self.loss_usd.scale as nat,
            ) + " USD ("@ + decimal_string(self.loss_pct.mantissa as int, self.loss_pct.scale as nat)
                + "%) crossed configured previous-close limit"@,
    {
        let mut msg = String::from_str("Alpaca daily loss ");
        let usd = decimal_to_string(self.loss_usd);
        msg.append(usd.as_str());
        msg.append(" USD (");
        let pct = decimal_to_string(self.loss_pct);
        msg.append(pct.as_str());
        msg.append("%) crossed configured previous-close limit");
        msg
    }
}

/// Which configured daily-loss limit an error refers to.
#[derive(Copy, Clone, Debug, PartialEq, Eq, Structural)]
pub enum LossLimit {
    /// The maximum daily loss in USD.
    Usd,
    /// The maximum daily loss in percent of previous-close equity.
    Percent,
}

/// Why the daily-loss check could not be evaluated.
#[derive(Copy, Clone, Debug, PartialEq, Eq, Structural)]
pub enum DailyLossError {
    /// A configured limit is zero or negative.
    NonPositiveLimit(LossLimit),
    /// The reported equity is not a decimal.
    InvalidEquity,
    /// The reported previous-close equity is not a decimal.
    InvalidLastEquity,
    /// The previous-close equity is zero or negative.
    NonPositiveLastEquity,
    /// The loss or its percentage overflows the decimal range.
    Overflow,
}

/// The loss percentage and the breach decision, once the loss is known to be positive.
pub open spec fn spec_breach_of(
    loss: (int, nat),
    last_equity: (int, nat),
    max_loss_usd: Option<Decimal>,
    max_loss_pct: Option<Decimal>,
) -> Result<Option<DailyLossBreach>, DailyLossError> {
    match decimal_product(loss, (100, 0)) {
        None => Err(DailyLossError::Overflow),
        Some(scaled) => match decimal_quotient(scaled, last_equity) {
            None => Err(DailyLossError::Overflow),
            Some(pct) => {
                let cash_hit = max_loss_usd matches Some(limit) && value_le(limit, from_parts(loss));
                let pct_hit = max_loss_pct matches Some(limit) && value_le(limit, from_parts(pct));
                if cash_hit || pct_hit {
                    Ok(Some(DailyLossBreach { loss_usd: from_parts(loss), loss_pct: from_parts(pct) }))
                } else {
                    Ok(None)
                }
            },
        },
    }
}

/// The daily-loss evaluation, the checks taken in order: no limit configured means no check; a
/// configured limit must be positive; both equity amounts must parse, previous-close equity must
/// be positive; a loss that is not positive is no breach; otherwise either limit reached is a
/// breach.
pub open spec fn spec_daily_loss_breach(
    account: Account,
    max_loss_usd: Option<Decimal>,
    max_loss_pct: Option<Decimal>,
) -> Result<Option<DailyLossBreach>, DailyLossError> {
    if max_loss_usd is None && max_loss_pct is None {
        Ok(None)
    } else if max_loss_usd matches Some(l) && l.mantissa <= 0 {
        Err(DailyLossError::NonPositiveLimit(LossLimit::Usd))
    } else if max_loss_pct matches Some(l) && l.mantissa <= 0 {
        Err(DailyLossError::NonPositiveLimit(LossLimit::Percent))
    } else {
        match parsed_decimal(account.equity@) {
            None => Err(DailyLossError::InvalidEquity),
            Some(equity) => match parsed_decimal(account.last_equity@) {
                None => Err(DailyLossError::InvalidLastEquity),
                Some(last) => if from_parts(last).mantissa <= 0 {
                    Err(DailyLossError::NonPositiveLastEquity)
                } else {
                    match decimal_difference(last, equity) {
                        None => Err(DailyLossError::Overflow),
                        Some(loss) => if from_parts(loss).mantissa <= 0 {
                            Ok(None)
                        } else {
                            spec_breach_of(loss, last, max_loss_usd, max_loss_pct)
                        },
                    }
                },
            },
        }
    }
}

/// True when the limit is absent or well-formed.
pub open spec fn opt_decimal_wf(limit: Option<Decimal>) -> bool {
    limit matches Some(l) ==> l.wf()
}

impl Account {
    /// Evaluates absolute and percentage loss from the venue's previous-close equity.
    ///
    /// Fails when a configured limit is non-positive, an equity amount is not a decimal, or
    /// previous-close equity is not positive; an arithmetic overflow is reported rather than
    /// raised.
    pub fn daily_loss_breach(
        &self,
        max_loss_usd: Option<Decimal>,
        max_loss_pct: Option<Decimal>,
    ) -> (res: Result<Option<DailyLossBreach>, DailyLossError>)
        requires
            opt_decimal_wf(max_loss_usd),
            opt_decimal_wf(max_loss_pct),
        ensures
            res == spec_daily_loss_breach(*self, max_loss_usd, max_loss_pct),
    {
        if max_loss_usd.is_none() && max_loss_pct.is_none() {
            return Ok(None);
        }
        if let Some(limit) = max_loss_usd {
            if !limit.is_positive() {
                return Err(DailyLossError::NonPositiveLimit(LossLimit::Usd));
            }
        }
        if let Some(limit) = max_loss_pct {
            if !limit.is_positive() {
                return Err(DailyLossError::NonPositiveLimit(LossLimit::Percent));
            }
        }
        let equity = match parse_decimal_str(self.equity.as_str()) {
            Some(d) => d,
            None => {
                return Err(DailyLossError::InvalidEquity);
            },
        };
        let last_equity = match parse_decimal_str(self.last_equity.as_str()) {
            Some(d) => d,
            None => {
                return Err(DailyLossError::InvalidLastEquity);
            },
        };
        if !last_equity.is_positive() {
            return Err(DailyLossError::NonPositiveLastEquity);
        }
        let loss_usd = match decimal_checked_sub(last_equity, equity) {
            Some(d) => d,
            None => {
                return Err(DailyLossError::Overflow);
            },
        };
        if !loss_usd.is_positive() {
            return Ok(None);
        }
        let scaled = match decimal_checked_mul(loss_usd, Decimal::from_u64(100)) {
            Some(d) => d,
            None => {
                return Err(DailyLossError::Overflow);
            },
        };
        let loss_pct = match decimal_checked_div(scaled, last_equity) {
            Some(d) => d,
            None => {
                return Err(DailyLossError::Overflow);
            },
        };
        let cash_hit = match max_loss_usd {
            Some(limit) => decimal_le(limit, loss_usd),
            None => false,
        };
        let pct_hit = match max_loss_pct {
            Some(limit) => decimal_le(limit, loss_pct),
            None => false,
        };
        if cash_hit || pct_hit {
            Ok(Some(DailyLossBreach { loss_usd, loss_pct }))
        } else {
            Ok(None)
        }
    }
}

/// A breach is only ever reported for a positive loss that reaches a configured limit: the
/// loss is positive, and it reaches the USD limit or its percentage reaches the percent limit.
pub proof fn lemma_breach_needs_a_positive_loss_at_a_limit(
    account: Account,
    max_loss_usd: Option<Decimal>,
    max_loss_pct: Option<Decimal>,
)
    requires
        spec_daily_loss_breach(account, max_loss_usd, max_loss_pct) matches Ok(Some(_)),
    ensures
        spec_daily_loss_breach(account, max_loss_usd, max_loss_pct) matches Ok(Some(b)) && b.loss_usd.mantissa > 0 && (
        (max_loss_usd matches Some(l) && value_le(l, b.loss_usd)) || (max_loss_pct matches Some(l)
            && value_le(l, b.loss_pct))),
{
}

/// With no limit configured the check never fails and never reports a breach, whatever the
/// account reports.
pub proof fn lemma_no_limit_no_check(account: Account)
    ensures
        spec_daily_loss_breach(account, None, None) == Ok::<Option<DailyLossBreach>, DailyLossError>(None),
{
}

} // verus!
