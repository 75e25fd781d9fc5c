//! Minimum pricing increment rules for US equities (SEC Reg NMS Rule 612).
//!
//! The venue publishes no per-instrument price increment, so order prices are validated against
//! the regulation directly. The increment is set by the order's own price, not by where the stock
//! trades: a limit at `0.9999` is always permissible and a limit at `1.001` never is.
//!
//! The rule governs quoting and order acceptance only; fills may print in sub-penny amounts and
//! are not validated here.

use vstd::prelude::*;

use crate::common::decimal::{
    abs, decimal_le, decimal_rem, decimal_string, decimal_to_string, is_multiple_of,
    lemma_pow10_add, lemma_pow10_positive, pow10, value_eq, value_le, Decimal,
};

verus! {

/// Decimal places used to model equity prices: sub-dollar quotes are permitted to `$0.0001`.
pub const PRICE_PRECISION: u8 = 4;

/// Text of the bound for prices at or above the threshold.
pub const BOUND_AT_OR_ABOVE: &'static str = "at or above";

/// Text of the bound for prices below the threshold.
pub const BOUND_BELOW: &'static str = "below";

/// `$1.00`, the price at or above which orders must be priced in whole cents.
pub open spec fn spec_penny_threshold() -> Decimal {
    Decimal { mantissa: 100, scale: 2 }
}

/// `$0.01`, the increment for orders priced at or above the threshold.
pub open spec fn spec_penny_increment() -> Decimal {
    Decimal { mantissa: 1, scale: 2 }
}

/// `$0.0001`, the increment for orders priced below the threshold.
pub open spec fn spec_sub_dollar_increment() -> Decimal {
    Decimal { mantissa: 1, scale: 4 }
}

/// Returns the penny threshold, `1.00`.
pub fn penny_threshold() -> (res: Decimal)
    ensures
        res == spec_penny_threshold(),
{
    Decimal { mantissa: 100, scale: 2 }
}

/// Returns the penny increment, `0.01`.
pub fn penny_increment() -> (res: Decimal)
    ensures
        res == spec_penny_increment(),
{
    Decimal { mantissa: 1, scale: 2 }
}

/// Returns the sub-dollar increment, `0.0001`.
pub fn sub_dollar_increment() -> (res: Decimal)
    ensures
        res == spec_sub_dollar_increment(),
{
    Decimal { mantissa: 1, scale: 4 }
}

/// True when `|price| >= 1.00`.
pub open spec fn at_or_above_threshold(price: Decimal) -> bool {
    value_le(
        spec_penny_threshold(),
        Decimal { mantissa: abs(price.mantissa as int) as i128, scale: price.scale },
    )
}

/// The minimum increment that applies to an order priced at `price`.
pub open spec fn spec_min_price_increment(price: Decimal) -> Decimal {
    if at_or_above_threshold(price) {
        spec_penny_increment()
    } else {
        spec_sub_dollar_increment()
    }
}

/// True when `price` is a whole multiple of the increment that applies at its own magnitude.
pub open spec fn spec_is_valid_order_price(price: Decimal) -> bool {
    is_multiple_of(price, spec_min_price_increment(price))
}

/// Returns the minimum permissible price increment for an order priced at `price`.
///
/// Keyed on the order price itself, never on the instrument or its last traded price.
pub fn min_price_increment(price: Decimal) -> (res: Decimal)
    requires
        price.wf(),
    ensures
        res == spec_min_price_increment(price),
{
    if decimal_le(penny_threshold(), price.abs()) {
        penny_increment()
    } else {
        sub_dollar_increment()
    }
}

/// Returns true when `price` is a permissible order price under Rule 612.
pub fn is_valid_order_price(price: Decimal) -> (res: bool)
    requires
        price.wf(),
    ensures
        res == spec_is_valid_order_price(price),
{
    let increment = min_price_increment(price);
    decimal_rem(price, increment).is_zero()
}

/// Describes why an order price is not permissible.
#[derive(Clone, Debug, PartialEq, Eq)]
pub struct RegNmsViolation {
    /// The offending price.
    pub price: Decimal,
    /// The increment that applies at this price.
    pub increment: Decimal,
    /// The threshold the price was compared against.
    pub threshold: Decimal,
    /// Whether the price sits at/above or below the threshold.
    pub bound: &'static str,
}

/// The violation reported for a price that is not permissible.
pub open spec fn spec_violation_of(price: Decimal, v: RegNmsViolation) -> bool {
    &&& v.price == price
    &&& v.increment == spec_min_price_increment(price)
    &&& v.threshold == spec_penny_threshold()
    &&& v.bound@ == (if at_or_above_threshold(price) {
        BOUND_AT_OR_ABOVE@
    } else {
        BOUND_BELOW@
    })
}

/// The text of a violation.
pub open spec fn spec_violation_message(v: RegNmsViolation) -> Seq<char> {
    "price "@ + decimal_string(v.price.mantissa as int, v.price.scale as nat)
        + " violates SEC Rule 612: orders "@ + v.bound@ + " "@ + decimal_string(
        v.threshold.mantissa as int,
        v.threshold.scale as nat,
    ) + " must be in increments of "@ + decimal_string(
        v.increment.mantissa as int,
        v.increment.scale as nat,
    )
}

impl RegNmsViolation {
    /// Describes the violation, naming the price, the bound, the threshold and the increment.
    pub fn message(&self) -> (res: String)
        requires
            self.price.wf(),
            self.threshold.wf(),
            self.increment.wf(),
        ensures
            res@ == spec_violation_message(*self),
    {
        let mut msg = String::from_str("price ");
        let price = decimal_to_string(self.price);
        msg.append(price.as_str());
        msg.append(" violates SEC Rule 612: orders ");
        msg.append(self.bound);
        msg.append(" ");
        let threshold = decimal_to_string(self.threshold);
        msg.append(threshold.as_str());
        msg.append(" must be in increments of ");
        let increment = decimal_to_string(self.increment);
        msg.append(increment.as_str());
        msg
    }
}

/// Validates an order price against Rule 612.
///
/// Returns the violation, naming the increment that applies at this price, when `price` is not
/// a multiple of it.
pub fn check_order_price(price: Decimal) -> (res: Result<(), RegNmsViolation>)
    requires
        price.wf(),
    ensures
        res is Ok <==> spec_is_valid_order_price(price),
        res matches Err(v) ==> spec_violation_of(price, v),
{
    if is_valid_order_price(price) {
        return Ok(());
    }
    let at_or_above = decimal_le(penny_threshold(), price.abs());
    Err(
        RegNmsViolation {
            price,
            increment: min_price_increment(price),
            threshold: penny_threshold(),
            bound: if at_or_above {
                BOUND_AT_OR_ABOVE
            } else {
                BOUND_BELOW
            },
        },
    )
}

/// The threshold is one dollar, inclusive: the penny band holds exactly the prices whose
/// magnitude is at least `1`.
pub proof fn lemma_threshold_is_one_dollar(price: Decimal)
    requires
        price.wf(),
    ensures
        at_or_above_threshold(price) <==> pow10(price.scale as nat) <= abs(price.mantissa as int),
        spec_min_price_increment(price) == (if pow10(price.scale as nat) <= abs(
            price.mantissa as int,
        ) {
            spec_penny_increment()
        } else {
            spec_sub_dollar_increment()
        }),
{
    reveal_with_fuel(pow10, 3);
    assert(pow10(2) == 100);
}

/// At or above one dollar, a price is permissible exactly when it is a whole number of cents.
pub proof fn lemma_whole_cents_at_or_above_a_dollar(price: Decimal)
    requires
        price.wf(),
        at_or_above_threshold(price),
    ensures
        spec_is_valid_order_price(price) <==> (price.mantissa * 100) % pow10(price.scale as nat)
            == 0,
{
    reveal_with_fuel(pow10, 3);
    assert(pow10(2) == 100);
    assert(1 * pow10(price.scale as nat) == pow10(price.scale as nat));
    assert(price.mantissa * pow10(2) == price.mantissa * 100);
}

/// Below one dollar, every price written with at most four decimals is permissible.
pub proof fn lemma_four_decimals_below_a_dollar(price: Decimal)
    requires
        price.wf(),
        !at_or_above_threshold(price),
        price.scale <= 4,
    ensures
        spec_is_valid_order_price(price),
{
    let s = price.scale as nat;
    let k = (4 - s) as nat;
    lemma_pow10_add(k, s);
    lemma_pow10_positive(s);
    lemma_pow10_positive(k);
    let m = price.mantissa as int;
    assert(m * pow10(4) == (m * pow10(k)) * pow10(s)) by (nonlinear_arith)
        requires
            pow10(4) == pow10(k) * pow10(s),
    ;
    vstd::arithmetic::div_mod::lemma_mod_multiples_basic(m * pow10(k), pow10(s));
    assert(1 * pow10(s) == pow10(s));
}

/// At or above one dollar, every price written with at most two decimals is permissible.
pub proof fn lemma_cents_at_or_above_a_dollar(price: Decimal)
    requires
        price.wf(),
        at_or_above_threshold(price),
        price.scale <= 2,
    ensures
        spec_is_valid_order_price(price),
{
    let s = price.scale as nat;
    let k = (2 - s) as nat;
    lemma_pow10_add(k, s);
    lemma_pow10_positive(s);
    lemma_pow10_positive(k);
    let m = price.mantissa as int;
    assert(m * pow10(2) == (m * pow10(k)) * pow10(s)) by (nonlinear_arith)
        requires
            pow10(2) == pow10(k) * pow10(s),
    ;
    vstd::arithmetic::div_mod::lemma_mod_multiples_basic(m * pow10(k), pow10(s));
    assert(1 * pow10(s) == pow10(s));
}

/// Whether a price is permissible depends on its value alone, not on how it was written:
/// `1.0100` and `1.01` are both permissible or both not.
pub proof fn lemma_validity_depends_on_value_alone(a: Decimal, b: Decimal)
    requires
        a.wf(),
        b.wf(),
        value_eq(a, b),
    ensures
        spec_min_price_increment(a) == spec_min_price_increment(b),
        spec_is_valid_order_price(a) == spec_is_valid_order_price(b),
{
    let p = pow10(a.scale as nat);
    let q = pow10(b.scale as nat);
    lemma_pow10_positive(a.scale as nat);
    lemma_pow10_positive(b.scale as nat);
    lemma_threshold_is_one_dollar(a);
    lemma_threshold_is_one_dollar(b);
    let am = abs(a.mantissa as int);
    let bm = abs(b.mantissa as int);
    assert(am * q == bm * p) by (nonlinear_arith)
        requires
            a.mantissa * q == b.mantissa * p,
            p > 0,
            q > 0,
            am == abs(a.mantissa as int),
            bm == abs(b.mantissa as int),
    ;
    assert((p <= am) == (q <= bm)) by (nonlinear_arith)
        requires
            am * q == bm * p,
            p > 0,
            q > 0,
    ;
    let inc = spec_min_price_increment(a);
    let k = pow10(inc.scale as nat);
    lemma_pow10_positive(inc.scale as nat);
    let x = a.mantissa * k;
    let y = b.mantissa * k;
    assert(x * q == y * p) by (nonlinear_arith)
        requires
            a.mantissa * q == b.mantissa * p,
            x == a.mantissa * k,
            y == b.mantissa * k,
    ;
    assert(1 * p == p);
    assert(1 * q == q);
    lemma_scaled_divisibility(x, y, p, q);
    lemma_scaled_divisibility(y, x, q, p);
}

/// If `x * q == y * p` with `p, q > 0`, then `p | x` implies `q | y`.
proof fn lemma_scaled_divisibility(x: int, y: int, p: int, q: int)
    requires
        p > 0,
        q > 0,
        x * q == y * p,
    ensures
        x % p == 0 ==> y % q == 0,
{
    if x % p == 0 {
        vstd::arithmetic::div_mod::lemma_fundamental_div_mod(x, p);
        let c = x / p;
        assert(x == p * c);
        assert(y * p == (c * q) * p) by (nonlinear_arith)
            requires
                x * q == y * p,
                x == p * c,
        ;
        assert(y == c * q) by (nonlinear_arith)
            requires
                y * p == (c * q) * p,
                p > 0,
        ;
        vstd::arithmetic::div_mod::lemma_mod_multiples_basic(c, q);
    }
}

} // verus!
