//! Exact decimal numbers, as prices, quantities and equity amounts travel on the venue.
//!
//! A [`Decimal`] is a signed integer mantissa scaled by a power of ten, with the range of the
//! 96-bit fixed-point decimal type the arithmetic is delegated to. Its value is
//! `mantissa / 10^scale`; two decimals with different scales may hold the same value
//! (`1.0100` and `1.01`).

use vstd::prelude::*;

use crate::common::text::decimal;

verus! {

/// The largest scale (digits after the point) a decimal carries.
pub const MAX_SCALE: u32 = 28;

/// The largest mantissa magnitude, `2^96 - 1`.
pub const MAX_MANTISSA: i128 = 79228162514264337593543950335;

/// `10^n`.
pub open spec fn pow10(n: nat) -> int
    decreases n,
{
    if n == 0 {
        1
    } else {
        10 * pow10((n - 1) as nat)
    }
}

/// An exact decimal number: `mantissa / 10^scale`.
#[derive(Clone, Copy, Debug, PartialEq, Eq, Structural)]
pub struct Decimal {
    /// The signed digits.
    pub mantissa: i128,
    /// The number of digits after the point.
    pub scale: u32,
}

/// `10^n` is positive.
pub proof fn lemma_pow10_positive(n: nat)
    ensures
        pow10(n) > 0,
    decreases n,
{
    if n > 0 {
        lemma_pow10_positive((n - 1) as nat);
    }
}

/// `10^(a + b) == 10^a * 10^b`.
pub proof fn lemma_pow10_add(a: nat, b: nat)
    ensures
        pow10(a + b) == pow10(a) * pow10(b),
    decreases b,
{
    if b > 0 {
        lemma_pow10_add(a, (b - 1) as nat);
        assert(pow10(a + b) == 10 * pow10((a + b - 1) as nat));
        assert(pow10(a) * pow10(b) == pow10(a) * (10 * pow10((b - 1) as nat)));
        assert(pow10(a) * (10 * pow10((b - 1) as nat)) == 10 * (pow10(a) * pow10((b - 1) as nat)))
            by (nonlinear_arith);
    }
}

/// `n / p` rounded to the nearest integer, a half rounded up (away from zero for a magnitude).
pub open spec fn round_half_up(n: nat, p: nat) -> nat
    recommends
        p > 0,
{
    if 2 * (n % p) >= p {
        n / p + 1
    } else {
        n / p
    }
}

/// The decimal's value written at scale `target`: rounded half away from zero when `target` has
/// fewer digits after the point, else exactly; `None` when the mantissa would leave the range.
pub open spec fn spec_rounded(d: Decimal, target: nat) -> Option<Decimal> {
    let mag = abs(d.mantissa as int);
    let v: int = if d.scale >= target {
        round_half_up(mag as nat, pow10((d.scale - target) as nat) as nat) as int
    } else {
        mag * pow10((target - d.scale) as nat)
    };
    if v > MAX_MANTISSA || target > MAX_SCALE {
        None
    } else {
        Some(Decimal { mantissa: (if d.mantissa < 0 { -v } else { v }) as i128, scale: target as u32 })
    }
}

/// `10^n` for `n` up to the largest scale.
pub fn pow10_u128(n: u32) -> (res: u128)
    requires
        n <= MAX_SCALE,
    ensures
        res == pow10(n as nat),
        res >= 1,
        res <= 10000000000000000000000000000,
{
    proof {
        reveal_with_fuel(pow10, 29);
        assert(pow10(28) == 10000000000000000000000000000);
    }
    let mut r: u128 = 1;
    let mut i: u32 = 0;
    while i < n
        invariant
            i <= n <= MAX_SCALE,
            r == pow10(i as nat),
            pow10(28) == 10000000000000000000000000000,
        decreases n - i,
    {
        proof {
            lemma_pow10_add((i + 1) as nat, (28 - (i + 1)) as nat);
            lemma_pow10_positive((28 - (i + 1)) as nat);
            assert(pow10((i + 1) as nat) <= pow10(28)) by (nonlinear_arith)
                requires
                    pow10(28) == pow10((i + 1) as nat) * pow10((28 - (i + 1)) as nat),
                    pow10((28 - (i + 1)) as nat) >= 1,
                    pow10((i + 1) as nat) >= 0,
            ;
            lemma_pow10_positive(i as nat);
        }
        r = r * 10;
        i = i + 1;
    }
    proof {
        lemma_pow10_positive(n as nat);
        lemma_pow10_add(n as nat, (28 - n) as nat);
        lemma_pow10_positive((28 - n) as nat);
        assert(pow10(n as nat) <= pow10(28)) by (nonlinear_arith)
            requires
                pow10(28) == pow10(n as nat) * pow10((28 - n) as nat),
                pow10((28 - n) as nat) >= 1,
                pow10(n as nat) >= 0,
        ;
    }
    r
}

proof fn lemma_division_bound(mag: int, p: int, max: int)
    requires
        p > 0,
        mag >= 0,
        max >= 0,
    ensures
        mag <= max / p <==> mag * p <= max,
{
    assert(mag <= max / p ==> mag * p <= max) by (nonlinear_arith)
        requires
            p > 0,
            mag >= 0,
            max >= 0,
    {
        assert((max / p) * p <= max);
    }
    assert(mag > max / p ==> mag * p > max) by (nonlinear_arith)
        requires
            p > 0,
            mag >= 0,
            max >= 0,
    {
        assert(max < (max / p + 1) * p);
    }
}

proof fn lemma_rounding_fits(mag: int, p: int)
    requires
        p >= 1,
        0 <= mag <= MAX_MANTISSA,
    ensures
        round_half_up(mag as nat, p as nat) <= MAX_MANTISSA,
{
    if p == 1 {
        assert(mag % 1 == 0);
        assert(mag / 1 == mag);
    } else {
        assert(mag / p <= mag / 2) by (nonlinear_arith)
            requires
                p >= 2,
                mag >= 0,
        ;
        assert(mag / 2 + 1 <= MAX_MANTISSA);
    }
}

/// Writes the decimal at scale `target` (see [`spec_rounded`]): a half rounded away from zero.
pub fn round_to_scale(d: Decimal, target: u32) -> (res: Option<Decimal>)
    requires
        d.wf(),
    ensures
        res == spec_rounded(d, target as nat),
        res matches Some(r) ==> r.wf(),
{
    if target > MAX_SCALE {
        return None;
    }
    let neg = d.mantissa < 0;
    let mag: u128 = if neg {
        (-d.mantissa) as u128
    } else {
        d.mantissa as u128
    };
    assert(mag == abs(d.mantissa as int));
    let max: u128 = MAX_MANTISSA as u128;
    let v: u128 = if d.scale >= target {
        let p = pow10_u128(d.scale - target);
        let q = mag / p;
        let r = mag % p;
        proof {
            lemma_rounding_fits(mag as int, p as int);
        }
        if r >= p - r {
            q + 1
        } else {
            q
        }
    } else {
        let p = pow10_u128(target - d.scale);
        proof {
            lemma_division_bound(mag as int, p as int, MAX_MANTISSA as int);
        }
        if mag > max / p {
            return None;
        }
        mag * p
    };
    if v > max {
        return None;
    }
    let m: i128 = if neg {
        -(v as i128)
    } else {
        v as i128
    };
    Some(Decimal { mantissa: m, scale: target })
}

/// A decimal given as its mantissa and scale.
pub open spec fn parts(d: Decimal) -> (int, nat) {
    (d.mantissa as int, d.scale as nat)
}

/// The decimal with the given mantissa and scale.
pub open spec fn from_parts(p: (int, nat)) -> Decimal {
    Decimal { mantissa: p.0 as i128, scale: p.1 as u32 }
}

/// True when the parts are within the range a decimal can hold.
pub open spec fn parts_wf(p: (int, nat)) -> bool {
    p.1 <= MAX_SCALE && -MAX_MANTISSA <= p.0 <= MAX_MANTISSA
}

/// `a <= b` as numbers.
pub open spec fn value_le(a: Decimal, b: Decimal) -> bool {
    a.mantissa * pow10(b.scale as nat) <= b.mantissa * pow10(a.scale as nat)
}

/// `a == b` as numbers, whatever their scales.
pub open spec fn value_eq(a: Decimal, b: Decimal) -> bool {
    a.mantissa * pow10(b.scale as nat) == b.mantissa * pow10(a.scale as nat)
}

/// True when `a` is a whole multiple of `unit` (a non-zero decimal).
pub open spec fn is_multiple_of(a: Decimal, unit: Decimal) -> bool {
    (a.mantissa * pow10(unit.scale as nat)) % (unit.mantissa * pow10(a.scale as nat)) == 0
}

/// Absolute value of an integer.
pub open spec fn abs(x: int) -> int {
    if x < 0 {
        -x
    } else {
        x
    }
}

/// `n` zero digits.
pub open spec fn zeros(n: nat) -> Seq<char> {
    Seq::new(n, |i: int| '0')
}

/// The plain decimal notation of `mantissa / 10^scale`: a `-` for negative values, at least one
/// digit before the point, and exactly `scale` digits after it (no point when `scale` is zero).
pub open spec fn decimal_string(mantissa: int, scale: nat) -> Seq<char> {
    let digits = decimal(abs(mantissa) as nat);
    let padded = if digits.len() <= scale {
        zeros((scale + 1 - digits.len()) as nat) + digits
    } else {
        digits
    };
    let whole = padded.len() - scale;
    let body = if scale == 0 {
        padded
    } else {
        padded.subrange(0, whole) + "."@ + padded.subrange(whole, padded.len() as int)
    };
    if mantissa < 0 {
        "-"@ + body
    } else {
        body
    }
}

/// What the decimal parser makes of a text, as mantissa and scale, or `None` when the text is
/// not a decimal.
pub uninterp spec fn parsed_decimal(text: Seq<char>) -> Option<(int, nat)>;

/// The difference of two decimals, or `None` when it overflows.
pub uninterp spec fn decimal_difference(a: (int, nat), b: (int, nat)) -> Option<(int, nat)>;

/// The product of two decimals, or `None` when it overflows.
pub uninterp spec fn decimal_product(a: (int, nat), b: (int, nat)) -> Option<(int, nat)>;

/// The quotient of two decimals, rounded to the type's precision, or `None` when the divisor is
/// zero or the quotient overflows.
pub uninterp spec fn decimal_quotient(a: (int, nat), b: (int, nat)) -> Option<(int, nat)>;

impl Decimal {
    /// True when the mantissa and scale are within the type's range.
    pub open spec fn wf(self) -> bool {
        parts_wf(parts(self))
    }

    /// Creates a decimal from its mantissa and scale.
    pub fn new(mantissa: i128, scale: u32) -> (res: Decimal)
        requires
            scale <= MAX_SCALE,
            -MAX_MANTISSA <= mantissa <= MAX_MANTISSA,
        ensures
            res.mantissa == mantissa,
            res.scale == scale,
            res.wf(),
    {
        Decimal { mantissa, scale }
    }

    /// Creates a decimal from its mantissa and scale, or `None` when they are out of range.
    pub fn try_new(mantissa: i128, scale: u32) -> (res: Option<Decimal>)
        ensures
            res matches Some(d) ==> d.mantissa == mantissa && d.scale == scale && d.wf(),
            res is None <==> !parts_wf((mantissa as int, scale as nat)),
    {
        if scale <= MAX_SCALE && -MAX_MANTISSA <= mantissa && mantissa <= MAX_MANTISSA {
            Some(Decimal { mantissa, scale })
        } else {
            None
        }
    }

    /// A whole number.
    pub fn from_u64(n: u64) -> (res: Decimal)
        ensures
            res.mantissa == n,
            res.scale == 0,
            res.wf(),
    {
        Decimal { mantissa: n as i128, scale: 0 }
    }

    /// The absolute value, at the same scale.
    pub fn abs(self) -> (res: Decimal)
        requires
            self.wf(),
        ensures
            res.mantissa == abs(self.mantissa as int),
            res.scale == self.scale,
            res.wf(),
    {
        if self.mantissa < 0 {
            Decimal { mantissa: -self.mantissa, scale: self.scale }
        } else {
            self
        }
    }

    /// True when the mantissa and scale are within the type's range.
    pub fn is_wf(self) -> (res: bool)
        ensures
            res == self.wf(),
    {
        self.scale <= MAX_SCALE && -MAX_MANTISSA <= self.mantissa && self.mantissa <= MAX_MANTISSA
    }

    /// True when the value is zero.
    pub fn is_zero(self) -> (res: bool)
        ensures
            res == (self.mantissa == 0),
    {
        self.mantissa == 0
    }

    /// True when the value is strictly positive.
    pub fn is_positive(self) -> (res: bool)
        ensures
            res == (self.mantissa > 0),
    {
        self.mantissa > 0
    }

    /// The negated value, at the same scale.
    pub fn neg(self) -> (res: Decimal)
        requires
            self.wf(),
        ensures
            res.mantissa == -self.mantissa,
            res.scale == self.scale,
            res.wf(),
    {
        Decimal { mantissa: -self.mantissa, scale: self.scale }
    }
}

/// `a <= b` as numbers (`PartialOrd` of the decimal type, which orders by value).
#[verifier::external_body]
pub(crate) fn decimal_le(a: Decimal, b: Decimal) -> (res: bool)
    requires
        a.wf(),
        b.wf(),
    ensures
        res == value_le(a, b),
{
    rust_decimal::Decimal::from_i128_with_scale(a.mantissa, a.scale)
        <= rust_decimal::Decimal::from_i128_with_scale(b.mantissa, b.scale)
}

/// `a == b` as numbers (`PartialEq` of the decimal type, which compares values, not scales).
#[verifier::external_body]
pub(crate) fn decimal_eq(a: Decimal, b: Decimal) -> (res: bool)
    requires
        a.wf(),
        b.wf(),
    ensures
        res == value_eq(a, b),
{
    rust_decimal::Decimal::from_i128_with_scale(a.mantissa, a.scale)
        == rust_decimal::Decimal::from_i128_with_scale(b.mantissa, b.scale)
}

/// The remainder of `a / unit` (`Rem` of the decimal type).
///
/// The remainder is exact, so it is zero exactly when `a` is a whole multiple of `unit`. The
/// operator panics only on a zero divisor, which the contract excludes.
#[verifier::external_body]
pub(crate) fn decimal_rem(a: Decimal, unit: Decimal) -> (res: Decimal)
    requires
        a.wf(),
        unit.wf(),
        unit.mantissa != 0,
    ensures
        res.wf(),
        (res.mantissa == 0) == is_multiple_of(a, unit),
{
    let r = rust_decimal::Decimal::from_i128_with_scale(a.mantissa, a.scale)
        % rust_decimal::Decimal::from_i128_with_scale(unit.mantissa, unit.scale);
    Decimal { mantissa: r.mantissa(), scale: r.scale() }
}

/// Formats a decimal (`Display` of the decimal type) in plain notation with its own scale.
#[verifier::external_body]
pub(crate) fn decimal_to_string(d: Decimal) -> (res: String)
    requires
        d.wf(),
    ensures
        res@ == decimal_string(d.mantissa as int, d.scale as nat),
{
    rust_decimal::Decimal::from_i128_with_scale(d.mantissa, d.scale).to_string()
}

/// Parses a decimal (`FromStr` of the decimal type).
///
/// What the parser accepts, and how it rounds digits beyond the type's precision, is left to
/// the name [`parsed_decimal`]; the result is within the type's range.
#[verifier::external_body]
pub(crate) fn parse_decimal_str(text: &str) -> (res: Option<Decimal>)
    ensures
        res matches Some(d) ==> d.wf() && parsed_decimal(text@) == Some(parts(d)),
        res is None <==> parsed_decimal(text@) is None,
{
    match text.parse::<rust_decimal::Decimal>() {
        Ok(d) => Some(Decimal { mantissa: d.mantissa(), scale: d.scale() }),
        Err(_) => None,
    }
}

/// `a - b`, or `None` on overflow (`Decimal::checked_sub`).
#[verifier::external_body]
pub(crate) fn decimal_checked_sub(a: Decimal, b: Decimal) -> (res: Option<Decimal>)
    requires
        a.wf(),
        b.wf(),
    ensures
        res matches Some(d) ==> d.wf() && decimal_difference(parts(a), parts(b)) == Some(parts(d)),
        res is None <==> decimal_difference(parts(a), parts(b)) is None,
{
    let r = rust_decimal::Decimal::from_i128_with_scale(a.mantissa, a.scale).checked_sub(
        rust_decimal::Decimal::from_i128_with_scale(b.mantissa, b.scale),
    );
    match r {
        Some(d) => Some(Decimal { mantissa: d.mantissa(), scale: d.scale() }),
        None => None,
    }
}

/// `a * b`, or `None` on overflow (`Decimal::checked_mul`).
#[verifier::external_body]
pub(crate) fn decimal_checked_mul(a: Decimal, b: Decimal) -> (res: Option<Decimal>)
    requires
        a.wf(),
        b.wf(),
    ensures
        res matches Some(d) ==> d.wf() && decimal_product(parts(a), parts(b)) == Some(parts(d)),
        res is None <==> decimal_product(parts(a), parts(b)) is None,
{
    let r = rust_decimal::Decimal::from_i128_with_scale(a.mantissa, a.scale).checked_mul(
        rust_decimal::Decimal::from_i128_with_scale(b.mantissa, b.scale),
    );
    match r {
        Some(d) => Some(Decimal { mantissa: d.mantissa(), scale: d.scale() }),
        None => None,
    }
}

/// `a / b`, or `None` on a zero divisor or overflow (`Decimal::checked_div`).
#[verifier::external_body]
pub(crate) fn decimal_checked_div(a: Decimal, b: Decimal) -> (res: Option<Decimal>)
    requires
        a.wf(),
        b.wf(),
    ensures
        res matches Some(d) ==> d.wf() && decimal_quotient(parts(a), parts(b)) == Some(parts(d)),
        res is None <==> decimal_quotient(parts(a), parts(b)) is None,
{
    let r = rust_decimal::Decimal::from_i128_with_scale(a.mantissa, a.scale).checked_div(
        rust_decimal::Decimal::from_i128_with_scale(b.mantissa, b.scale),
    );
    match r {
        Some(d) => Some(Decimal { mantissa: d.mantissa(), scale: d.scale() }),
        None => None,
    }
}

} // verus!
