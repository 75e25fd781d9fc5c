use nautilus_alpaca::{
    common::{
        decimal::{Decimal, MAX_MANTISSA},
        reg_nms::{is_valid_order_price, min_price_increment},
        text::trim,
    },
    http::{
        models::DailyLossBreach,
        parse_exec::{parse_decimal, InvalidDecimal},
    },
};

fn d(mantissa: i128, scale: u32) -> Decimal {
    Decimal::new(mantissa, scale)
}

fn breach_text(loss_usd: Decimal, loss_pct: Decimal) -> String {
    DailyLossBreach { loss_usd, loss_pct }.message()
}

#[test]
fn test_decimal_text_is_plain_notation_at_its_own_scale() {
    assert_eq!(
        breach_text(d(150, 2), d(-5, 3)),
        "Alpaca daily loss 1.50 USD (-0.005%) crossed configured previous-close limit"
    );
    assert_eq!(
        breach_text(d(0, 2), d(0, 0)),
        "Alpaca daily loss 0.00 USD (0%) crossed configured previous-close limit"
    );
    assert_eq!(
        breach_text(d(12345, 0), d(1, 4)),
        "Alpaca daily loss 12345 USD (0.0001%) crossed configured previous-close limit"
    );
}

#[test]
fn test_decimal_parsing_keeps_the_written_scale() {
    assert_eq!(parse_decimal("1.50", "price"), Ok(d(150, 2)));
    assert_eq!(parse_decimal("-4", "qty"), Ok(d(-4, 0)));
    assert_eq!(parse_decimal("0.0001", "price"), Ok(d(1, 4)));
    assert_eq!(
        parse_decimal("abc", "price"),
        Err(InvalidDecimal { field: "price".to_string(), raw: "abc".to_string() })
    );
    assert!(parse_decimal("", "price").is_err());
}

#[test]
fn test_decimal_order_is_by_value() {
    // The penny increment starts at one dollar however the price is written.
    assert_eq!(min_price_increment(d(1, 0)), d(1, 2));
    assert_eq!(min_price_increment(d(100, 2)), d(1, 2));
    assert_eq!(min_price_increment(d(9999, 4)), d(1, 4));
    assert_eq!(min_price_increment(d(-2, 0)), d(1, 2));
}

#[test]
fn test_decimal_remainder_is_exact() {
    assert!(is_valid_order_price(d(101, 2)));
    assert!(!is_valid_order_price(d(1001, 3)));
    assert!(is_valid_order_price(d(5, 0)));
    assert!(is_valid_order_price(d(500000, 5)));
}

#[test]
fn test_decimal_constructors() {
    assert_eq!(Decimal::try_new(1, 29), None);
    assert_eq!(Decimal::try_new(MAX_MANTISSA + 1, 0), None);
    assert_eq!(Decimal::try_new(-7, 2), Some(d(-7, 2)));
    assert_eq!(Decimal::from_u64(100), d(100, 0));
    assert_eq!(d(-7, 2).abs(), d(7, 2));
    assert_eq!(d(7, 2).neg(), d(-7, 2));
    assert!(d(1, 0).is_positive() && !d(0, 3).is_positive() && d(0, 3).is_zero());
    assert!(d(7, 28).is_wf());
    assert!(!Decimal { mantissa: 7, scale: 29 }.is_wf());
    assert!(!Decimal { mantissa: MAX_MANTISSA + 1, scale: 0 }.is_wf());
}

#[test]
fn test_trim_drops_surrounding_whitespace_only() {
    assert_eq!(trim("  1.5 \t"), "1.5");
    assert_eq!(trim("a b"), "a b");
    assert_eq!(trim("   "), "");
    assert_eq!(trim(""), "");
}
