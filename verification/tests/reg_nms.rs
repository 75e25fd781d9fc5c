use nautilus_alpaca::common::{
    decimal::Decimal,
    reg_nms::{
        check_order_price, is_valid_order_price, min_price_increment, penny_increment,
        penny_threshold, sub_dollar_increment, BOUND_AT_OR_ABOVE, BOUND_BELOW, PRICE_PRECISION,
    },
};

fn d(mantissa: i128, scale: u32) -> Decimal {
    Decimal::new(mantissa, scale)
}

#[test]
fn test_increment_is_keyed_on_the_order_price() {
    let cases = [
        (d(1, 4), sub_dollar_increment()),
        (d(9999, 4), sub_dollar_increment()),
        (d(100, 2), penny_increment()),
        (d(101, 2), penny_increment()),
        (d(30469, 2), penny_increment()),
    ];
    for (price, expected) in cases {
        assert_eq!(min_price_increment(price), expected, "{price:?}");
    }
}

#[test]
fn test_threshold_is_inclusive_at_one_dollar() {
    assert_eq!(min_price_increment(d(100, 2)), penny_increment());
    assert!(is_valid_order_price(d(100, 2)));
    assert!(!is_valid_order_price(d(10001, 4)));
}

#[test]
fn test_sub_dollar_prices_may_use_four_decimals() {
    for price in [d(9999, 4), d(1, 4), d(5, 1), d(1234, 4)] {
        assert!(is_valid_order_price(price), "{price:?}");
    }
}

#[test]
fn test_sub_penny_at_or_above_one_dollar_is_rejected() {
    for price in [d(1001, 3), d(1005, 3), d(10999, 3), d(304695, 3)] {
        assert!(!is_valid_order_price(price), "{price:?}");
        let err = check_order_price(price).unwrap_err();
        assert_eq!(err.increment, penny_increment());
        assert_eq!(err.bound, "at or above");
    }
}

#[test]
fn test_finer_than_four_decimals_is_rejected_below_a_dollar() {
    assert!(!is_valid_order_price(d(5, 5)));
    let err = check_order_price(d(5, 5)).unwrap_err();
    assert_eq!(err.increment, sub_dollar_increment());
    assert_eq!(err.bound, "below");
}

#[test]
fn test_valid_prices_pass_the_check() {
    for price in [d(100, 2), d(1, 2), d(30469, 2), d(123456, 2)] {
        assert!(check_order_price(price).is_ok(), "{price:?}");
    }
}

#[test]
fn test_half_penny_is_not_yet_permissible() {
    assert!(!is_valid_order_price(d(1005, 3)));
    assert!(!is_valid_order_price(d(25125, 3)));
}

#[test]
fn test_trailing_zeros_do_not_affect_validity() {
    assert!(is_valid_order_price(d(10100, 4)));
    assert!(is_valid_order_price(d(101, 2)));
}

#[test]
fn test_violation_message_names_the_applicable_increment() {
    let err = check_order_price(d(1001, 3)).unwrap_err();
    let msg = err.message();
    assert!(msg.contains("1.001"), "{msg}");
    assert!(msg.contains("0.01"), "{msg}");
    assert!(msg.contains("at or above"), "{msg}");
    assert_eq!(
        msg,
        "price 1.001 violates SEC Rule 612: orders at or above 1.00 must be in increments of 0.01"
    );
}

#[test]
fn test_negative_prices_are_keyed_on_their_magnitude() {
    assert_eq!(min_price_increment(d(-150, 2)), penny_increment());
    assert_eq!(min_price_increment(d(-5, 1)), sub_dollar_increment());
    assert!(!is_valid_order_price(d(-1005, 3)));
}

#[test]
fn test_violation_below_a_dollar_names_the_lower_band() {
    let err = check_order_price(d(12345, 5)).unwrap_err();
    assert_eq!(err.bound, BOUND_BELOW);
    assert_eq!(err.threshold, penny_threshold());
    assert_eq!(err.price, d(12345, 5));
    assert_eq!(
        err.message(),
        "price 0.12345 violates SEC Rule 612: orders below 1.00 must be in increments of 0.0001"
    );
}

#[test]
fn test_whole_dollars_and_constants() {
    assert!(is_valid_order_price(d(5, 0)));
    assert_eq!(PRICE_PRECISION, 4);
    assert_eq!(BOUND_AT_OR_ABOVE, "at or above");
    assert_eq!(penny_threshold(), d(100, 2));
}
