use nautilus_alpaca::{
    common::{
        decimal::Decimal,
        model::{LiquiditySide, BarAggregation, BarSpecification, OrderSide, OrderStatus, OrderType, PositionSideSpecified, PriceType, TimeInForce},
        order_enums::{ConversionError, AlpacaOrderSide, AlpacaOrderStatus, AlpacaOrderType, AlpacaTimeInForce},
    },
    http::{
        models::{AlpacaFillActivity, AlpacaOrder, AlpacaPosition, Asset, OrderTypeError},
        parse::{
            bar_close_time, bar_spec_to_timeframe, instrument_id, is_loadable, parse_equity,
            parse_rfc3339_nanos, BarTimeError, ParseEquityError, TimestampError, TimeframeError,
        },
        parse_exec::{
            extract_execution_id, is_open_status, parse_decimal, parse_fill_activity_report,
            parse_fill_report, parse_order_status_report, parse_position_status_report, parse_price,
            parse_quantity, ExecutionIdError, ReportError, ReportField,
        },
    },
    websocket::messages::TradeUpdate,
};

fn d(mantissa: i128, scale: u32) -> Decimal {
    Decimal::new(mantissa, scale)
}

fn order(status: AlpacaOrderStatus) -> AlpacaOrder {
    AlpacaOrder {
        id: "61e69015-8549-4bfd-b9c3-01e75843f47d".to_string(),
        client_order_id: "eb9e2aaa-f71a-4f51-b5b4-52a6c565dad4".to_string(),
        symbol: "AAPL".to_string(),
        asset_class: Some("us_equity".to_string()),
        order_type: Some(AlpacaOrderType::Limit),
        type_alias: Some(AlpacaOrderType::Limit),
        side: AlpacaOrderSide::Buy,
        time_in_force: AlpacaTimeInForce::Day,
        status,
        qty: Some("10".to_string()),
        filled_qty: Some("0".to_string()),
        filled_avg_price: None,
        limit_price: Some("150.25".to_string()),
        stop_price: None,
        notional: None,
        extended_hours: false,
        order_class: Some("simple".to_string()),
        replaces: None,
        replaced_by: None,
        created_at: Some("2026-08-18T13:30:00.123456789Z".to_string()),
        submitted_at: Some("2026-08-18T13:30:01Z".to_string()),
        updated_at: Some("2026-08-18T13:31:00Z".to_string()),
        filled_at: None,
        canceled_at: None,
        expired_at: None,
        expires_at: None,
        replaced_at: None,
        failed_at: None,
    }
}

fn position(qty: &str, side: &str) -> AlpacaPosition {
    AlpacaPosition {
        asset_id: "a".to_string(),
        symbol: "AAPL".to_string(),
        exchange: Some("NASDAQ".to_string()),
        asset_class: Some("us_equity".to_string()),
        qty: qty.to_string(),
        qty_available: None,
        avg_entry_price: "187.43".to_string(),
        side: side.to_string(),
        market_value: None,
        cost_basis: None,
        unrealized_pl: None,
        current_price: None,
    }
}

fn activity(id: &str, side: AlpacaOrderSide, qty: &str) -> AlpacaFillActivity {
    AlpacaFillActivity {
        id: id.to_string(),
        activity_type: Some("FILL".to_string()),
        fill_type: Some("partial_fill".to_string()),
        transaction_time: "2026-08-20T09:09:34.216Z".to_string(),
        symbol: "AAPL".to_string(),
        side,
        price: "201.455".to_string(),
        qty: qty.to_string(),
        order_id: "o-1".to_string(),
        cum_qty: Some("7".to_string()),
        leaves_qty: Some("3".to_string()),
        order_status: Some("partially_filled".to_string()),
    }
}

#[test]
fn test_instrument_id_uses_alpaca_venue() {
    assert_eq!(instrument_id("AAPL"), "AAPL.ALPACA");
}

#[test]
fn test_is_loadable_requires_both_active_and_tradable() {
    let mut asset = Asset {
        id: "1".to_string(),
        class: "us_equity".to_string(),
        exchange: "NASDAQ".to_string(),
        symbol: "AAPL".to_string(),
        name: None,
        status: "active".to_string(),
        tradable: true,
        marginable: true,
        shortable: true,
        easy_to_borrow: true,
        borrow_status: None,
        fractionable: true,
        maintenance_margin_requirement: Some(30),
        margin_requirement_long: None,
        margin_requirement_short: None,
        attributes: vec![],
    };
    assert!(is_loadable(&asset));
    asset.tradable = false;
    assert!(!is_loadable(&asset));
    asset.tradable = true;
    asset.status = "inactive".to_string();
    assert!(!is_loadable(&asset));
    asset.status = "active".to_string();
    asset.class = "crypto".to_string();
    assert!(!is_loadable(&asset));
}

#[test]
fn test_bar_spec_maps_to_venue_timeframe() {
    for (step, aggregation, expected) in [
        (1, BarAggregation::Minute, "1Min"),
        (5, BarAggregation::Minute, "5Min"),
        (1, BarAggregation::Hour, "1Hour"),
        (1, BarAggregation::Day, "1Day"),
        (1, BarAggregation::Week, "1Week"),
        (3, BarAggregation::Month, "3Month"),
    ] {
        let spec = BarSpecification { step, aggregation, price_type: PriceType::Last };
        assert_eq!(bar_spec_to_timeframe(spec), Ok(expected.to_string()));
    }
}

#[test]
fn test_sub_minute_and_non_time_aggregations_are_rejected() {
    for aggregation in [BarAggregation::Second, BarAggregation::Millisecond, BarAggregation::Tick, BarAggregation::Volume] {
        let spec = BarSpecification { step: 1, aggregation, price_type: PriceType::Last };
        assert_eq!(bar_spec_to_timeframe(spec), Err(TimeframeError::UnsupportedAggregation(aggregation)));
    }
}

#[test]
fn test_rfc3339_parsing_keeps_nanosecond_precision() {
    assert_eq!(parse_rfc3339_nanos("2026-08-18T13:30:00.123456789Z"), Ok(1_787_059_800_123_456_789));
    assert_eq!(parse_rfc3339_nanos("2026-08-18T09:30:00-04:00"), Ok(1_787_059_800_000_000_000));
    assert_eq!(parse_rfc3339_nanos("yesterday"), Err(TimestampError::Malformed));
    assert_eq!(parse_rfc3339_nanos("1969-12-31T23:59:59Z"), Err(TimestampError::OutOfRange));
}

#[test]
fn test_parse_new_order_report() {
    let report = parse_order_status_report(&order(AlpacaOrderStatus::New), "ALPACA-001", 5).unwrap();
    assert_eq!(report.account_id, "ALPACA-001");
    assert_eq!(report.instrument_id, "AAPL.ALPACA");
    assert_eq!(report.venue_order_id, "61e69015-8549-4bfd-b9c3-01e75843f47d");
    assert_eq!(report.client_order_id, "eb9e2aaa-f71a-4f51-b5b4-52a6c565dad4");
    let f = report.fields;
    assert_eq!(f.order_side, OrderSide::Buy);
    assert_eq!(f.order_type, OrderType::Limit);
    assert_eq!(f.time_in_force, TimeInForce::Day);
    assert_eq!(f.order_status, OrderStatus::Accepted);
    assert_eq!(f.quantity, d(10, 0));
    assert_eq!(f.filled_qty, d(0, 0));
    assert_eq!(f.price, Some(d(1502500, 4)));
    assert_eq!(f.trigger_price, None);
    assert_eq!(f.ts_accepted, 1_787_059_801_000_000_000);
    assert_eq!(f.ts_last, 1_787_059_860_000_000_000);
    assert_eq!(f.ts_init, 5);
}

#[test]
fn test_parse_filled_order_carries_average_price() {
    let mut o = order(AlpacaOrderStatus::Filled);
    o.filled_qty = Some("10".to_string());
    o.filled_avg_price = Some("150.2".to_string());
    let report = parse_order_status_report(&o, "A", 1).unwrap();
    assert_eq!(report.fields.avg_px, Some(d(1502, 1)));
    assert_eq!(report.fields.order_status, OrderStatus::Filled);
}

#[test]
fn test_replaced_order_is_refused_rather_than_reported_as_canceled() {
    let mut o = order(AlpacaOrderStatus::Replaced);
    o.replaced_by = Some("new-id".to_string());
    let err = parse_order_status_report(&o, "A", 1).unwrap_err();
    assert_eq!(err, ReportError::Superseded { replaced_by: Some("new-id".to_string()) });
    assert_eq!(
        err.message(&o.id),
        format!("Order {} was replaced by new-id; report the replacement instead", o.id)
    );
    assert_eq!(ReportError::NoExecutionId.message("o-1"), "Fill for order o-1 has no execution ID");
    assert_eq!(
        ReportError::InvalidDecimal(ReportField::FilledQty).message("o-1"),
        "Invalid decimal for filled_qty of order o-1"
    );
}

#[test]
fn test_notional_order_is_refused() {
    let mut o = order(AlpacaOrderStatus::New);
    o.qty = None;
    assert_eq!(parse_order_status_report(&o, "A", 1), Err(ReportError::NoQuantity));
}

#[test]
fn test_order_report_defaults_and_errors() {
    let mut o = order(AlpacaOrderStatus::New);
    o.submitted_at = None;
    o.created_at = None;
    o.updated_at = None;
    let report = parse_order_status_report(&o, "A", 42).unwrap();
    assert_eq!((report.fields.ts_accepted, report.fields.ts_last), (42, 42));

    let mut conflicting = order(AlpacaOrderStatus::New);
    conflicting.type_alias = Some(AlpacaOrderType::Market);
    assert_eq!(
        parse_order_status_report(&conflicting, "A", 1),
        Err(ReportError::OrderType(OrderTypeError::Conflicting(AlpacaOrderType::Limit, AlpacaOrderType::Market)))
    );
    let mut bad_price = order(AlpacaOrderStatus::New);
    bad_price.limit_price = Some("cheap".to_string());
    assert_eq!(parse_order_status_report(&bad_price, "A", 1), Err(ReportError::InvalidDecimal(ReportField::LimitPrice)));
    let mut bad_time = order(AlpacaOrderStatus::New);
    bad_time.submitted_at = Some("soon".to_string());
    assert_eq!(parse_order_status_report(&bad_time, "A", 1), Err(ReportError::Timestamp(TimestampError::Malformed)));
}

#[test]
fn test_prices_are_parsed_exactly() {
    // A decimal string must not lose digits on the way to a price.
    assert_eq!(parse_price("300.0050", "limit_price", 4), Ok(d(3000050, 4)));
    assert_eq!(parse_decimal("10000.12345678", "cash"), Ok(d(1000012345678, 8)));
}

#[test]
fn test_prices_and_quantities_are_rounded_to_their_precision() {
    assert_eq!(parse_price("300.00005", "price", 4), Ok(d(3000001, 4)));
    assert_eq!(parse_price("300.00004", "price", 4), Ok(d(3000000, 4)));
    assert_eq!(parse_price("-1.23455", "price", 4), Ok(d(-12346, 4)));
    assert_eq!(parse_price("12", "price", 4), Ok(d(120000, 4)));
    assert!(parse_price("79228162514264337593543950335", "price", 4).is_err());
    assert_eq!(parse_quantity("-5", "qty"), Ok(d(5, 0)));
    assert_eq!(parse_quantity("10.5", "qty"), Ok(d(11, 0)));
    assert_eq!(parse_quantity("10.49", "qty"), Ok(d(10, 0)));
    assert_eq!(parse_quantity("-0.5", "qty"), Ok(d(1, 0)));
}

#[test]
fn test_malformed_decimals_are_rejected() {
    for raw in ["", "abc", "1.2.3"] {
        let err = parse_decimal(raw, "price").unwrap_err();
        assert_eq!(err.field, "price");
        assert_eq!(err.raw, raw);
    }
}

#[test]
fn test_long_position_report() {
    let report = parse_position_status_report(&position("5", "long"), "A", 3).unwrap();
    assert_eq!(report.position_side, PositionSideSpecified::Long);
    assert_eq!(report.quantity, d(5, 0));
    assert_eq!(report.avg_px_open, Some(d(18743, 2)));
}

#[test]
fn test_short_position_reports_negative_signed_quantity() {
    let report = parse_position_status_report(&position("-5", "short"), "A", 3).unwrap();
    assert_eq!(report.position_side, PositionSideSpecified::Short);
    assert_eq!(report.quantity, d(5, 0));
}

#[test]
fn test_short_detected_from_quantity_sign_alone() {
    let report = parse_position_status_report(&position("-5", "long"), "A", 3).unwrap();
    assert_eq!(report.position_side, PositionSideSpecified::Short);
}

#[test]
fn test_zero_quantity_position_is_flat() {
    let report = parse_position_status_report(&position("0", "short"), "A", 3).unwrap();
    assert_eq!(report.position_side, PositionSideSpecified::Flat);
}

#[test]
fn test_open_status_classification() {
    for (status, expected) in [
        (OrderStatus::Submitted, true),
        (OrderStatus::Accepted, true),
        (OrderStatus::PartiallyFilled, true),
        (OrderStatus::PendingUpdate, true),
        (OrderStatus::PendingCancel, true),
        (OrderStatus::Filled, false),
        (OrderStatus::Canceled, false),
        (OrderStatus::Rejected, false),
        (OrderStatus::Expired, false),
    ] {
        assert_eq!(is_open_status(status), expected, "{status:?}");
    }
}

fn fill_update() -> TradeUpdate {
    TradeUpdate {
        event: "fill".to_string(),
        timestamp: Some("2026-08-18T13:30:05Z".to_string()),
        order: order(AlpacaOrderStatus::Filled),
        price: Some("150.25".to_string()),
        qty: Some("10".to_string()),
        position_qty: Some("10".to_string()),
        execution_id: Some("c27c5376-c4eb-414c-ba5a-4fb21d0b4c87".to_string()),
    }
}

/// A fill of order o-1 (client c-1): ten AAPL shares bought.
fn venue_fill(execution_id: Option<&str>, price: Option<&str>) -> TradeUpdate {
    let mut o = order(AlpacaOrderStatus::Filled);
    o.id = "o-1".to_string();
    o.client_order_id = "c-1".to_string();
    o.qty = Some("10".to_string());
    o.filled_qty = Some("10".to_string());
    TradeUpdate {
        event: "fill".to_string(),
        timestamp: Some("2026-08-14T14:30:05.123456Z".to_string()),
        order: o,
        price: price.map(|p| p.to_string()),
        qty: Some("10".to_string()),
        position_qty: None,
        execution_id: execution_id.map(|x| x.to_string()),
    }
}

#[test]
fn test_parse_fill_report() {
    let update = venue_fill(Some("e-1"), Some("300.005"));
    let report = parse_fill_report(&update, "A", 9).unwrap();
    assert_eq!(report.instrument_id, "AAPL.ALPACA");
    assert_eq!(report.venue_order_id, "o-1");
    assert_eq!(report.trade_id, "e-1");
    assert_eq!(report.last_qty, d(10, 0));
    assert_eq!(report.last_px, d(3000050, 4));
    assert_eq!(report.ts_init, 9);
}

#[test]
fn test_fill_report_details() {
    let report = parse_fill_report(&fill_update(), "A", 9).unwrap();
    assert_eq!(report.trade_id, "c27c5376-c4eb-414c-ba5a-4fb21d0b4c87");
    assert_eq!(report.order_side, OrderSide::Buy);
    assert_eq!(report.last_px, d(1502500, 4));
    assert_eq!(report.ts_event, 1_787_059_805_000_000_000);
    assert_eq!(report.client_order_id.as_deref(), Some("eb9e2aaa-f71a-4f51-b5b4-52a6c565dad4"));
    assert!(report.commission.is_zero());
    assert_eq!(report.liquidity_side, LiquiditySide::NoLiquiditySide);
}

#[test]
fn test_fill_without_execution_id_is_refused() {
    let mut u = fill_update();
    u.execution_id = None;
    assert_eq!(parse_fill_report(&u, "A", 9), Err(ReportError::NoExecutionId));
}

#[test]
fn test_fill_without_price_is_refused() {
    let mut u = fill_update();
    u.price = None;
    assert_eq!(parse_fill_report(&u, "A", 9), Err(ReportError::NoFillDetail));
}

#[test]
fn test_non_fill_update_is_refused() {
    let mut u = fill_update();
    u.event = "new".to_string();
    assert_eq!(parse_fill_report(&u, "A", 9), Err(ReportError::NoFillDetail));
}

#[test]
fn test_parse_fill_activity_report() {
    let a = activity("20260820050934216::c27c5376-c4eb-414c-ba5a-4fb21d0b4c87", AlpacaOrderSide::SellShort, "3");
    let report = parse_fill_activity_report(&a, "A", 9).unwrap();
    assert_eq!(report.trade_id, "c27c5376-c4eb-414c-ba5a-4fb21d0b4c87");
    // A short sale is a sell to the engine.
    assert_eq!(report.order_side, OrderSide::Sell);
    // The execution's own quantity, not the order's running total.
    assert_eq!(report.last_qty, d(3, 0));
    assert_eq!(report.last_px, d(2014550, 4));
    assert_eq!(report.ts_event, 1_787_216_974_216_000_000);
    assert_eq!(report.client_order_id, None);
    assert!(report.commission.is_zero());
    assert_eq!(report.liquidity_side, LiquiditySide::NoLiquiditySide);
}

#[test]
fn test_execution_id_extraction() {
    for (activity_id, expected) in [
        ("20260820050934216::c27c5376-c4eb-414c-ba5a-4fb21d0b4c87", "c27c5376-c4eb-414c-ba5a-4fb21d0b4c87"),
        ("a::b::c", "c"),
        ("short-id", "short-id"),
    ] {
        assert_eq!(extract_execution_id(activity_id), Ok(expected));
    }
}

#[test]
fn test_overlong_execution_id_is_refused_not_truncated() {
    let long = "x".repeat(60);
    assert_eq!(extract_execution_id(&long), Err(ExecutionIdError::TooLong));
    let a = activity(&long, AlpacaOrderSide::Buy, "1");
    assert_eq!(parse_fill_activity_report(&a, "A", 1), Err(ReportError::ExecutionId(ExecutionIdError::TooLong)));
}

fn equity_asset(class: &str) -> Asset {
    Asset {
        id: "b0b6dd9d-8b9b-48a9-ba46-b9d54906e415".to_string(),
        class: class.to_string(),
        exchange: "NASDAQ".to_string(),
        symbol: "AAPL".to_string(),
        name: Some("Apple Inc. Common Stock".to_string()),
        status: "active".to_string(),
        tradable: true,
        marginable: true,
        shortable: true,
        easy_to_borrow: true,
        borrow_status: None,
        fractionable: true,
        maintenance_margin_requirement: Some(30),
        margin_requirement_long: None,
        margin_requirement_short: None,
        attributes: vec!["overnight_tradable".to_string()],
    }
}

#[test]
fn test_parse_equity_sizes_at_the_finest_permitted_increment() {
    let equity = parse_equity(&equity_asset("us_equity"), 42).unwrap();
    assert_eq!(equity.instrument_id, "AAPL.ALPACA");
    assert_eq!(equity.symbol, "AAPL");
    assert_eq!(equity.price_precision, 4);
    assert_eq!(equity.price_increment, d(1, 4));
    assert_eq!(equity.info.asset_id, "b0b6dd9d-8b9b-48a9-ba46-b9d54906e415");
    assert_eq!(equity.info.exchange, "NASDAQ");
    assert_eq!(equity.ts_init, 42);
    assert_eq!(equity.ts_event, 42);
    assert_eq!(equity.quote_currency, "USD");
    assert_eq!(equity.size_precision, 0);
    assert_eq!(equity.lot_size, None);
}

#[test]
fn test_parse_equity_refuses_other_asset_classes() {
    assert_eq!(parse_equity(&equity_asset("crypto"), 0), Err(ParseEquityError::NotAnEquity));
}

#[test]
fn test_bar_is_stamped_at_its_close() {
    let open = parse_rfc3339_nanos("2026-08-18T14:30:00Z").unwrap();
    let one_minute = 60_000_000_000;
    assert_eq!(bar_close_time("2026-08-18T14:30:00Z", one_minute), Ok(open + one_minute));
    assert_eq!(bar_close_time("2026-08-18T14:30:00Z", u64::MAX), Ok(u64::MAX));
    assert!(matches!(bar_close_time("yesterday", one_minute), Err(BarTimeError::Timestamp(_))));
}

#[test]
fn test_conversion_error_messages() {
    assert_eq!(ConversionError::UnrecognisedSide.message(), "Unrecognised Alpaca order side");
    assert_eq!(
        ConversionError::GtdUnsupported.message(),
        "Alpaca has no GTD time in force; use GTC or DAY instead"
    );
    assert_eq!(
        ConversionError::UnsupportedOrderType(OrderType::Market).message(),
        "Alpaca does not support this order type"
    );
}
