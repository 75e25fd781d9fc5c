use nautilus_alpaca::{
    common::{
        decimal::Decimal,
        model::{OrderSide, OrderStatus, OrderType, TimeInForce},
        order_enums::{
            AlpacaOrderSide, AlpacaOrderStatus, AlpacaOrderType, AlpacaTimeInForce,
            ConversionError,
        },
    },
    execution::{
        account_amounts, build_replace_request, build_submit_request,
        conflicting_working_client_order_ids, exactly_closes_position, fill_reports_from_activities,
        handle_update, order_lookup, order_report_params, position_reports, reports_from_orders, validate_loss_limits,
        AmendError, AmendOrder, CloseCheckError, DenyReason, OrderInit, OrderLookup,
        ReplacementChain, Settlement, StreamAction, StreamEvent, StreamStage, StreamSupervisor, SubmitAction,
        SubmitChecks, SubmitEvent, SubmitFlow, SubmitRequestError, SubmitStage, UpdateOutcome,
    },
    http::{
        models::{
            Account, AccountError, AlpacaFillActivity, AlpacaOrder, AlpacaPosition,
            DailyLossError, LossLimit,
        },
        parse_exec::{ReportError, ReportField},
        query::SubmitOrderRequest,
    },
    websocket::messages::TradeUpdate,
};

fn d(mantissa: i128, scale: u32) -> Decimal {
    Decimal::new(mantissa, scale)
}

fn active_account() -> Account {
    Account {
        id: "paper-id".to_string(),
        account_number: "PAPER123".to_string(),
        status: "ACTIVE".to_string(),
        currency: "USD".to_string(),
        cash: "10000".to_string(),
        portfolio_value: None,
        equity: "10000".to_string(),
        last_equity: "10000".to_string(),
        buying_power: "10000".to_string(),
        initial_margin: None,
        maintenance_margin: None,
        pattern_day_trader: false,
        trading_blocked: false,
        transfers_blocked: false,
        account_blocked: false,
        daytrade_count: None,
    }
}

fn request(side: AlpacaOrderSide, quantity: &str) -> SubmitOrderRequest {
    SubmitOrderRequest {
        symbol: "AAPL".to_string(),
        qty: quantity.to_string(),
        side,
        order_type: AlpacaOrderType::Limit,
        time_in_force: AlpacaTimeInForce::Day,
        client_order_id: Some("daily-loss-test".to_string()),
        limit_price: Some("100.00".to_string()),
        stop_price: None,
        extended_hours: true,
    }
}

fn position(symbol: &str, quantity: &str, side: &str) -> AlpacaPosition {
    AlpacaPosition {
        asset_id: "aapl-id".to_string(),
        symbol: symbol.to_string(),
        exchange: None,
        asset_class: None,
        qty: quantity.to_string(),
        qty_available: None,
        avg_entry_price: "100.00".to_string(),
        side: side.to_string(),
        market_value: None,
        cost_basis: None,
        unrealized_pl: None,
        current_price: None,
    }
}

fn order(client_order_id: &str, status: AlpacaOrderStatus) -> AlpacaOrder {
    AlpacaOrder {
        id: format!("venue-{client_order_id}"),
        client_order_id: client_order_id.to_string(),
        symbol: "AAPL".to_string(),
        asset_class: None,
        order_type: Some(AlpacaOrderType::Limit),
        type_alias: None,
        side: AlpacaOrderSide::Buy,
        time_in_force: AlpacaTimeInForce::Day,
        status,
        qty: Some("10".to_string()),
        filled_qty: Some("0".to_string()),
        filled_avg_price: None,
        limit_price: Some("150.25".to_string()),
        stop_price: None,
        notional: None,
        extended_hours: false,
        order_class: None,
        replaces: None,
        replaced_by: None,
        created_at: Some("2026-08-18T13:30:00Z".to_string()),
        submitted_at: None,
        updated_at: None,
        filled_at: None,
        canceled_at: None,
        expired_at: None,
        expires_at: None,
        replaced_at: None,
        failed_at: None,
    }
}

fn update(event: &str, order: AlpacaOrder) -> TradeUpdate {
    TradeUpdate {
        event: event.to_string(),
        timestamp: None,
        order,
        price: None,
        qty: None,
        position_qty: None,
        execution_id: None,
    }
}

fn init(order_type: OrderType, price: Option<Decimal>) -> OrderInit {
    OrderInit {
        symbol: "AAPL".to_string(),
        client_order_id: "O-1".to_string(),
        order_side: OrderSide::Buy,
        order_type,
        time_in_force: TimeInForce::Day,
        quantity: d(10, 0),
        price,
        trigger_price: None,
    }
}

fn checks(conflicts: bool) -> SubmitChecks {
    SubmitChecks {
        expected_account_number: Some("PAPER123".to_string()),
        max_daily_loss_usd: Some(d(500, 0)),
        max_daily_loss_pct: None,
        reject_conflicting_open_orders: conflicts,
    }
}

#[test]
fn test_active_unblocked_expected_account_passes_preflight() {
    assert!(active_account().validate_for_trading(Some("PAPER123")).is_ok());
}

#[test]
fn test_ineligible_account_fails_preflight() {
    for (status, currency, blocked, expected) in [
        ("CLOSED", "USD", false, AccountError::Inactive),
        ("ACTIVE", "EUR", false, AccountError::NotUsd),
        ("ACTIVE", "USD", true, AccountError::Blocked),
    ] {
        let mut account = active_account();
        account.status = status.to_string();
        account.currency = currency.to_string();
        account.trading_blocked = blocked;
        assert_eq!(account.validate_for_trading(Some("PAPER123")), Err(expected));
    }
}

#[test]
fn test_unexpected_account_number_fails_preflight() {
    assert_eq!(
        active_account().validate_for_trading(Some("LIVE456")),
        Err(AccountError::UnexpectedAccountNumber)
    );
    assert!(active_account().validate_for_trading(None).is_ok());
}

#[test]
fn test_daily_loss_uses_previous_close_and_either_limit() {
    let mut account = active_account();
    account.equity = "9400".to_string();

    let cash = account.daily_loss_breach(Some(d(500, 0)), Some(d(10, 0))).unwrap();
    let percent = account.daily_loss_breach(Some(d(1000, 0)), Some(d(5, 0))).unwrap();
    let below = account.daily_loss_breach(Some(d(1000, 0)), Some(d(10, 0))).unwrap();

    assert!(cash.is_some());
    assert!(percent.is_some());
    assert!(below.is_none());
    let breach = cash.unwrap();
    assert_eq!(breach.loss_usd, d(600, 0));
    assert_eq!(breach.message(), "Alpaca daily loss 600 USD (6%) crossed configured previous-close limit");
}

#[test]
fn test_daily_loss_with_invalid_previous_close_fails_closed() {
    let mut account = active_account();
    account.last_equity = "0".to_string();
    assert_eq!(
        account.daily_loss_breach(Some(d(500, 0)), None),
        Err(DailyLossError::NonPositiveLastEquity)
    );
}

#[test]
fn test_daily_loss_errors_and_gains() {
    let mut account = active_account();
    assert_eq!(account.daily_loss_breach(None, None), Ok(None));
    assert_eq!(
        account.daily_loss_breach(Some(d(0, 0)), None),
        Err(DailyLossError::NonPositiveLimit(LossLimit::Usd))
    );
    assert_eq!(
        account.daily_loss_breach(None, Some(d(-1, 0))),
        Err(DailyLossError::NonPositiveLimit(LossLimit::Percent))
    );
    account.equity = "10500".to_string();
    assert_eq!(account.daily_loss_breach(Some(d(1, 0)), None), Ok(None));
    account.equity = "n/a".to_string();
    assert_eq!(account.daily_loss_breach(Some(d(1, 0)), None), Err(DailyLossError::InvalidEquity));
    account.equity = "1".to_string();
    account.last_equity = "x".to_string();
    assert_eq!(
        account.daily_loss_breach(Some(d(1, 0)), None),
        Err(DailyLossError::InvalidLastEquity)
    );
}

#[test]
fn test_daily_loss_gate_allows_exact_long_or_short_close() {
    assert_eq!(
        exactly_closes_position(&request(AlpacaOrderSide::Sell, "2"), &vec![position("AAPL", "2", "long")]),
        Ok(true)
    );
    assert_eq!(
        exactly_closes_position(&request(AlpacaOrderSide::Buy, "2"), &vec![position("AAPL", "-2", "short")]),
        Ok(true)
    );
}

#[test]
fn test_daily_loss_gate_denies_new_risk_partial_reductions_and_oversells() {
    for (side, qty, pos, pos_side) in [
        (AlpacaOrderSide::Buy, "2", "2", "long"),
        (AlpacaOrderSide::Sell, "2", "-2", "short"),
        (AlpacaOrderSide::Sell, "1", "2", "long"),
        (AlpacaOrderSide::Sell, "3", "2", "long"),
    ] {
        assert_eq!(
            exactly_closes_position(&request(side, qty), &vec![position("AAPL", pos, pos_side)]),
            Ok(false)
        );
    }
}

#[test]
fn test_exact_close_check_errors() {
    assert_eq!(
        exactly_closes_position(&request(AlpacaOrderSide::Sell, "abc"), &vec![]),
        Err(CloseCheckError::InvalidOrderQuantity)
    );
    assert_eq!(
        exactly_closes_position(&request(AlpacaOrderSide::Sell, "0"), &vec![]),
        Err(CloseCheckError::NonPositiveOrderQuantity)
    );
    assert_eq!(
        exactly_closes_position(&request(AlpacaOrderSide::Sell, "2"), &vec![position("MSFT", "2", "long")]),
        Ok(false)
    );
    assert_eq!(
        exactly_closes_position(
            &request(AlpacaOrderSide::Sell, "2"),
            &vec![position("AAPL", "2", "long"), position("AAPL", "1", "long")]
        ),
        Err(CloseCheckError::MultiplePositions)
    );
    assert_eq!(
        exactly_closes_position(&request(AlpacaOrderSide::Sell, "2"), &vec![position("AAPL", "?", "long")]),
        Err(CloseCheckError::InvalidPositionQuantity)
    );
    // The comparison is by value: 2 and 2.00 are the same position size.
    assert_eq!(
        exactly_closes_position(&request(AlpacaOrderSide::Sell, "2"), &vec![position("AAPL", "2.00", "long")]),
        Ok(true)
    );
}

#[test]
fn test_conflicting_order_gate_ignores_same_identity_and_terminal_history() {
    let orders = vec![
        order("current", AlpacaOrderStatus::Accepted),
        order("manual-working", AlpacaOrderStatus::New),
        order("finished", AlpacaOrderStatus::Filled),
    ];
    assert_eq!(
        conflicting_working_client_order_ids("current", &orders),
        vec!["manual-working".to_string()]
    );
}

#[test]
fn test_unknown_id_resolves_to_itself() {
    let chain = ReplacementChain::new();
    assert_eq!(chain.resolve("A"), "A");
}

#[test]
fn test_replacement_is_resolved() {
    let mut chain = ReplacementChain::new();
    chain.record("A", "B");
    assert_eq!(chain.resolve("A"), "B");
}

#[test]
fn test_repeated_amendment_collapses_rather_than_nesting() {
    let mut chain = ReplacementChain::new();
    chain.record("A", "B");
    chain.record("B", "C");
    assert_eq!(chain.resolve("A"), "C");
    assert_eq!(chain.resolve("B"), "B");
}

#[test]
fn test_third_amendment_still_resolves_from_the_original() {
    let mut chain = ReplacementChain::new();
    chain.record("A", "B");
    chain.record("B", "C");
    chain.record("C", "D");
    assert_eq!(chain.resolve("A"), "D");
}

#[test]
fn test_chains_for_different_orders_stay_separate() {
    let mut chain = ReplacementChain::new();
    chain.record("A", "B");
    chain.record("X", "Y");
    assert_eq!(chain.resolve("A"), "B");
    assert_eq!(chain.resolve("X"), "Y");
}

#[test]
fn test_forget_drops_the_mapping() {
    let mut chain = ReplacementChain::new();
    chain.record("A", "B");
    chain.forget("A");
    assert_eq!(chain.resolve("A"), "A");
}

#[test]
fn test_submit_request_carries_the_order_at_its_precision() {
    let req = build_submit_request(&init(OrderType::Limit, Some(d(15025, 2))), true).unwrap();
    assert_eq!(req.symbol, "AAPL");
    assert_eq!(req.qty, "10");
    assert_eq!(req.side, AlpacaOrderSide::Buy);
    assert_eq!(req.order_type, AlpacaOrderType::Limit);
    assert_eq!(req.time_in_force, AlpacaTimeInForce::Day);
    assert_eq!(req.client_order_id.as_deref(), Some("O-1"));
    assert_eq!(req.limit_price.as_deref(), Some("150.25"));
    assert_eq!(req.stop_price, None);
    assert!(req.extended_hours);
}

#[test]
fn test_submit_request_refusals() {
    let mut gtd = init(OrderType::Market, None);
    gtd.time_in_force = TimeInForce::Gtd;
    assert_eq!(
        build_submit_request(&gtd, false),
        Err(SubmitRequestError::Conversion(ConversionError::GtdUnsupported))
    );
    let mut fractional = init(OrderType::Market, None);
    fractional.quantity = d(15, 1);
    assert_eq!(build_submit_request(&fractional, false), Err(SubmitRequestError::FractionalQuantity));
    match build_submit_request(&init(OrderType::Limit, Some(d(1001, 3))), false) {
        Err(SubmitRequestError::Price(v)) => assert_eq!(v.price, d(1001, 3)),
        other => panic!("unexpected {other:?}"),
    }
    assert_eq!(
        build_submit_request(&init(OrderType::StopLimit, None), false),
        Err(SubmitRequestError::LimitPriceRequired(OrderType::StopLimit))
    );
    let mut no_side = init(OrderType::Market, None);
    no_side.order_side = OrderSide::NoOrderSide;
    assert_eq!(
        build_submit_request(&no_side, false),
        Err(SubmitRequestError::Conversion(ConversionError::NoOrderSide))
    );
}

#[test]
fn test_amendment_requests() {
    let mut cmd = AmendOrder {
        client_order_id: "O-1".to_string(),
        venue_order_id: None,
        quantity: Some(d(5, 0)),
        price: None,
        trigger_price: None,
    };
    assert_eq!(build_replace_request(&cmd), Err(AmendError::NoVenueOrderId));
    cmd.venue_order_id = Some("V-1".to_string());
    let req = build_replace_request(&cmd).unwrap().unwrap();
    assert_eq!(req.qty.as_deref(), Some("5"));
    assert_eq!(req.limit_price, None);
    cmd.quantity = None;
    assert_eq!(build_replace_request(&cmd), Ok(None));
    cmd.quantity = Some(d(55, 1));
    assert_eq!(build_replace_request(&cmd), Err(AmendError::FractionalQuantity));
    cmd.quantity = None;
    cmd.trigger_price = Some(d(1005, 3));
    assert!(matches!(build_replace_request(&cmd), Err(AmendError::Price(_))));
    cmd.trigger_price = Some(d(99, 2));
    assert_eq!(build_replace_request(&cmd).unwrap().unwrap().stop_price.as_deref(), Some("0.99"));
}

#[test]
fn test_submission_without_breach_or_conflict_check_is_sent() {
    let mut flow = SubmitFlow::new(request(AlpacaOrderSide::Buy, "2"), checks(false), "daily-loss-test".to_string());
    assert_eq!(flow.on_event(SubmitEvent::AccountFetched(active_account())), SubmitAction::Submit);
    assert_eq!(flow.stage, SubmitStage::AwaitVenue);
    assert_eq!(flow.on_event(SubmitEvent::VenueAccepted("V-9".to_string())), SubmitAction::Accept("V-9".to_string()));
    assert_eq!(flow.stage, SubmitStage::Done);
    assert_eq!(flow.on_event(SubmitEvent::RecoveryFailed), SubmitAction::Ignore);
}

#[test]
fn test_submission_after_breach_needs_an_exact_close() {
    let mut account = active_account();
    account.equity = "9000".to_string();
    let mut flow = SubmitFlow::new(request(AlpacaOrderSide::Buy, "2"), checks(true), "daily-loss-test".to_string());
    assert_eq!(flow.on_event(SubmitEvent::AccountFetched(account.clone())), SubmitAction::FetchPositions);
    match flow.on_event(SubmitEvent::PositionsFetched(vec![position("AAPL", "2", "long")])) {
        SubmitAction::Deny(DenyReason::DailyLoss(b)) => assert_eq!(b.loss_usd, d(1000, 0)),
        other => panic!("unexpected {other:?}"),
    }

    let mut closing = SubmitFlow::new(request(AlpacaOrderSide::Buy, "2"), checks(true), "daily-loss-test".to_string());
    closing.on_event(SubmitEvent::AccountFetched(account));
    assert_eq!(
        closing.on_event(SubmitEvent::PositionsFetched(vec![position("AAPL", "-2", "short")])),
        SubmitAction::FetchOpenOrders
    );
    match closing.on_event(SubmitEvent::OpenOrdersFetched(vec![order("other", AlpacaOrderStatus::New)])) {
        SubmitAction::Deny(DenyReason::Conflicts(ids)) => assert_eq!(ids, vec!["other".to_string()]),
        other => panic!("unexpected {other:?}"),
    }
}

#[test]
fn test_failed_submission_is_recovered_not_replayed() {
    let mut flow = SubmitFlow::new(request(AlpacaOrderSide::Buy, "2"), checks(false), "daily-loss-test".to_string());
    flow.on_event(SubmitEvent::AccountFetched(active_account()));
    assert_eq!(flow.on_event(SubmitEvent::VenueFailed(false)), SubmitAction::RecoverByClientOrderId);
    let mut found = order("daily-loss-test", AlpacaOrderStatus::New);
    found.id = "V-7".to_string();
    assert_eq!(flow.on_event(SubmitEvent::RecoveryFound(found)), SubmitAction::Accept("V-7".to_string()));

    let mut ambiguous = SubmitFlow::new(request(AlpacaOrderSide::Buy, "2"), checks(false), "daily-loss-test".to_string());
    ambiguous.on_event(SubmitEvent::AccountFetched(active_account()));
    ambiguous.on_event(SubmitEvent::VenueFailed(false));
    assert_eq!(ambiguous.on_event(SubmitEvent::RecoveryFailed), SubmitAction::LeaveUnresolved);

    let mut rejected = SubmitFlow::new(request(AlpacaOrderSide::Buy, "2"), checks(false), "daily-loss-test".to_string());
    rejected.on_event(SubmitEvent::AccountFetched(active_account()));
    rejected.on_event(SubmitEvent::VenueFailed(true));
    assert_eq!(rejected.on_event(SubmitEvent::RecoveryFailed), SubmitAction::Reject);

    let mut mismatch = SubmitFlow::new(request(AlpacaOrderSide::Buy, "2"), checks(false), "daily-loss-test".to_string());
    mismatch.on_event(SubmitEvent::AccountFetched(active_account()));
    mismatch.on_event(SubmitEvent::VenueFailed(true));
    assert_eq!(
        mismatch.on_event(SubmitEvent::RecoveryFound(order("someone-else", AlpacaOrderStatus::New))),
        SubmitAction::LeaveUnresolved
    );
}

#[test]
fn test_submission_denials_before_the_venue() {
    let mut flow = SubmitFlow::new(request(AlpacaOrderSide::Buy, "2"), checks(false), "c".to_string());
    assert_eq!(flow.on_event(SubmitEvent::AccountQueryFailed), SubmitAction::Deny(DenyReason::AccountQueryFailed));
    let mut blocked = active_account();
    blocked.account_blocked = true;
    let mut flow = SubmitFlow::new(request(AlpacaOrderSide::Buy, "2"), checks(false), "c".to_string());
    assert_eq!(
        flow.on_event(SubmitEvent::AccountFetched(blocked)),
        SubmitAction::Deny(DenyReason::AccountCheck(AccountError::Blocked))
    );
}

#[test]
fn test_stream_gap_is_recovered_from_the_last_known_point() {
    let mut s = StreamSupervisor::new(100);
    assert_eq!((s.stage, s.recovery_start, s.recovery_end), (StreamStage::Live, 100, 100));
    assert_eq!(s.on_event(StreamEvent::UpdateHandled(150)), StreamAction::Continue);
    assert_eq!(s.on_event(StreamEvent::Closed), StreamAction::WaitAndReconnect);
    assert_eq!(s.on_event(StreamEvent::ReconnectFailed), StreamAction::WaitAndReconnect);
    assert_eq!(s.on_event(StreamEvent::Reconnected(300)), StreamAction::Recover(150, 300));
    assert_eq!(s.on_event(StreamEvent::RecoveryFailed), StreamAction::WaitAndReconnect);
    assert_eq!(s.on_event(StreamEvent::Reconnected(400)), StreamAction::Recover(150, 400));
    assert_eq!(s.on_event(StreamEvent::RecoverySucceeded), StreamAction::AdoptStream);
    assert_eq!(s.recovery_start, 400);
    assert_eq!(s.on_event(StreamEvent::Malformed(450)), StreamAction::Recover(400, 450));
    assert_eq!(s.on_event(StreamEvent::RecoverySucceeded), StreamAction::Continue);
    assert_eq!(s.stage, StreamStage::Live);
    assert_eq!(s.on_event(StreamEvent::Cancelled), StreamAction::Stop);
    assert_eq!(s.on_event(StreamEvent::UpdateHandled(500)), StreamAction::Ignore);
}

#[test]
fn test_replaced_event_records_the_new_identifier() {
    let mut chain = ReplacementChain::new();
    let mut replaced = order("c-1", AlpacaOrderStatus::Replaced);
    replaced.id = "V-1".to_string();
    replaced.replaced_by = Some("V-2".to_string());
    let handled = handle_update(&update("replaced", replaced), &mut chain, "ACC", 7);
    assert_eq!(chain.resolve("V-1"), "V-2");
    assert!(!handled.unmodelled);
    assert_eq!(
        handled.outcome,
        UpdateOutcome::NoStatus(ReportError::Superseded { replaced_by: Some("V-2".to_string()) })
    );
}

#[test]
fn test_updates_become_fills_statuses_or_nothing() {
    let mut chain = ReplacementChain::new();
    let mut fill = update("fill", order("c-1", AlpacaOrderStatus::Filled));
    fill.price = Some("150.25".to_string());
    fill.qty = Some("10".to_string());
    fill.execution_id = Some("e-1".to_string());
    match handle_update(&fill, &mut chain, "ACC", 7).outcome {
        UpdateOutcome::Fill(r) => {
            assert_eq!(r.trade_id, "e-1");
            assert_eq!(r.last_px, d(1502500, 4));
            assert_eq!(r.last_qty, d(10, 0));
            assert_eq!(r.ts_event, 7);
        },
        other => panic!("unexpected {other:?}"),
    }
    match handle_update(&fill, &mut chain, "ACC", 7).outcome {
        UpdateOutcome::Fill(r) => {
            assert_eq!(r.instrument_id, "AAPL.ALPACA");
            assert_eq!(r.client_order_id.as_deref(), Some("c-1"));
            assert!(r.commission.is_zero());
        },
        other => panic!("unexpected {other:?}"),
    }
    // Without an execution identifier the update is not fill detail; the order's state is
    // reported instead.
    fill.execution_id = None;
    assert!(!fill.has_fill_detail());
    match handle_update(&fill, &mut chain, "ACC", 7).outcome {
        UpdateOutcome::Status(r) => {
            assert_eq!(r.fields.order_status, OrderStatus::Filled);
            assert_eq!(r.client_order_id, "c-1");
        },
        other => panic!("unexpected {other:?}"),
    }
    fill.price = Some("not a price".to_string());
    fill.execution_id = Some("e-2".to_string());
    assert_eq!(
        handle_update(&fill, &mut chain, "ACC", 7).outcome,
        UpdateOutcome::FillError(ReportError::InvalidDecimal(ReportField::Price))
    );
    let refused = update("order_cancel_rejected", order("c-1", AlpacaOrderStatus::New));
    assert_eq!(handle_update(&refused, &mut chain, "ACC", 7).outcome, UpdateOutcome::RequestRefused);
    let odd = handle_update(&update("something_new", order("c-1", AlpacaOrderStatus::New)), &mut chain, "ACC", 7);
    assert!(odd.unmodelled);
    match odd.outcome {
        UpdateOutcome::Status(r) => {
            assert_eq!(r.fields.order_status, OrderStatus::Accepted);
            assert_eq!(r.instrument_id, "AAPL.ALPACA");
        },
        other => panic!("unexpected {other:?}"),
    }
}

#[test]
fn test_reports_skip_replaced_and_unreadable_orders() {
    let mut bad = order("bad", AlpacaOrderStatus::New);
    bad.qty = Some("many".to_string());
    let orders = vec![
        order("a", AlpacaOrderStatus::New),
        order("r", AlpacaOrderStatus::Replaced),
        bad,
        order("b", AlpacaOrderStatus::Filled),
    ];
    let reports = reports_from_orders(&orders, "ACC", 9);
    assert_eq!(reports.len(), 2);
    assert_eq!(reports[0].client_order_id, "a");
    assert_eq!(reports[1].fields.order_status, OrderStatus::Filled);
    let _ = ReportField::Qty;
}

#[test]
fn test_fill_reports_filter_by_symbol_and_order() {
    let activity = |symbol: &str, order_id: &str| AlpacaFillActivity {
        id: "20260820050934216::c27c5376-c4eb-414c-ba5a-4fb21d0b4c87".to_string(),
        activity_type: Some("FILL".to_string()),
        fill_type: Some("fill".to_string()),
        transaction_time: "2026-08-20T09:09:34.216Z".to_string(),
        symbol: symbol.to_string(),
        side: AlpacaOrderSide::Sell,
        price: "201.45".to_string(),
        qty: "3".to_string(),
        order_id: order_id.to_string(),
        cum_qty: Some("5".to_string()),
        leaves_qty: Some("0".to_string()),
        order_status: Some("filled".to_string()),
    };
    let activities = vec![activity("AAPL", "o-1"), activity("MSFT", "o-2"), activity("AAPL", "o-3")];
    assert_eq!(fill_reports_from_activities(&activities, None, None, "ACC", 1).len(), 3);
    let aapl = fill_reports_from_activities(&activities, Some("AAPL"), None, "ACC", 1);
    assert_eq!(aapl.len(), 2);
    assert_eq!(aapl[0].trade_id, "c27c5376-c4eb-414c-ba5a-4fb21d0b4c87");
    assert_eq!(aapl[0].last_qty, d(3, 0));
    let one = fill_reports_from_activities(&activities, Some("AAPL"), Some("o-3"), "ACC", 1);
    assert_eq!(one.len(), 1);
    assert_eq!(one[0].venue_order_id, "o-3");
}

#[test]
fn test_position_reports_and_lookups() {
    let positions = vec![position("AAPL", "-4", "short"), position("MSFT", "??", "long")];
    let reports = position_reports(&positions, "ACC", 3);
    assert_eq!(reports.len(), 1);
    assert_eq!(reports[0].quantity, d(4, 0));

    let mut chain = ReplacementChain::new();
    chain.record("V-1", "V-2");
    assert_eq!(order_lookup(&chain, Some("V-1"), Some("c")), Some(OrderLookup::ByVenueOrderId("V-2".to_string())));
    assert_eq!(order_lookup(&chain, None, Some("c")), Some(OrderLookup::ByClientOrderId("c".to_string())));
    assert_eq!(order_lookup(&chain, None, None), None);
}

#[test]
fn test_configuration_and_balance_inputs() {
    assert_eq!(validate_loss_limits(Some(d(0, 0)), Some(d(1, 0))), Err(LossLimit::Usd));
    assert_eq!(validate_loss_limits(Some(d(1, 0)), Some(d(-1, 0))), Err(LossLimit::Percent));
    assert_eq!(validate_loss_limits(None, None), Ok(()));
    let mut account = active_account();
    account.cash = "10000.12345678".to_string();
    assert_eq!(account_amounts(&account), Ok((d(10000, 0), d(1000012345678, 8))));
    account.cash = "x".to_string();
    let err = account_amounts(&account).unwrap_err();
    assert_eq!(err.field, "cash");
    assert_eq!(err.raw, "x");
}

#[test]
fn test_replacement_is_recorded_and_refusal_reported_against_live_id() {
    let mut chain = ReplacementChain::new();
    assert_eq!(chain.settle_replace("A", "A", Ok("B".to_string())), Settlement::Done);
    assert_eq!(chain.resolve("A"), "B");
    let refused = chain.settle_replace("A", "B", Err("order is not yet routed".to_string()));
    assert_eq!(
        refused,
        Settlement::ModifyRejected {
            venue_order_id: "B".to_string(),
            reason: "order is not yet routed".to_string(),
        }
    );
    assert_eq!(chain.resolve("A"), "B");
}

#[test]
fn test_cancel_settlement() {
    let mut chain = ReplacementChain::new();
    chain.record("A", "B");
    let refused = chain.settle_cancel("A", "B", Err("already filled".to_string()));
    assert_eq!(
        refused,
        Settlement::CancelRejected { venue_order_id: "B".to_string(), reason: "already filled".to_string() }
    );
    assert_eq!(chain.resolve("A"), "B");
    assert_eq!(chain.settle_cancel("A", "B", Ok(())), Settlement::Done);
    assert_eq!(chain.resolve("A"), "A");
}

#[test]
fn test_cancel_all_clears_the_chain_only_on_success() {
    let mut chain = ReplacementChain::new();
    chain.record("A", "B");
    chain.settle_cancel_all(false);
    assert_eq!(chain.resolve("A"), "B");
    chain.settle_cancel_all(true);
    assert_eq!(chain.resolve("A"), "A");
}

#[test]
fn test_order_report_params_follow_open_only() {
    let open = order_report_params(true, Some("2026-08-18T00:00:00Z".to_string()), None, Some("AAPL"));
    assert_eq!(open.status.as_deref(), Some("open"));
    assert_eq!(open.after.as_deref(), Some("2026-08-18T00:00:00Z"));
    assert_eq!(open.until, None);
    assert_eq!(open.symbols.as_deref(), Some("AAPL"));
    assert_eq!(open.limit, None);
    let all = order_report_params(false, None, Some("2026-08-19T00:00:00Z".to_string()), None);
    assert_eq!(all.status.as_deref(), Some("all"));
    assert_eq!(all.until.as_deref(), Some("2026-08-19T00:00:00Z"));
    assert_eq!(all.symbols, None);
}

#[test]
fn test_daily_loss_arithmetic_is_exact_and_overflow_is_reported() {
    let mut account = active_account();
    account.equity = "9504.95".to_string();
    let breach = account.daily_loss_breach(Some(d(495, 0)), None).unwrap().unwrap();
    assert_eq!(breach.loss_usd, d(49505, 2));
    assert_eq!(account.daily_loss_breach(Some(d(49506, 2)), None), Ok(None));

    account.last_equity = "79228162514264337593543950335".to_string();
    account.equity = "-79228162514264337593543950335".to_string();
    assert_eq!(account.daily_loss_breach(Some(d(1, 0)), None), Err(DailyLossError::Overflow));
    account.equity = "0".to_string();
    assert_eq!(account.daily_loss_breach(Some(d(1, 0)), None), Err(DailyLossError::Overflow));
}

#[test]
fn test_exact_close_compares_quantities_by_value() {
    assert_eq!(
        exactly_closes_position(&request(AlpacaOrderSide::Sell, "2"), &vec![position("AAPL", "2.00", "long")]),
        Ok(true)
    );
}
