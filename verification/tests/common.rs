use ahash::AHashSet;
use nautilus_alpaca::{
    common::{
        consts::{
            DATA_REST_URL, REST_URL_LIVE, REST_URL_PAPER, WS_DATA_URL_BOATS, WS_DATA_URL_SIP,
            WS_TRADING_URL_LIVE, WS_TRADING_URL_PAPER,
        },
        credential::{credential_env_vars, AlpacaCredential, CredentialError},
        enums::{AlpacaDataFeed, AlpacaEnvironment},
        instrument_info::{build_info, can_trade_overnight},
        model::{OrderSide, OrderType, TimeInForce},
        order_enums::{
            AlpacaOrderSide, AlpacaOrderStatus, AlpacaOrderType, AlpacaTimeInForce, ConversionError,
        },
        urls::{data_rest_url, data_ws_url, trading_rest_url, trading_ws_url},
    },
    config::{AlpacaDataClientConfig, AlpacaExecClientConfig, AlpacaInstrumentProviderConfig},
    factories::AlpacaDataClientFactory,
    http::{
        client::{
            auth_headers, check_response_status, keyed_quotas, should_retry, ApiTarget, Endpoint,
            HttpMethod, RequestRouting, RATE_LIMIT_KEY_DATA, RATE_LIMIT_KEY_TRADING,
        },
        error::AlpacaHttpError,
        models::{AlpacaOrder, AlpacaPosition, Asset},
        query::{BarsParams, ListAssetsParams},
    },
    provider::{
        assets_to_load, held_instrument_ids, parse_loadable, AlpacaInstrumentProvider, InstrumentCache,
        LoadSelection,
    },
    websocket::{
        handshake::{Handshake, HandshakeAction, HandshakeError, HandshakeEvent, HandshakePhase, HANDSHAKE_FRAME_LIMIT},
        messages::{is_trade_update_stream, AlpacaTradeEvent, AuthMessage, AuthorizationData, ListenMessage, StreamList},
    },
};

#[test]
fn test_trading_rest_url() {
    assert_eq!(trading_rest_url(AlpacaEnvironment::Live), REST_URL_LIVE);
    assert_eq!(trading_rest_url(AlpacaEnvironment::Paper), REST_URL_PAPER);
}

#[test]
fn test_data_rest_url_is_environment_independent() {
    assert_eq!(data_rest_url(), DATA_REST_URL);
}

#[test]
fn test_trading_ws_url() {
    assert_eq!(trading_ws_url(AlpacaEnvironment::Live), WS_TRADING_URL_LIVE);
    assert_eq!(trading_ws_url(AlpacaEnvironment::Paper), WS_TRADING_URL_PAPER);
}

#[test]
fn test_data_ws_url() {
    assert_eq!(data_ws_url(AlpacaDataFeed::Sip), WS_DATA_URL_SIP);
    assert_eq!(data_ws_url(AlpacaDataFeed::Boats), WS_DATA_URL_BOATS);
}

#[test]
fn test_paper_urls_never_resolve_to_live_host() {
    assert_ne!(trading_rest_url(AlpacaEnvironment::Paper), trading_rest_url(AlpacaEnvironment::Live));
    assert_ne!(trading_ws_url(AlpacaEnvironment::Paper), trading_ws_url(AlpacaEnvironment::Live));
}

#[test]
fn test_environment_and_feed_basics() {
    assert_eq!(AlpacaEnvironment::default(), AlpacaEnvironment::Paper);
    assert!(AlpacaEnvironment::Paper.is_paper() && !AlpacaEnvironment::Paper.is_live());
    assert_eq!(AlpacaDataFeed::default(), AlpacaDataFeed::Sip);
    assert_eq!(AlpacaDataFeed::Boats.as_str(), "boats");
    assert_eq!(AlpacaDataFeed::from_wire("sip"), Some(AlpacaDataFeed::Sip));
    assert_eq!(AlpacaDataFeed::from_wire("iex"), None);
    assert!(AlpacaDataFeed::Boats.is_overnight() && !AlpacaDataFeed::Sip.is_overnight());
}

#[test]
fn test_credential_env_var_names() {
    assert_eq!(credential_env_vars(), ("APCA_API_KEY_ID", "APCA_API_SECRET_KEY"));
}

#[test]
fn test_resolve_with_explicit_values() {
    let c = AlpacaCredential::resolve(Some("k"), Some("s"), None, None).unwrap();
    assert_eq!((c.api_key(), c.api_secret()), ("k", "s"));
    let env = AlpacaCredential::resolve(None, None, Some("ek".to_string()), Some("es".to_string())).unwrap();
    assert_eq!((env.api_key(), env.api_secret()), ("ek", "es"));
}

#[test]
fn test_resolve_rejects_blank_values() {
    assert!(AlpacaCredential::resolve(Some("  "), Some("s"), None, None).is_none());
    assert!(AlpacaCredential::resolve(Some("k"), None, None, None).is_none());
    assert!(matches!(
        AlpacaCredential::from_env(Some(String::new()), Some("s".to_string())),
        Err(CredentialError::Missing)
    ));
    assert_eq!(
        CredentialError::Missing.message(),
        "Missing Alpaca credentials: set APCA_API_KEY_ID and APCA_API_SECRET_KEY"
    );
}

#[test]
fn test_display_redacts_credentials() {
    let c = AlpacaCredential::new("key-id".to_string(), "secret".to_string());
    assert!(!c.redacted().contains("secret"));
}

#[test]
fn test_order_enum_mappings() {
    assert_eq!(AlpacaOrderSide::SellShort.to_nautilus(), Ok(OrderSide::Sell));
    assert_eq!(AlpacaOrderSide::from_nautilus(OrderSide::Sell), Ok(AlpacaOrderSide::Sell));
    assert_eq!(AlpacaOrderSide::Unknown.to_nautilus(), Err(ConversionError::UnrecognisedSide));
    assert_eq!(AlpacaOrderSide::from_nautilus(OrderSide::NoOrderSide), Err(ConversionError::NoOrderSide));
    assert_eq!(AlpacaOrderType::from_nautilus(OrderType::StopMarket), Ok(AlpacaOrderType::Stop));
    assert_eq!(
        AlpacaOrderType::from_nautilus(OrderType::MarketIfTouched),
        Err(ConversionError::UnsupportedOrderType(OrderType::MarketIfTouched))
    );
    assert_eq!(AlpacaTimeInForce::from_nautilus(TimeInForce::Gtd), Err(ConversionError::GtdUnsupported));
    assert_eq!(AlpacaTimeInForce::Opg.to_nautilus(), Ok(TimeInForce::AtTheOpen));
    assert_eq!(AlpacaOrderStatus::Replaced.to_nautilus(), Err(ConversionError::ReplacedStatus));
    assert!(AlpacaOrderStatus::Replaced.is_superseded() && AlpacaOrderStatus::Replaced.is_terminal());
    assert!(!AlpacaOrderStatus::New.is_terminal());
    assert_eq!(AlpacaOrderSide::from_wire("sell_short"), AlpacaOrderSide::SellShort);
    assert_eq!(AlpacaOrderSide::from_wire("whatever"), AlpacaOrderSide::Unknown);
    assert_eq!(AlpacaOrderType::from_wire("stop_limit").as_str(), "stop_limit");
}

#[test]
fn test_trade_event_vocabulary() {
    assert_eq!(AlpacaTradeEvent::from_wire("partial_fill"), AlpacaTradeEvent::PartialFill);
    assert!(AlpacaTradeEvent::PartialFill.is_fill());
    assert!(AlpacaTradeEvent::OrderCancelRejected.is_request_rejection());
    assert!(AlpacaTradeEvent::PendingNew.is_working());
    assert_eq!(AlpacaTradeEvent::from_wire("brand_new_event"), AlpacaTradeEvent::Unknown);
    assert_eq!(AlpacaTradeEvent::Canceled.as_str(), "canceled");
}

#[test]
fn test_stream_frames() {
    let auth = AuthMessage::new("k", "s");
    assert_eq!((auth.action, auth.key.as_str(), auth.secret.as_str()), ("auth", "k", "s"));
    let listen = ListenMessage::trade_updates();
    assert_eq!(listen.action, "listen");
    assert_eq!(listen.data.streams, vec!["trade_updates".to_string()]);
}

#[test]
fn test_validation_statuses_map_to_bad_request() {
    for status in [400, 422] {
        match AlpacaHttpError::from_http_status(status, b"invalid symbol") {
            AlpacaHttpError::BadRequest(text) => assert_eq!(text, format!("HTTP {status}: invalid symbol")),
            other => panic!("unexpected {other:?}"),
        }
    }
}

#[test]
fn test_status_mapping() {
    assert!(matches!(AlpacaHttpError::from_http_status(401, b"forbidden"), AlpacaHttpError::Auth(_)));
    assert!(matches!(AlpacaHttpError::from_http_status(403, b"forbidden"), AlpacaHttpError::Auth(_)));
    assert!(matches!(AlpacaHttpError::from_http_status(429, b""), AlpacaHttpError::RateLimit { .. }));
    for status in [500, 502, 503] {
        assert!(matches!(AlpacaHttpError::from_http_status(status, b"upstream"), AlpacaHttpError::Venue(_)));
    }
    assert!(matches!(AlpacaHttpError::from_http_status(418, b"teapot"), AlpacaHttpError::Http { status: 418, .. }));
    match AlpacaHttpError::from_http_status(418, b"bad \xff byte") {
        AlpacaHttpError::Http { message, .. } => assert_eq!(message, "bad \u{FFFD} byte"),
        other => panic!("unexpected {other:?}"),
    }
    assert!(check_response_status(204, b"").is_ok());
    assert!(matches!(check_response_status(404, b"missing"), Err(AlpacaHttpError::Http { status: 404, .. })));
}

#[test]
fn test_retry_classification() {
    assert!(AlpacaHttpError::transport("reset").is_retryable());
    assert!(AlpacaHttpError::Timeout.is_retryable());
    assert!(AlpacaHttpError::rate_limit(None).is_retryable());
    assert!(AlpacaHttpError::venue("500").is_retryable());
    assert!(!AlpacaHttpError::auth("401").is_retryable());
    assert!(!AlpacaHttpError::bad_request("422").is_retryable());
    assert!(!AlpacaHttpError::decode("bad json").is_retryable());
    assert!(!AlpacaHttpError::http(418, "teapot").is_retryable());
    assert!(should_retry(HttpMethod::Get, &AlpacaHttpError::Timeout));
    assert!(!should_retry(HttpMethod::Post, &AlpacaHttpError::Timeout));
    assert!(!should_retry(HttpMethod::Delete, &AlpacaHttpError::Timeout));
}

#[test]
fn test_endpoints_reject_missing_credentials_before_dispatch() {
    let routing = RequestRouting::new(AlpacaEnvironment::Paper, false);
    assert!(matches!(routing.require_credentials(), Err(AlpacaHttpError::Auth(_))));
    assert!(RequestRouting::new(AlpacaEnvironment::Paper, true).require_credentials().is_ok());
}

#[test]
fn test_routing_and_urls() {
    let mut routing = RequestRouting::new(AlpacaEnvironment::Paper, true);
    assert_eq!(routing.base_url(ApiTarget::Trading), REST_URL_PAPER);
    routing.set_trading_base_url("http://127.0.0.1:9000//".to_string());
    assert_eq!(routing.build_url(ApiTarget::Trading, "/v2/orders", Some("status=open")), "http://127.0.0.1:9000/v2/orders?status=open");
    assert_eq!(routing.build_url(ApiTarget::Data, "/v2/stocks/bars", Some("")), "https://data.alpaca.markets/v2/stocks/bars");
    let (method, target, path) = Endpoint::CancelOrder("abc".to_string()).route();
    assert_eq!((method, target, path.as_str()), (HttpMethod::Delete, ApiTarget::Trading, "/v2/orders/abc"));
    assert_eq!(ApiTarget::Data.rate_limit_key(), RATE_LIMIT_KEY_DATA);
    let quotas = keyed_quotas();
    assert_eq!(quotas[0], (RATE_LIMIT_KEY_TRADING.to_string(), 200));
    let c = AlpacaCredential::new("id".to_string(), "sec".to_string());
    let headers = auth_headers(Some(&c));
    assert_eq!(headers[0], ("APCA-API-KEY-ID".to_string(), "id".to_string()));
    assert_eq!(headers[1], ("APCA-API-SECRET-KEY".to_string(), "sec".to_string()));
    assert!(auth_headers(None).is_empty());
    routing.set_data_base_url("http://127.0.0.1:8765".to_string());
    assert_eq!(
        routing.build_url(ApiTarget::Data, "/v2/stocks/bars", None),
        "http://127.0.0.1:8765/v2/stocks/bars"
    );
    assert_eq!(routing.base_url(ApiTarget::Trading), "http://127.0.0.1:9000//");
}

#[test]
fn test_configuration_defaults() {
    let exec = AlpacaExecClientConfig::default();
    assert_eq!(exec.environment, AlpacaEnvironment::Paper);
    assert_eq!(exec.rest_url(), REST_URL_PAPER);
    let fresh = AlpacaExecClientConfig::new();
    assert_eq!(fresh.environment, AlpacaEnvironment::Paper);
    assert_eq!(fresh.proxy_url, None);
    assert_eq!((fresh.http_timeout_secs, fresh.max_retries), (10, 3));
    assert_eq!((fresh.retry_delay_initial_ms, fresh.retry_delay_max_ms), (100, 5000));
    assert!(!fresh.default_extended_hours);
    let mut data = AlpacaDataClientConfig::default();
    assert!(!data.has_credentials());
    data.api_key = Some("k".to_string());
    data.api_secret = Some(" ".to_string());
    assert!(!data.has_credentials());
    data.api_secret = Some("s".to_string());
    assert!(data.has_credentials());
    assert!(AlpacaInstrumentProviderConfig::default().load_all);
    let factory = AlpacaDataClientFactory::new();
    assert_eq!(factory.name(), "ALPACA");
    assert_eq!(factory.config_type(), "AlpacaDataClientConfig");
}

#[test]
fn test_query_builders() {
    let assets = ListAssetsParams::active_us_equities();
    assert_eq!(assets.status.as_deref(), Some("active"));
    assert_eq!(assets.asset_class.as_deref(), Some("us_equity"));
    assert_eq!(assets.exchange, None);
    let bars = BarsParams {
        symbols: "AAPL,MSFT".to_string(),
        timeframe: "1Min".to_string(),
        start: None,
        end: None,
        feed: None,
        limit: None,
        page_token: None,
    }
    .with_limit(1000);
    assert_eq!(bars.limit, Some(1000));
    assert_eq!(bars.symbols, "AAPL,MSFT");
}

fn asset(symbol: &str, status: &str, tradable: bool, attributes: &[&str]) -> Asset {
    Asset {
        id: format!("id-{symbol}"),
        class: "us_equity".to_string(),
        exchange: "NASDAQ".to_string(),
        symbol: symbol.to_string(),
        name: None,
        status: status.to_string(),
        tradable,
        marginable: true,
        shortable: false,
        easy_to_borrow: false,
        borrow_status: None,
        fractionable: true,
        maintenance_margin_requirement: None,
        margin_requirement_long: None,
        margin_requirement_short: None,
        attributes: attributes.iter().map(|a| a.to_string()).collect(),
    }
}

#[test]
fn test_build_info_records_overnight_flags_separately() {
    let aapl = build_info(&asset("AAPL", "active", true, &["overnight_tradable", "has_options"]));
    assert!(aapl.overnight_tradable && !aapl.overnight_halted);
    assert_eq!(aapl.exchange, "NASDAQ");
    assert_eq!(aapl.asset_id, "id-AAPL");
    let mamo = build_info(&asset("MAMO", "active", false, &["overnight_halted"]));
    assert!(!mamo.overnight_tradable && mamo.overnight_halted);
    let mmlp = build_info(&asset("MMLP", "active", true, &["ptp_no_exception"]));
    assert!(mmlp.publicly_traded_partnership);
    assert!(can_trade_overnight(Some(aapl.overnight_tradable), Some(aapl.overnight_halted)));
    assert!(!can_trade_overnight(Some(mamo.overnight_tradable), Some(mamo.overnight_halted)));
    assert!(!can_trade_overnight(Some(true), None));
    assert!(!can_trade_overnight(None, Some(false)));
}

fn open_order(symbol: &str) -> AlpacaOrder {
    AlpacaOrder {
        id: "o".to_string(),
        client_order_id: "c".to_string(),
        symbol: symbol.to_string(),
        asset_class: None,
        order_type: Some(AlpacaOrderType::Market),
        type_alias: None,
        side: AlpacaOrderSide::Buy,
        time_in_force: AlpacaTimeInForce::Day,
        status: AlpacaOrderStatus::New,
        qty: Some("1".to_string()),
        filled_qty: None,
        filled_avg_price: None,
        limit_price: None,
        stop_price: None,
        notional: None,
        extended_hours: false,
        order_class: None,
        replaces: None,
        replaced_by: None,
        created_at: None,
        submitted_at: None,
        updated_at: None,
        filled_at: None,
        canceled_at: None,
        expired_at: None,
        expires_at: None,
        replaced_at: None,
        failed_at: None,
    }
}

fn id_set_of(items: &[&str]) -> AHashSet<String> {
    items.iter().map(|s| s.to_string()).collect()
}

fn held(symbol: &str) -> AlpacaPosition {
    AlpacaPosition {
        asset_id: "a".to_string(),
        symbol: symbol.to_string(),
        exchange: None,
        asset_class: None,
        qty: "4".to_string(),
        qty_available: None,
        avg_entry_price: "1".to_string(),
        side: "long".to_string(),
        market_value: None,
        cost_basis: None,
        unrealized_pl: None,
        current_price: None,
    }
}

#[test]
fn test_parse_and_cache_loads_only_tradable_assets() {
    let assets = vec![
        asset("AAPL", "active", true, &[]),
        asset("MAMO", "active", false, &[]),
        asset("MMLP", "active", true, &[]),
        asset("HYB", "inactive", true, &[]),
    ];
    assert_eq!(assets_to_load(&assets, &LoadSelection::all(), &id_set_of(&[])), vec![0, 2]);
}

#[test]
fn test_narrowed_load_is_widened_by_held_instruments() {
    let assets = vec![asset("AAPL", "active", true, &[]), asset("MSFT", "active", true, &[]), asset("TSLA", "active", true, &[])];
    let selection = LoadSelection::only(vec!["AAPL.ALPACA".to_string()]);
    assert!(selection.is_selected("AAPL.ALPACA") && !selection.is_selected("MSFT.ALPACA"));
    let also = held_instrument_ids(&vec![held("TSLA"), held("TSLA")], &vec![open_order("TSLA")]);
    assert_eq!(also, id_set_of(&["TSLA.ALPACA"]));
    assert_eq!(assets_to_load(&assets, &selection, &also), vec![0, 2]);
    assert!(LoadSelection::from_load_all(false, vec![]).is_empty_restriction());
    assert!(!LoadSelection::from_load_all(true, vec![]).is_restricted());
}

#[test]
fn test_handshake_authorizes_then_subscribes() {
    let mut h = Handshake::new();
    assert_eq!(h.on_event(HandshakeEvent::TextFrame(None)), HandshakeAction::ReadFrame);
    assert_eq!(h.on_event(HandshakeEvent::TextFrame(Some("authorization".to_string()))), HandshakeAction::DecodeAuthorization);
    let ok = AuthorizationData { status: "AUTHORIZED".to_string(), action: Some("authenticate".to_string()) };
    assert_eq!(h.on_event(HandshakeEvent::Authorization(Some(ok))), HandshakeAction::SendListen);
    assert_eq!(h.phase, HandshakePhase::Subscribing);
    assert_eq!(h.on_event(HandshakeEvent::TextFrame(Some("listening".to_string()))), HandshakeAction::DecodeListening);
    let listed = StreamList { streams: vec!["trade_updates".to_string()] };
    assert_eq!(h.on_event(HandshakeEvent::Listening(Some(listed))), HandshakeAction::Connected);
    assert_eq!(h.phase, HandshakePhase::Connected);
}

#[test]
fn test_handshake_failures() {
    let mut refused = Handshake::new();
    refused.on_event(HandshakeEvent::TextFrame(Some("authorization".to_string())));
    let no = AuthorizationData { status: "unauthorized".to_string(), action: None };
    assert_eq!(
        refused.on_event(HandshakeEvent::Authorization(Some(no))),
        HandshakeAction::Fail(HandshakeError::Refused("unauthorized".to_string()))
    );

    let mut silent = Handshake::new();
    let mut last = HandshakeAction::ReadFrame;
    let mut reads = 0;
    while last == HandshakeAction::ReadFrame {
        last = silent.on_event(HandshakeEvent::TextFrame(Some("trade_updates".to_string())));
        reads += 1;
    }
    assert_eq!(reads, HANDSHAKE_FRAME_LIMIT);
    assert_eq!(last, HandshakeAction::Fail(HandshakeError::NoAuthorizationResponse));

    let mut closed = Handshake::new();
    assert_eq!(closed.on_event(HandshakeEvent::StreamEnded), HandshakeAction::Fail(HandshakeError::ClosedBeforeAuthorization));

    let mut wrong = Handshake::new();
    wrong.on_event(HandshakeEvent::Authorization(Some(AuthorizationData { status: "authorized".to_string(), action: None })));
    let listed = StreamList { streams: vec!["account_updates".to_string()] };
    assert_eq!(
        wrong.on_event(HandshakeEvent::Listening(Some(listed))),
        HandshakeAction::Fail(HandshakeError::NotSubscribed(vec!["account_updates".to_string()]))
    );
}

#[test]
fn test_parse_loadable_keeps_selected_assets_in_order() {
    let assets = vec![
        asset("TSLA", "active", true, &[]),
        asset("AAPL", "active", true, &[]),
        asset("HYB", "inactive", true, &[]),
        asset("MSFT", "active", true, &[]),
    ];
    let selection = LoadSelection::only(vec!["AAPL.ALPACA".to_string(), "HYB.ALPACA".to_string()]);
    let loaded = parse_loadable(&assets, &selection, &id_set_of(&["TSLA.ALPACA"]), 9);
    let ids: Vec<&str> = loaded.iter().map(|e| e.instrument_id.as_str()).collect();
    assert_eq!(ids, vec!["TSLA.ALPACA", "AAPL.ALPACA"]);
    assert!(loaded.iter().all(|e| e.ts_init == 9 && e.price_precision == 4));
    assert!(parse_loadable(&assets, &LoadSelection::only(vec![]), &id_set_of(&[]), 9).is_empty());
}

#[test]
fn test_provider_caches_what_it_loads() {
    let mut provider = AlpacaInstrumentProvider::from_config(false, vec!["AAPL.ALPACA".to_string()]);
    assert_eq!(provider.count(), 0);
    let assets = vec![asset("AAPL", "active", true, &[]), asset("MSFT", "active", true, &[])];
    let loaded = provider.parse_and_cache(&assets, 1);
    assert_eq!(loaded.len(), 1);
    assert_eq!(provider.count(), 1);
    assert_eq!(provider.get("AAPL.ALPACA").map(|e| e.ts_init), Some(1));
    assert!(provider.get_by_symbol("MSFT").is_none());
    // Held instruments widen the load; a reload replaces rather than duplicates.
    let loaded = provider.parse_and_cache_with(&assets, 2, &id_set_of(&["MSFT.ALPACA"]));
    assert_eq!(loaded.len(), 2);
    assert_eq!(provider.count(), 2);
    assert_eq!(provider.get_by_symbol("AAPL").map(|e| e.ts_init), Some(2));
    assert_eq!(provider.get("MSFT.ALPACA").map(|e| e.symbol.as_str()), Some("MSFT"));
    assert!(provider.selection().is_restricted());
    let everything = AlpacaInstrumentProvider::new();
    assert!(!everything.selection().is_restricted());
    let mut cache = InstrumentCache::new();
    cache.insert(loaded[0].duplicate());
    cache.insert(loaded[0].duplicate());
    assert_eq!(cache.len(), 1);
}

#[test]
fn test_only_the_trade_update_stream_carries_updates() {
    assert!(is_trade_update_stream("trade_updates"));
    assert!(!is_trade_update_stream("listening"));
    assert!(!is_trade_update_stream("Trade_Updates"));
}
