//! Constants for the Alpaca adapter.

use vstd::prelude::*;

verus! {

/// Venue identifier string.
pub const ALPACA: &'static str = "ALPACA";

/// Trading API base URL for the live environment.
pub const REST_URL_LIVE: &'static str = "https://api.alpaca.markets";

/// Trading API base URL for the paper environment.
pub const REST_URL_PAPER: &'static str = "https://paper-api.alpaca.markets";

/// Market Data API base URL. Alpaca serves market data from a single host for both the
/// paper and live trading environments.
pub const DATA_REST_URL: &'static str = "https://data.alpaca.markets";

/// Trading API version path prefix.
pub const REST_TRADING_PATH: &'static str = "/v2";

/// Market Data API path prefix for US equities.
pub const REST_DATA_STOCKS_PATH: &'static str = "/v2/stocks";

/// Trading (account) event stream URL for the live environment.
pub const WS_TRADING_URL_LIVE: &'static str = "wss://api.alpaca.markets/stream";

/// Trading (account) event stream URL for the paper environment.
pub const WS_TRADING_URL_PAPER: &'static str = "wss://paper-api.alpaca.markets/stream";

/// Market data stream URL for the consolidated SIP feed.
pub const WS_DATA_URL_SIP: &'static str = "wss://stream.data.alpaca.markets/v2/sip";

/// Market data stream URL for the Blue Ocean ATS (BOATS) overnight session feed.
pub const WS_DATA_URL_BOATS: &'static str = "wss://stream.data.alpaca.markets/v2/boats";

/// Request header carrying the API key ID.
pub const HEADER_API_KEY_ID: &'static str = "APCA-API-KEY-ID";

/// Request header carrying the API secret key.
pub const HEADER_API_SECRET_KEY: &'static str = "APCA-API-SECRET-KEY";

/// Environment variable holding the API key ID.
pub const ENV_API_KEY_ID: &'static str = "APCA_API_KEY_ID";

/// Environment variable holding the API secret key.
pub const ENV_API_SECRET_KEY: &'static str = "APCA_API_SECRET_KEY";

/// Default HTTP request timeout, in seconds.
pub const HTTP_TIMEOUT_SECS: u64 = 10;

/// WebSocket control-frame ping interval, in seconds.
pub const WS_HEARTBEAT_SECS: u64 = 30;

/// Initial reconnect backoff, in milliseconds.
pub const RECONNECT_BASE_BACKOFF_MS: u64 = 250;

/// Maximum reconnect backoff, in milliseconds.
pub const RECONNECT_MAX_BACKOFF_MS: u64 = 30_000;

/// Reconnect jitter, in milliseconds.
pub const RECONNECT_JITTER_MS: u64 = 200;

/// Reconnect attempt timeout, in milliseconds.
pub const RECONNECT_TIMEOUT_MS: u64 = 15_000;

/// Maximum time the client waits for the feed handler task to drain on disconnect before
/// forcibly aborting, in seconds.
pub const WS_DISCONNECT_TIMEOUT_SECS: u64 = 5;

} // verus!
