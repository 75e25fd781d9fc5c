//! Configuration for the Alpaca data and execution clients.

use vstd::prelude::*;

use crate::common::{
    credential::opt_string_view,
    enums::{AlpacaDataFeed, AlpacaEnvironment},
    text::{is_blank, str_is_blank},
    urls,
};

verus! {

/// Which instruments the provider loads on startup.
#[derive(Clone, Debug)]
pub struct AlpacaInstrumentProviderConfig {
    /// Whether to load every tradable US equity on startup; true by default.
    pub load_all: bool,
    /// Instrument IDs to load when `load_all` is false.
    pub load_ids: Option<Vec<String>>,
}

impl Default for AlpacaInstrumentProviderConfig {
    fn default() -> (res: Self)
        ensures
            res.load_all,
            res.load_ids is None,
    {
        AlpacaInstrumentProviderConfig { load_all: true, load_ids: None }
    }
}

/// True when an optional credential part is present and not blank.
pub open spec fn present(v: Option<Seq<char>>) -> bool {
    v matches Some(s) && !is_blank(s)
}

/// Returns true when both credential parts are present and non-blank.
pub fn has_credentials(api_key: &Option<String>, api_secret: &Option<String>) -> (res: bool)
    ensures
        res == (present(opt_string_view(*api_key)) && present(opt_string_view(*api_secret))),
{
    let key_ok = match api_key {
        Some(k) => !str_is_blank(k.as_str()),
        None => false,
    };
    let secret_ok = match api_secret {
        Some(s) => !str_is_blank(s.as_str()),
        None => false,
    };
    key_ok && secret_ok
}

/// The override when one is set, else the default.
pub open spec fn or_default(value: Option<Seq<char>>, default: Seq<char>) -> Seq<char> {
    match value {
        Some(v) => v,
        None => default,
    }
}

fn clone_or(value: &Option<String>, default: &str) -> (res: String)
    ensures
        res@ == or_default(opt_string_view(*value), default@),
{
    match value {
        Some(v) => v.clone(),
        None => String::from_str(default),
    }
}

/// Configuration for the market data client.
#[derive(Clone, Debug)]
pub struct AlpacaDataClientConfig {
    /// API key ID (falls back to `APCA_API_KEY_ID`).
    pub api_key: Option<String>,
    /// API secret key (falls back to `APCA_API_SECRET_KEY`).
    pub api_secret: Option<String>,
    /// Override for the Market Data API base URL.
    pub base_url_rest: Option<String>,
    /// Override for the Trading API base URL, which the data client reaches for the instrument
    /// list and the calendar.
    pub base_url_trading: Option<String>,
    /// Override for the market data WebSocket URL.
    pub base_url_ws: Option<String>,
    /// Optional proxy URL for HTTP and WebSocket transports.
    pub proxy_url: Option<String>,
    /// The environment used for instrument metadata requests against the Trading API.
    pub environment: AlpacaEnvironment,
    /// The market data feed to consume.
    pub feed: AlpacaDataFeed,
    /// HTTP timeout in seconds.
    pub http_timeout_secs: u64,
    /// WebSocket timeout in seconds.
    pub ws_timeout_secs: u64,
    /// Interval for refreshing instruments in minutes.
    pub update_instruments_interval_mins: u64,
    /// Seconds between market data polls.
    pub poll_interval_secs: u64,
    /// Minutes of history requested on each poll.
    pub poll_window_mins: u64,
    /// Days of trading calendar loaded on connect.
    pub calendar_lookahead_days: u32,
    /// Which instruments to load on startup.
    pub instrument_provider: AlpacaInstrumentProviderConfig,
}

impl Default for AlpacaDataClientConfig {
    fn default() -> (res: Self)
        ensures
            res.api_key is None,
            res.api_secret is None,
            res.base_url_rest is None,
            res.base_url_trading is None,
            res.base_url_ws is None,
            res.proxy_url is None,
            res.environment == AlpacaEnvironment::Paper,
            res.feed == AlpacaDataFeed::Sip,
            res.http_timeout_secs == 10,
            res.ws_timeout_secs == 30,
            res.update_instruments_interval_mins == 60,
            res.poll_interval_secs == 15,
            res.poll_window_mins == 5,
            res.calendar_lookahead_days == 14,
            res.instrument_provider.load_all,
            res.instrument_provider.load_ids is None,
    {
        AlpacaDataClientConfig {
            api_key: None,
            api_secret: None,
            base_url_rest: None,
            base_url_trading: None,
            base_url_ws: None,
            proxy_url: None,
            environment: AlpacaEnvironment::Paper,
            feed: AlpacaDataFeed::Sip,
            http_timeout_secs: 10,
            ws_timeout_secs: 30,
            update_instruments_interval_mins: 60,
            poll_interval_secs: 15,
            poll_window_mins: 5,
            calendar_lookahead_days: 14,
            instrument_provider: AlpacaInstrumentProviderConfig::default(),
        }
    }
}

impl AlpacaDataClientConfig {
    /// Creates a new configuration with default settings.
    pub fn new() -> (res: Self)
        ensures
            res.environment == AlpacaEnvironment::Paper,
            res.feed == AlpacaDataFeed::Sip,
            res.api_key is None,
            res.api_secret is None,
            res.base_url_rest is None,
            res.base_url_trading is None,
            res.base_url_ws is None,
    {
        Self::default()
    }

    /// Returns true when credentials are populated and non-blank.
    pub fn has_credentials(&self) -> (res: bool)
        ensures
            res == (present(opt_string_view(self.api_key)) && present(
                opt_string_view(self.api_secret),
            )),
    {
        has_credentials(&self.api_key, &self.api_secret)
    }

    /// Returns the Market Data API base URL, respecting overrides.
    pub fn rest_url(&self) -> (res: String)
        ensures
            res@ == or_default(
                opt_string_view(self.base_url_rest),
                crate::common::consts::DATA_REST_URL@,
            ),
    {
        clone_or(&self.base_url_rest, urls::data_rest_url())
    }

    /// Returns the Trading API base URL, respecting environment and overrides.
    pub fn trading_rest_url(&self) -> (res: String)
        ensures
            res@ == or_default(
                opt_string_view(self.base_url_trading),
                urls::spec_trading_rest_url(self.environment),
            ),
    {
        clone_or(&self.base_url_trading, urls::trading_rest_url(self.environment))
    }

    /// Returns the market data WebSocket URL, respecting feed and overrides.
    pub fn ws_url(&self) -> (res: String)
        ensures
            res@ == or_default(opt_string_view(self.base_url_ws), urls::spec_data_ws_url(self.feed)),
    {
        clone_or(&self.base_url_ws, urls::data_ws_url(self.feed))
    }
}

/// Configuration for the execution client.
#[derive(Clone, Debug)]
pub struct AlpacaExecClientConfig {
    /// API key ID (falls back to `APCA_API_KEY_ID`).
    pub api_key: Option<String>,
    /// API secret key (falls back to `APCA_API_SECRET_KEY`).
    pub api_secret: Option<String>,
    /// Override for the Trading API base URL.
    pub base_url_rest: Option<String>,
    /// Override for the trading event stream WebSocket URL.
    pub base_url_ws: Option<String>,
    /// Optional proxy URL for HTTP and WebSocket transports.
    pub proxy_url: Option<String>,
    /// The environment to trade in; paper unless configured otherwise.
    pub environment: AlpacaEnvironment,
    /// HTTP timeout in seconds.
    pub http_timeout_secs: u64,
    /// Maximum number of retry attempts for HTTP requests.
    pub max_retries: u32,
    /// Initial retry delay in milliseconds.
    pub retry_delay_initial_ms: u64,
    /// Maximum retry delay in milliseconds.
    pub retry_delay_max_ms: u64,
    /// Whether submitted orders may execute outside the regular session; off by default.
    pub default_extended_hours: bool,
}

impl Default for AlpacaExecClientConfig {
    fn default() -> (res: Self)
        ensures
            res.api_key is None,
            res.api_secret is None,
            res.base_url_rest is None,
            res.base_url_ws is None,
            res.proxy_url is None,
            res.environment == AlpacaEnvironment::Paper,
            res.http_timeout_secs == 10,
            res.max_retries == 3,
            res.retry_delay_initial_ms == 100,
            res.retry_delay_max_ms == 5000,
            !res.default_extended_hours,
    {
        AlpacaExecClientConfig {
            api_key: None,
            api_secret: None,
            base_url_rest: None,
            base_url_ws: None,
            proxy_url: None,
            environment: AlpacaEnvironment::Paper,
            http_timeout_secs: 10,
            max_retries: 3,
            retry_delay_initial_ms: 100,
            retry_delay_max_ms: 5000,
            default_extended_hours: false,
        }
    }
}

impl AlpacaExecClientConfig {
    /// Creates a new configuration with default settings.
    pub fn new() -> (res: Self)
        ensures
            res.environment == AlpacaEnvironment::Paper,
            res.api_key is None,
            res.api_secret is None,
            res.base_url_rest is None,
            res.base_url_ws is None,
            res.proxy_url is None,
            res.http_timeout_secs == 10,
            res.max_retries == 3,
            res.retry_delay_initial_ms == 100,
            res.retry_delay_max_ms == 5000,
            !res.default_extended_hours,
    {
        Self::default()
    }

    /// Returns true when credentials are populated and non-blank.
    pub fn has_credentials(&self) -> (res: bool)
        ensures
            res == (present(opt_string_view(self.api_key)) && present(
                opt_string_view(self.api_secret),
            )),
    {
        has_credentials(&self.api_key, &self.api_secret)
    }

    /// Returns the Trading API base URL, respecting environment and overrides.
    pub fn rest_url(&self) -> (res: String)
        ensures
            res@ == or_default(
                opt_string_view(self.base_url_rest),
                urls::spec_trading_rest_url(self.environment),
            ),
    {
        clone_or(&self.base_url_rest, urls::trading_rest_url(self.environment))
    }

    /// Returns the trading event stream WebSocket URL, respecting environment and overrides.
    pub fn ws_url(&self) -> (res: String)
        ensures
            res@ == or_default(
                opt_string_view(self.base_url_ws),
                urls::spec_trading_ws_url(self.environment),
            ),
    {
        clone_or(&self.base_url_ws, urls::trading_ws_url(self.environment))
    }
}

/// An unconfigured execution client trades on paper, never on the live host.
pub proof fn lemma_default_exec_config_is_paper(config: AlpacaExecClientConfig)
    requires
        config.environment == AlpacaEnvironment::Paper,
        config.base_url_rest is None,
    ensures
        or_default(
            opt_string_view(config.base_url_rest),
            urls::spec_trading_rest_url(config.environment),
        ) != urls::spec_trading_rest_url(AlpacaEnvironment::Live),
{
    urls::lemma_paper_never_resolves_to_live();
}

} // verus!
