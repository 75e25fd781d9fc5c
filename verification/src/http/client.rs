//! Request routing for the Alpaca REST API: which host a request goes to, which rate limit it
//! draws on, how its URL is built and whether a failure may be retried.

use vstd::prelude::*;

use crate::{
    common::{consts::DATA_REST_URL, enums::AlpacaEnvironment, urls},
    common::{
        consts::{HEADER_API_KEY_ID, HEADER_API_SECRET_KEY},
        credential::AlpacaCredential,
    },
    http::error::{spec_from_http_status, spec_is_retryable, utf8_lossy, AlpacaHttpError},
};

verus! {

/// Rate limit key for the Trading API quota.
pub const RATE_LIMIT_KEY_TRADING: &'static str = "alpaca:trading";

/// Rate limit key for the Market Data API quota.
pub const RATE_LIMIT_KEY_DATA: &'static str = "alpaca:data";

/// Requests per minute allowed on each host by default.
pub const DEFAULT_QUOTA_PER_MINUTE: u32 = 200;

/// The API host a request targets.
#[derive(Copy, Clone, Debug, PartialEq, Eq, Structural)]
pub enum ApiTarget {
    /// The Trading API host.
    Trading,
    /// The Market Data API host.
    Data,
}

impl ApiTarget {
    /// Returns the rate limit key of the target's quota; each host has its own.
    pub fn rate_limit_key(self) -> (res: &'static str)
        ensures
            res@ == (match self {
                ApiTarget::Trading => RATE_LIMIT_KEY_TRADING@,
                ApiTarget::Data => RATE_LIMIT_KEY_DATA@,
            }),
    {
        match self {
            Self::Trading => RATE_LIMIT_KEY_TRADING,
            Self::Data => RATE_LIMIT_KEY_DATA,
        }
    }
}

} // verus!

verus! {

/// HTTP request methods the client issues.
#[derive(Copy, Clone, Debug, PartialEq, Eq, Structural)]
pub enum HttpMethod {
    Get,
    Post,
    Patch,
    Delete,
}

/// Returns true when a failed request may be sent again: only `GET` is ever retried, and only
/// for a transient failure. A replayed `POST`, `PATCH` or `DELETE` could submit, replace or
/// cancel an order twice, and the venue's position `DELETE` endpoints submit closing orders.
pub fn should_retry(method: HttpMethod, error: &AlpacaHttpError) -> (res: bool)
    ensures
        res == (method == HttpMethod::Get && spec_is_retryable(error)),
{
    method == HttpMethod::Get && error.is_retryable()
}

/// A text without its trailing slashes (`trim_end_matches('/')`).
pub open spec fn trim_trailing_slashes(s: Seq<char>) -> Seq<char>
    decreases s.len(),
{
    if s.len() > 0 && s.last() == '/' {
        trim_trailing_slashes(s.drop_last())
    } else {
        s
    }
}

/// A URL from a base, a path and an optional query; an empty query is left off.
pub open spec fn spec_build_url(base: Seq<char>, path: Seq<char>, query: Option<Seq<char>>) -> Seq<
    char,
> {
    match query {
        Some(q) if q.len() > 0 => trim_trailing_slashes(base) + path + "?"@ + q,
        _ => trim_trailing_slashes(base) + path,
    }
}

fn trimmed_len(s: &str) -> (res: usize)
    ensures
        res <= s@.len(),
        trim_trailing_slashes(s@) == s@.take(res as int),
{
    let mut n = s.unicode_len();
    assert(s@.take(n as int) =~= s@);
    while n > 0 && s.get_char(n - 1) == '/'
        invariant
            n <= s@.len(),
            trim_trailing_slashes(s@) == trim_trailing_slashes(s@.take(n as int)),
        decreases n,
    {
        assert(s@.take(n as int).drop_last() =~= s@.take(n - 1));
        n = n - 1;
    }
    n
}

/// Where requests go: the two API hosts and whether credentials were configured.
#[derive(Clone, Debug)]
pub struct RequestRouting {
    /// Trading API base URL.
    pub trading_base_url: String,
    /// Market Data API base URL.
    pub data_base_url: String,
    /// Whether the client was constructed with credentials.
    pub has_credentials: bool,
}

impl RequestRouting {
    /// Routing for an environment's hosts.
    pub fn new(environment: AlpacaEnvironment, has_credentials: bool) -> (res: Self)
        ensures
            res.trading_base_url@ == urls::spec_trading_rest_url(environment),
            res.data_base_url@ == DATA_REST_URL@,
            res.has_credentials == has_credentials,
    {
        RequestRouting {
            trading_base_url: String::from_str(urls::trading_rest_url(environment)),
            data_base_url: String::from_str(urls::data_rest_url()),
            has_credentials,
        }
    }

    /// Overrides the Trading API base URL.
    pub fn set_trading_base_url(&mut self, base_url: String)
        ensures
            final(self).trading_base_url@ == base_url@,
            final(self).data_base_url == old(self).data_base_url,
            final(self).has_credentials == old(self).has_credentials,
    {
        self.trading_base_url = base_url;
    }

    /// Overrides the Market Data API base URL.
    pub fn set_data_base_url(&mut self, base_url: String)
        ensures
            final(self).data_base_url@ == base_url@,
            final(self).trading_base_url == old(self).trading_base_url,
            final(self).has_credentials == old(self).has_credentials,
    {
        self.data_base_url = base_url;
    }

    /// Returns the base URL of a target host.
    pub fn base_url(&self, target: ApiTarget) -> (res: &str)
        ensures
            res@ == (match target {
                ApiTarget::Trading => self.trading_base_url@,
                ApiTarget::Data => self.data_base_url@,
            }),
    {
        match target {
            ApiTarget::Trading => self.trading_base_url.as_str(),
            ApiTarget::Data => self.data_base_url.as_str(),
        }
    }

    /// Builds a request URL, never doubling the slash between an overridden base and the path.
    pub fn build_url(&self, target: ApiTarget, path: &str, query: Option<&str>) -> (res: String)
        ensures
            res@ == spec_build_url(
                match target {
                    ApiTarget::Trading => self.trading_base_url@,
                    ApiTarget::Data => self.data_base_url@,
                },
                path@,
                match query {
                    Some(q) => Some(q@),
                    None => None,
                },
            ),
    {
        let base = self.base_url(target);
        let keep = trimmed_len(base);
        let mut url = String::from_str(base.substring_char(0, keep));
        url.append(path);
        if let Some(q) = query {
            if q.unicode_len() > 0 {
                url.append("?");
                url.append(q);
            }
        }
        url
    }

    /// Refuses a request when no credentials were configured, before anything is sent.
    pub fn require_credentials(&self) -> (res: Result<(), AlpacaHttpError>)
        ensures
            res is Ok <==> self.has_credentials,
            res matches Err(e) ==> e is Auth,
    {
        if self.has_credentials {
            Ok(())
        } else {
            Err(AlpacaHttpError::auth("No credentials configured"))
        }
    }
}

} // verus!

verus! {

/// The REST endpoints the client calls.
#[derive(Clone, Debug)]
pub enum Endpoint {
    /// `GET /v2/clock`.
    Clock,
    /// `GET /v2/account`.
    Account,
    /// `GET /v2/assets`.
    ListAssets,
    /// `GET /v2/orders`.
    ListOrders,
    /// `GET /v2/orders/{id}`.
    GetOrder(String),
    /// `GET /v2/orders:by_client_order_id`.
    GetOrderByClientOrderId,
    /// `GET /v2/positions`.
    ListPositions,
    /// `POST /v2/orders`; never retried, a replay would place a second order.
    SubmitOrder,
    /// `PATCH /v2/orders/{id}`; answered with a new order under a new identifier.
    ReplaceOrder(String),
    /// `DELETE /v2/orders/{id}`.
    CancelOrder(String),
    /// `DELETE /v2/orders`, account-wide.
    CancelAllOrders,
    /// `GET /v2/calendar`.
    Calendar,
    /// `GET /v2/account/activities`.
    Activities,
    /// `GET /v2/stocks/bars`, on the Market Data host.
    Bars,
}

/// The method, host and path of an endpoint.
pub open spec fn spec_endpoint(e: Endpoint) -> (HttpMethod, ApiTarget, Seq<char>) {
    match e {
        Endpoint::Clock => (HttpMethod::Get, ApiTarget::Trading, "/v2/clock"@),
        Endpoint::Account => (HttpMethod::Get, ApiTarget::Trading, "/v2/account"@),
        Endpoint::ListAssets => (HttpMethod::Get, ApiTarget::Trading, "/v2/assets"@),
        Endpoint::ListOrders => (HttpMethod::Get, ApiTarget::Trading, "/v2/orders"@),
        Endpoint::GetOrder(id) => (HttpMethod::Get, ApiTarget::Trading, "/v2/orders/"@ + id@),
        Endpoint::GetOrderByClientOrderId => (
            HttpMethod::Get,
            ApiTarget::Trading,
            "/v2/orders:by_client_order_id"@,
        ),
        Endpoint::ListPositions => (HttpMethod::Get, ApiTarget::Trading, "/v2/positions"@),
        Endpoint::SubmitOrder => (HttpMethod::Post, ApiTarget::Trading, "/v2/orders"@),
        Endpoint::ReplaceOrder(id) => (HttpMethod::Patch, ApiTarget::Trading, "/v2/orders/"@ + id@),
        Endpoint::CancelOrder(id) => (HttpMethod::Delete, ApiTarget::Trading, "/v2/orders/"@ + id@),
        Endpoint::CancelAllOrders => (HttpMethod::Delete, ApiTarget::Trading, "/v2/orders"@),
        Endpoint::Calendar => (HttpMethod::Get, ApiTarget::Trading, "/v2/calendar"@),
        Endpoint::Activities => (HttpMethod::Get, ApiTarget::Trading, "/v2/account/activities"@),
        Endpoint::Bars => (HttpMethod::Get, ApiTarget::Data, "/v2/stocks/bars"@),
    }
}

/// True when `path` lies under `prefix`.
pub open spec fn path_under(path: Seq<char>, prefix: Seq<char>) -> bool {
    prefix.len() <= path.len() && path.subrange(0, prefix.len() as int) == prefix
}

/// Market data (paths under `/v2/stocks/`) is served by the Market Data host and everything else
/// by the Trading host: an endpoint is sent to the Market Data host exactly when its path is a
/// market data path.
pub proof fn lemma_market_data_goes_to_the_data_host(e: Endpoint)
    ensures
        (spec_endpoint(e).1 == ApiTarget::Data) <==> path_under(spec_endpoint(e).2, "/v2/stocks/"@),
{
    reveal_strlit("/v2/stocks/");
    reveal_strlit("/v2/clock");
    reveal_strlit("/v2/account");
    reveal_strlit("/v2/assets");
    reveal_strlit("/v2/orders");
    reveal_strlit("/v2/orders/");
    reveal_strlit("/v2/orders:by_client_order_id");
    reveal_strlit("/v2/positions");
    reveal_strlit("/v2/calendar");
    reveal_strlit("/v2/account/activities");
    reveal_strlit("/v2/stocks/bars");
    let stocks = "/v2/stocks/"@;
    let p = spec_endpoint(e).2;
    match e {
        Endpoint::Bars => {
            assert(p.subrange(0, stocks.len() as int) =~= stocks);
        },
        Endpoint::GetOrder(id) | Endpoint::ReplaceOrder(id) | Endpoint::CancelOrder(id) => {
            if p.len() >= stocks.len() {
                assert(p.subrange(0, stocks.len() as int)[4] != stocks[4]);
            }
        },
        _ => {
            if p.len() >= stocks.len() {
                assert(p.subrange(0, stocks.len() as int)[4] != stocks[4]);
            }
        },
    }
}

fn with_id(prefix: &str, id: &String) -> (res: String)
    ensures
        res@ == prefix@ + id@,
{
    let mut path = String::from_str(prefix);
    path.append(id.as_str());
    path
}

impl Endpoint {
    /// Returns the method, host and path of the endpoint.
    pub fn route(&self) -> (res: (HttpMethod, ApiTarget, String))
        ensures
            (res.0, res.1, res.2@) == spec_endpoint(*self),
    {
        match self {
            Endpoint::Clock => (HttpMethod::Get, ApiTarget::Trading, String::from_str("/v2/clock")),
            Endpoint::Account => (
                HttpMethod::Get,
                ApiTarget::Trading,
                String::from_str("/v2/account"),
            ),
            Endpoint::ListAssets => (
                HttpMethod::Get,
                ApiTarget::Trading,
                String::from_str("/v2/assets"),
            ),
            Endpoint::ListOrders => (
                HttpMethod::Get,
                ApiTarget::Trading,
                String::from_str("/v2/orders"),
            ),
            Endpoint::GetOrder(id) => (
                HttpMethod::Get,
                ApiTarget::Trading,
                with_id("/v2/orders/", id),
            ),
            Endpoint::GetOrderByClientOrderId => (
                HttpMethod::Get,
                ApiTarget::Trading,
                String::from_str("/v2/orders:by_client_order_id"),
            ),
            Endpoint::ListPositions => (
                HttpMethod::Get,
                ApiTarget::Trading,
                String::from_str("/v2/positions"),
            ),
            Endpoint::SubmitOrder => (
                HttpMethod::Post,
                ApiTarget::Trading,
                String::from_str("/v2/orders"),
            ),
            Endpoint::ReplaceOrder(id) => (
                HttpMethod::Patch,
                ApiTarget::Trading,
                with_id("/v2/orders/", id),
            ),
            Endpoint::CancelOrder(id) => (
                HttpMethod::Delete,
                ApiTarget::Trading,
                with_id("/v2/orders/", id),
            ),
            Endpoint::CancelAllOrders => (
                HttpMethod::Delete,
                ApiTarget::Trading,
                String::from_str("/v2/orders"),
            ),
            Endpoint::Calendar => (
                HttpMethod::Get,
                ApiTarget::Trading,
                String::from_str("/v2/calendar"),
            ),
            Endpoint::Activities => (
                HttpMethod::Get,
                ApiTarget::Trading,
                String::from_str("/v2/account/activities"),
            ),
            Endpoint::Bars => (HttpMethod::Get, ApiTarget::Data, String::from_str("/v2/stocks/bars")),
        }
    }
}

/// Only reads are retried: every endpoint that submits, replaces or cancels is sent with a
/// method that is never retried, whatever the failure.
pub proof fn lemma_mutations_are_never_retried(e: Endpoint, error: AlpacaHttpError)
    requires
        e is SubmitOrder || e is ReplaceOrder || e is CancelOrder || e is CancelAllOrders,
    ensures
        spec_endpoint(e).0 != HttpMethod::Get,
        !(spec_endpoint(e).0 == HttpMethod::Get && spec_is_retryable(&error)),
{
}

/// True for a 2xx status.
pub open spec fn is_success_status(status: u16) -> bool {
    200 <= status <= 299
}

/// Checks a response status: a 2xx status is success, anything else becomes the error the
/// status and body describe.
pub fn check_response_status(status: u16, body: &[u8]) -> (res: Result<(), AlpacaHttpError>)
    ensures
        res is Ok <==> is_success_status(status),
        res matches Err(e) ==> spec_from_http_status(status, utf8_lossy(body@), e),
{
    if 200 <= status && status <= 299 {
        Ok(())
    } else {
        Err(AlpacaHttpError::from_http_status(status, body))
    }
}

/// The authentication headers installed once as transport defaults: the key ID and the secret
/// key, or none without credentials.
pub fn auth_headers(credential: Option<&AlpacaCredential>) -> (res: Vec<(String, String)>)
    ensures
        credential is None ==> res@.len() == 0,
        credential matches Some(c) ==> res@.len() == 2 && res@[0].0@ == HEADER_API_KEY_ID@
            && res@[0].1@ == c@.0 && res@[1].0@ == HEADER_API_SECRET_KEY@ && res@[1].1@ == c@.1,
{
    let mut headers: Vec<(String, String)> = Vec::new();
    if let Some(c) = credential {
        headers.push((String::from_str(HEADER_API_KEY_ID), String::from_str(c.api_key())));
        headers.push((String::from_str(HEADER_API_SECRET_KEY), String::from_str(c.api_secret())));
    }
    headers
}

/// The rate limit quotas, one per API host, keyed as requests name them.
pub fn keyed_quotas() -> (res: Vec<(String, u32)>)
    ensures
        res@.len() == 2,
        res@[0].0@ == RATE_LIMIT_KEY_TRADING@,
        res@[0].1 == DEFAULT_QUOTA_PER_MINUTE,
        res@[1].0@ == RATE_LIMIT_KEY_DATA@,
        res@[1].1 == DEFAULT_QUOTA_PER_MINUTE,
{
    let mut quotas: Vec<(String, u32)> = Vec::new();
    quotas.push((String::from_str(RATE_LIMIT_KEY_TRADING), DEFAULT_QUOTA_PER_MINUTE));
    quotas.push((String::from_str(RATE_LIMIT_KEY_DATA), DEFAULT_QUOTA_PER_MINUTE));
    quotas
}

} // verus!
