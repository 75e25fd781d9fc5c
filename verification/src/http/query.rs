//! Query parameter and request body types for the Alpaca REST API.
//!
//! Optional fields left `None` are omitted from the encoded request.

use vstd::prelude::*;

use crate::common::{
    credential::opt_string_view,
    enums::AlpacaDataFeed,
    order_enums::{AlpacaOrderSide, AlpacaOrderType, AlpacaTimeInForce},
};

verus! {

/// Query parameters for `GET /v2/assets`.
#[derive(Clone, Debug, PartialEq, Eq)]
pub struct ListAssetsParams {
    /// Filter by asset status, e.g. `active`.
    pub status: Option<String>,
    /// Filter by asset class. This adapter uses `us_equity`.
    pub asset_class: Option<String>,
    /// Filter by listing exchange.
    pub exchange: Option<String>,
    /// Filter by venue attributes, comma separated.
    pub attributes: Option<String>,
}

impl Default for ListAssetsParams {
    fn default() -> (res: Self)
        ensures
            res.status is None,
            res.asset_class is None,
            res.exchange is None,
            res.attributes is None,
    {
        ListAssetsParams { status: None, asset_class: None, exchange: None, attributes: None }
    }
}

impl ListAssetsParams {
    /// Returns parameters selecting active, tradable US equities.
    pub fn active_us_equities() -> (res: Self)
        ensures
            opt_string_view(res.status) == Some("active"@),
            opt_string_view(res.asset_class) == Some("us_equity"@),
            res.exchange is None,
            res.attributes is None,
    {
        ListAssetsParams {
            status: Some(String::from_str("active")),
            asset_class: Some(String::from_str("us_equity")),
            exchange: None,
            attributes: None,
        }
    }
}

/// Body of `POST /v2/orders`.
#[derive(Clone, Debug, PartialEq, Eq)]
pub struct SubmitOrderRequest {
    /// Ticker symbol.
    pub symbol: String,
    /// Quantity in whole shares.
    pub qty: String,
    /// Order side.
    pub side: AlpacaOrderSide,
    /// Order type.
    pub order_type: AlpacaOrderType,
    /// Time in force.
    pub time_in_force: AlpacaTimeInForce,
    /// Client-assigned order identifier.
    pub client_order_id: Option<String>,
    /// Limit price.
    pub limit_price: Option<String>,
    /// Stop price.
    pub stop_price: Option<String>,
    /// Whether the order may execute outside the regular session (omitted when false).
    pub extended_hours: bool,
}

/// Body of `PATCH /v2/orders/{id}`.
#[derive(Clone, Debug, PartialEq, Eq)]
pub struct ReplaceOrderRequest {
    /// New quantity in whole shares.
    pub qty: Option<String>,
    /// New time in force.
    pub time_in_force: Option<AlpacaTimeInForce>,
    /// New limit price.
    pub limit_price: Option<String>,
    /// New stop price.
    pub stop_price: Option<String>,
    /// Client-assigned identifier for the replacement order.
    pub client_order_id: Option<String>,
}

impl Default for ReplaceOrderRequest {
    fn default() -> (res: Self)
        ensures
            res.qty is None,
            res.time_in_force is None,
            res.limit_price is None,
            res.stop_price is None,
            res.client_order_id is None,
    {
        ReplaceOrderRequest {
            qty: None,
            time_in_force: None,
            limit_price: None,
            stop_price: None,
            client_order_id: None,
        }
    }
}

impl ReplaceOrderRequest {
    /// Returns true when the request would change nothing.
    ///
    /// Sending an empty amendment would still replace the order and issue a new identifier.
    pub fn is_empty(&self) -> (res: bool)
        ensures
            res == (self.qty is None && self.time_in_force is None && self.limit_price is None
                && self.stop_price is None),
    {
        self.qty.is_none() && self.time_in_force.is_none() && self.limit_price.is_none()
            && self.stop_price.is_none()
    }
}

/// Query parameters for `GET /v2/orders`.
#[derive(Clone, Debug, PartialEq, Eq)]
pub struct ListOrdersParams {
    /// Status filter: `open`, `closed`, or `all`.
    pub status: Option<String>,
    /// Maximum orders returned.
    pub limit: Option<u32>,
    /// Inclusive lower bound on submission time (RFC 3339).
    pub after: Option<String>,
    /// Exclusive upper bound on submission time (RFC 3339); also the paging cursor.
    pub until: Option<String>,
    /// Comma-separated symbol filter.
    pub symbols: Option<String>,
    /// Whether to include the legs of multi-leg orders.
    pub nested: Option<bool>,
}

impl Default for ListOrdersParams {
    fn default() -> (res: Self)
        ensures
            res.status is None,
            res.limit is None,
            res.after is None,
            res.until is None,
            res.symbols is None,
            res.nested is None,
    {
        ListOrdersParams {
            status: None,
            limit: None,
            after: None,
            until: None,
            symbols: None,
            nested: None,
        }
    }
}

impl ListOrdersParams {
    /// Returns parameters selecting all working orders.
    pub fn open() -> (res: Self)
        ensures
            opt_string_view(res.status) == Some("open"@),
            res.limit is None,
            res.after is None,
            res.until is None,
            res.symbols is None,
            res.nested is None,
    {
        ListOrdersParams { status: Some(String::from_str("open")), ..Self::default() }
    }

    /// Returns parameters selecting orders in every state.
    pub fn all() -> (res: Self)
        ensures
            opt_string_view(res.status) == Some("all"@),
            res.limit is None,
            res.after is None,
            res.until is None,
            res.symbols is None,
            res.nested is None,
    {
        ListOrdersParams { status: Some(String::from_str("all")), ..Self::default() }
    }

    /// Sets the submission-time window.
    pub fn with_window(self, after: Option<String>, until: Option<String>) -> (res: Self)
        ensures
            res == (ListOrdersParams { after, until, ..self }),
    {
        ListOrdersParams { after, until, ..self }
    }

    /// Restricts the listing to one symbol.
    pub fn with_symbol(self, symbol: &str) -> (res: Self)
        ensures
            opt_string_view(res.symbols) == Some(symbol@),
            res.status == self.status,
            res.limit == self.limit,
            res.after == self.after,
            res.until == self.until,
            res.nested == self.nested,
    {
        ListOrdersParams { symbols: Some(String::from_str(symbol)), ..self }
    }
}

/// Query parameters for `GET /v2/calendar`.
#[derive(Clone, Debug, PartialEq, Eq)]
pub struct CalendarParams {
    /// Inclusive first date, `YYYY-MM-DD`.
    pub start: Option<String>,
    /// Inclusive last date, `YYYY-MM-DD`.
    pub end: Option<String>,
}

/// Query parameters for `GET /v2/account/activities` restricted to fills.
#[derive(Clone, Debug, PartialEq, Eq)]
pub struct ActivitiesParams {
    /// Activity types, comma separated; `FILL` for this adapter.
    pub activity_types: String,
    /// Inclusive lower bound (RFC 3339).
    pub after: Option<String>,
    /// Upper bound (RFC 3339).
    pub until: Option<String>,
    /// Maximum records per page; the venue caps it at 100.
    pub page_size: Option<u32>,
    /// Cursor: the last record's `id` from the previous page.
    pub page_token: Option<String>,
}

impl ActivitiesParams {
    /// Returns parameters selecting fill activities, one page at the venue's maximum size.
    pub fn fills() -> (res: Self)
        ensures
            res.activity_types@ == "FILL"@,
            res.after is None,
            res.until is None,
            res.page_size == Some(100u32),
            res.page_token is None,
    {
        ActivitiesParams {
            activity_types: String::from_str("FILL"),
            after: None,
            until: None,
            page_size: Some(100),
            page_token: None,
        }
    }

    /// Sets the time window.
    pub fn with_window(self, after: Option<String>, until: Option<String>) -> (res: Self)
        ensures
            res == (ActivitiesParams { after, until, ..self }),
    {
        ActivitiesParams { after, until, ..self }
    }

    /// Sets the page cursor.
    pub fn with_page_token(self, token: String) -> (res: Self)
        ensures
            res == (ActivitiesParams { page_token: Some(token), ..self }),
    {
        ActivitiesParams { page_token: Some(token), ..self }
    }
}

/// Query parameters for `GET /v2/stocks/bars`.
#[derive(Clone, Debug, PartialEq, Eq)]
pub struct BarsParams {
    /// Comma-separated symbols.
    pub symbols: String,
    /// Venue timeframe string, e.g. `1Min`.
    pub timeframe: String,
    /// Inclusive window start (RFC 3339).
    pub start: Option<String>,
    /// Inclusive window end (RFC 3339).
    pub end: Option<String>,
    /// Market data feed.
    pub feed: Option<AlpacaDataFeed>,
    /// Maximum bars per page.
    pub limit: Option<u32>,
    /// Cursor returned by a previous page.
    pub page_token: Option<String>,
}

/// Items joined by a separator.
pub open spec fn seq_join(items: Seq<Seq<char>>, sep: Seq<char>) -> Seq<char>
    decreases items.len(),
{
    if items.len() == 0 {
        seq![]
    } else if items.len() == 1 {
        items[0]
    } else {
        seq_join(items.drop_last(), sep) + sep + items.last()
    }
}

/// The views of a slice of strings.
pub open spec fn views(items: Seq<String>) -> Seq<Seq<char>> {
    items.map_values(|s: String| s@)
}

/// Joins strings with a comma.
pub fn join_with_commas(items: &[String]) -> (res: String)
    ensures
        res@ == seq_join(views(items@), ","@),
{
    let mut res = String::new();
    let n = items.len();
    let mut i: usize = 0;
    while i < n
        invariant
            n == items@.len(),
            i <= n,
            res@ == seq_join(views(items@.take(i as int)), ","@),
        decreases n - i,
    {
        let ghost before = res@;
        if i != 0 {
            res.append(",");
        }
        res.append(items[i].as_str());
        proof {
            let taken = views(items@.take(i + 1));
            assert(taken.drop_last() =~= views(items@.take(i as int)));
            assert(taken.last() == items@[i as int]@);
            if i == 0 {
                assert(taken =~= seq![items@[0]@]);
                assert(before =~= Seq::<char>::empty());
                assert(res@ =~= items@[0]@);
            }
        }
        i = i + 1;
    }
    assert(items@.take(n as int) =~= items@);
    res
}

impl BarsParams {
    /// Creates parameters for a symbol set and timeframe.
    pub fn new(symbols: &[String], timeframe: &str) -> (res: Self)
        ensures
            res.symbols@ == seq_join(views(symbols@), ","@),
            res.timeframe@ == timeframe@,
            res.start is None,
            res.end is None,
            res.feed is None,
            res.limit is None,
            res.page_token is None,
    {
        BarsParams {
            symbols: join_with_commas(symbols),
            timeframe: String::from_str(timeframe),
            start: None,
            end: None,
            feed: None,
            limit: None,
            page_token: None,
        }
    }

    /// Sets the market data feed.
    pub fn with_feed(self, feed: AlpacaDataFeed) -> (res: Self)
        ensures
            res == (BarsParams { feed: Some(feed), ..self }),
    {
        BarsParams { feed: Some(feed), ..self }
    }

    /// Sets the request window.
    pub fn with_window(self, start: String, end: String) -> (res: Self)
        ensures
            res == (BarsParams { start: Some(start), end: Some(end), ..self }),
    {
        BarsParams { start: Some(start), end: Some(end), ..self }
    }

    /// Sets the page cursor.
    pub fn with_page_token(self, token: String) -> (res: Self)
        ensures
            res == (BarsParams { page_token: Some(token), ..self }),
    {
        BarsParams { page_token: Some(token), ..self }
    }

    /// Sets the page size limit.
    pub fn with_limit(self, limit: u32) -> (res: Self)
        ensures
            res == (BarsParams { limit: Some(limit), ..self }),
    {
        BarsParams { limit: Some(limit), ..self }
    }
}

} // verus!
