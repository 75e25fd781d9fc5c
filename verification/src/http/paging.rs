//! Walking the venue's paginated listings.
//!
//! Each walk decides, after every page, whether to ask for another and with which cursor. None
//! of the venue's listings says that more data exists, so the walks infer it: a bars page names
//! its successor, while activities and orders continue only after a full page. Every walk stops
//! at a page limit and says so, since a truncated history that said nothing would read as a
//! complete one.

use vstd::prelude::*;

use crate::{
    common::credential::opt_string_view,
    http::{
        models::{AlpacaFillActivity, AlpacaOrder},
        query::{ActivitiesParams, BarsParams, ListOrdersParams},
    },
};

verus! {

/// Records per activities page: the venue's maximum, and the size the walk asks for.
pub const ACTIVITIES_PAGE_SIZE: u32 = 100;

/// Orders per page: the venue silently reduces anything larger to this.
pub const ORDERS_PAGE_SIZE: u32 = 500;

/// Most activities pages one walk follows.
pub const MAX_ACTIVITY_PAGES: usize = 50;

/// Most orders pages one walk follows.
pub const MAX_ORDER_PAGES: usize = 20;

/// What a walk concluded from the page just read.
#[derive(Copy, Clone, Debug, PartialEq, Eq, Structural)]
pub enum PageOutcome {
    /// Another page may follow; ask for it.
    More,
    /// The listing is exhausted.
    Complete,
    /// The page limit was reached with more possibly left; the result is truncated.
    Truncated,
}

fn clone_opt(v: &Option<String>) -> (res: Option<String>)
    ensures
        opt_string_view(res) == opt_string_view(*v),
{
    match v {
        Some(s) => Some(s.clone()),
        None => None,
    }
}

/// Walks `GET /v2/account/activities` for fills.
///
/// The cursor is the last record's `id`, and a page shorter than requested ends the walk.
#[derive(Debug)]
pub struct ActivitiesWalk {
    params: ActivitiesParams,
    max_pages: usize,
    pages: usize,
    finished: bool,
}

/// The page size an activities request asks for.
pub open spec fn activities_page_size(params: ActivitiesParams) -> nat {
    match params.page_size {
        Some(n) => n as nat,
        None => ACTIVITIES_PAGE_SIZE as nat,
    }
}

/// Two activities requests agree on everything but the cursor.
pub open spec fn same_activities_query(a: ActivitiesParams, b: ActivitiesParams) -> bool {
    &&& a.activity_types@ == b.activity_types@
    &&& opt_string_view(a.after) == opt_string_view(b.after)
    &&& opt_string_view(a.until) == opt_string_view(b.until)
    &&& a.page_size == b.page_size
}

impl ActivitiesWalk {
    /// The request the next page would be fetched with.
    pub closed spec fn query(&self) -> ActivitiesParams {
        self.params
    }

    /// Pages read so far.
    pub closed spec fn pages_read(&self) -> nat {
        self.pages as nat
    }

    /// The page limit.
    pub closed spec fn page_limit(&self) -> nat {
        self.max_pages as nat
    }

    /// Whether the walk asks for nothing more.
    pub closed spec fn is_finished(&self) -> bool {
        self.finished || self.pages >= self.max_pages
    }

    /// The walk never reads more pages than its limit.
    pub closed spec fn wf(&self) -> bool {
        self.pages <= self.max_pages
    }

    /// Starts a walk from the given request, reading at most `max_pages` pages.
    pub fn new(params: ActivitiesParams, max_pages: usize) -> (res: Self)
        ensures
            res.wf(),
            res.query() == params,
            res.pages_read() == 0,
            res.page_limit() == max_pages,
            res.is_finished() == (max_pages == 0),
    {
        ActivitiesWalk { params, max_pages, pages: 0, finished: false }
    }

    /// Returns the request for the next page, or `None` when the walk is over.
    pub fn next_request(&self) -> (res: Option<ActivitiesParams>)
        ensures
            res is None <==> self.is_finished(),
            res matches Some(p) ==> same_activities_query(p, self.query()) && opt_string_view(
                p.page_token,
            ) == opt_string_view(self.query().page_token),
    {
        if self.finished || self.pages >= self.max_pages {
            return None;
        }
        Some(
            ActivitiesParams {
                activity_types: self.params.activity_types.clone(),
                after: clone_opt(&self.params.after),
                until: clone_opt(&self.params.until),
                page_size: self.params.page_size,
                page_token: clone_opt(&self.params.page_token),
            },
        )
    }

    /// Takes in the page just read and decides whether to continue.
    pub fn record_page(&mut self, page: &[AlpacaFillActivity]) -> (res: PageOutcome)
        requires
            old(self).wf(),
            !old(self).is_finished(),
        ensures
            final(self).wf(),
            final(self).pages_read() == old(self).pages_read() + 1,
            final(self).page_limit() == old(self).page_limit(),
            same_activities_query(final(self).query(), old(self).query()),
            res == (if page@.len() == 0 || page@.len() < activities_page_size(old(self).query()) {
                PageOutcome::Complete
            } else if final(self).pages_read() == old(self).page_limit() {
                PageOutcome::Truncated
            } else {
                PageOutcome::More
            }),
            res == PageOutcome::More <==> !final(self).is_finished(),
            res == PageOutcome::More ==> opt_string_view(final(self).query().page_token) == Some(
                page@.last().id@,
            ),
    {
        self.pages = self.pages + 1;
        let size: usize = match self.params.page_size {
            Some(n) => n as usize,
            None => ACTIVITIES_PAGE_SIZE as usize,
        };
        if page.len() == 0 || page.len() < size {
            self.finished = true;
            return PageOutcome::Complete;
        }
        let cursor = page[page.len() - 1].id.clone();
        self.params = ActivitiesParams {
            activity_types: self.params.activity_types.clone(),
            after: clone_opt(&self.params.after),
            until: clone_opt(&self.params.until),
            page_size: self.params.page_size,
            page_token: Some(cursor),
        };
        if self.pages == self.max_pages {
            self.finished = true;
            PageOutcome::Truncated
        } else {
            PageOutcome::More
        }
    }
}

/// Walks `GET /v2/stocks/bars`, following `next_page_token` until the venue stops sending one.
#[derive(Debug)]
pub struct BarsWalk {
    params: BarsParams,
    max_pages: usize,
    pages: usize,
    finished: bool,
}

/// Two bars requests agree on everything but the cursor.
pub open spec fn same_bars_query(a: BarsParams, b: BarsParams) -> bool {
    &&& a.symbols@ == b.symbols@
    &&& a.timeframe@ == b.timeframe@
    &&& opt_string_view(a.start) == opt_string_view(b.start)
    &&& opt_string_view(a.end) == opt_string_view(b.end)
    &&& a.feed == b.feed
    &&& a.limit == b.limit
}

fn copy_bars_params(p: &BarsParams, page_token: Option<String>) -> (res: BarsParams)
    ensures
        same_bars_query(res, *p),
        opt_string_view(res.page_token) == opt_string_view(page_token),
{
    BarsParams {
        symbols: p.symbols.clone(),
        timeframe: p.timeframe.clone(),
        start: clone_opt(&p.start),
        end: clone_opt(&p.end),
        feed: p.feed,
        limit: p.limit,
        page_token,
    }
}

impl BarsWalk {
    /// The request the next page would be fetched with.
    pub closed spec fn query(&self) -> BarsParams {
        self.params
    }

    /// Pages read so far.
    pub closed spec fn pages_read(&self) -> nat {
        self.pages as nat
    }

    /// The page limit.
    pub closed spec fn page_limit(&self) -> nat {
        self.max_pages as nat
    }

    /// Whether the walk asks for nothing more.
    pub closed spec fn is_finished(&self) -> bool {
        self.finished || self.pages >= self.max_pages
    }

    /// The walk never reads more pages than its limit.
    pub closed spec fn wf(&self) -> bool {
        self.pages <= self.max_pages
    }

    /// Starts a walk from the given request, reading at most `max_pages` pages.
    pub fn new(params: BarsParams, max_pages: usize) -> (res: Self)
        ensures
            res.wf(),
            res.query() == params,
            res.pages_read() == 0,
            res.page_limit() == max_pages,
            res.is_finished() == (max_pages == 0),
    {
        BarsWalk { params, max_pages, pages: 0, finished: false }
    }

    /// Returns the request for the next page, or `None` when the walk is over.
    pub fn next_request(&self) -> (res: Option<BarsParams>)
        ensures
            res is None <==> self.is_finished(),
            res matches Some(p) ==> same_bars_query(p, self.query()) && opt_string_view(
                p.page_token,
            ) == opt_string_view(self.query().page_token),
    {
        if self.finished || self.pages >= self.max_pages {
            return None;
        }
        Some(copy_bars_params(&self.params, clone_opt(&self.params.page_token)))
    }

    /// Takes in the cursor the page just read carried and decides whether to continue.
    pub fn record_page(&mut self, next_page_token: Option<String>) -> (res: PageOutcome)
        requires
            old(self).wf(),
            !old(self).is_finished(),
        ensures
            final(self).wf(),
            final(self).pages_read() == old(self).pages_read() + 1,
            final(self).page_limit() == old(self).page_limit(),
            same_bars_query(final(self).query(), old(self).query()),
            res == (if next_page_token is None {
                PageOutcome::Complete
            } else if final(self).pages_read() == old(self).page_limit() {
                PageOutcome::Truncated
            } else {
                PageOutcome::More
            }),
            res == PageOutcome::More <==> !final(self).is_finished(),
            res == PageOutcome::More ==> opt_string_view(final(self).query().page_token)
                == opt_string_view(next_page_token),
    {
        self.pages = self.pages + 1;
        match next_page_token {
            None => {
                self.finished = true;
                PageOutcome::Complete
            },
            Some(token) => {
                self.params = copy_bars_params(&self.params, Some(token));
                if self.pages == self.max_pages {
                    self.finished = true;
                    PageOutcome::Truncated
                } else {
                    PageOutcome::More
                }
            },
        }
    }
}

/// Walks `GET /v2/orders`.
///
/// The cursor is `until`, set to the last order's `submitted_at` and exclusive at the venue; a
/// page shorter than requested ends the walk. A last order without a submission time leaves no
/// cursor, and the walk stops there as truncated.
#[derive(Debug)]
pub struct OrdersWalk {
    params: ListOrdersParams,
    max_pages: usize,
    pages: usize,
    finished: bool,
}

/// Two orders requests agree on everything but the `until` cursor.
pub open spec fn same_orders_query(a: ListOrdersParams, b: ListOrdersParams) -> bool {
    &&& opt_string_view(a.status) == opt_string_view(b.status)
    &&& a.limit == b.limit
    &&& opt_string_view(a.after) == opt_string_view(b.after)
    &&& opt_string_view(a.symbols) == opt_string_view(b.symbols)
    &&& a.nested == b.nested
}

fn copy_orders_params(p: &ListOrdersParams, until: Option<String>) -> (res: ListOrdersParams)
    ensures
        same_orders_query(res, *p),
        opt_string_view(res.until) == opt_string_view(until),
{
    ListOrdersParams {
        status: clone_opt(&p.status),
        limit: p.limit,
        after: clone_opt(&p.after),
        until,
        symbols: clone_opt(&p.symbols),
        nested: p.nested,
    }
}

impl OrdersWalk {
    /// The request the next page would be fetched with.
    pub closed spec fn query(&self) -> ListOrdersParams {
        self.params
    }

    /// Pages read so far.
    pub closed spec fn pages_read(&self) -> nat {
        self.pages as nat
    }

    /// The page limit.
    pub closed spec fn page_limit(&self) -> nat {
        self.max_pages as nat
    }

    /// Whether the walk asks for nothing more.
    pub closed spec fn is_finished(&self) -> bool {
        self.finished || self.pages >= self.max_pages
    }

    /// The walk never reads more pages than its limit.
    pub closed spec fn wf(&self) -> bool {
        self.pages <= self.max_pages
    }

    /// Starts a walk from the given listing, asking for full pages of [`ORDERS_PAGE_SIZE`].
    pub fn new(params: ListOrdersParams, max_pages: usize) -> (res: Self)
        ensures
            res.wf(),
            same_orders_query(res.query(), ListOrdersParams { limit: Some(ORDERS_PAGE_SIZE), ..params }),
            opt_string_view(res.query().until) == opt_string_view(params.until),
            res.pages_read() == 0,
            res.page_limit() == max_pages,
            res.is_finished() == (max_pages == 0),
    {
        let params = ListOrdersParams { limit: Some(ORDERS_PAGE_SIZE), ..params };
        OrdersWalk { params, max_pages, pages: 0, finished: false }
    }

    /// Returns the request for the next page, or `None` when the walk is over.
    pub fn next_request(&self) -> (res: Option<ListOrdersParams>)
        ensures
            res is None <==> self.is_finished(),
            res matches Some(p) ==> same_orders_query(p, self.query()) && opt_string_view(p.until)
                == opt_string_view(self.query().until),
    {
        if self.finished || self.pages >= self.max_pages {
            return None;
        }
        Some(copy_orders_params(&self.params, clone_opt(&self.params.until)))
    }

    /// Takes in the page just read and decides whether to continue.
    pub fn record_page(&mut self, page: &[AlpacaOrder]) -> (res: PageOutcome)
        requires
            old(self).wf(),
            !old(self).is_finished(),
        ensures
            final(self).wf(),
            final(self).pages_read() == old(self).pages_read() + 1,
            final(self).page_limit() == old(self).page_limit(),
            same_orders_query(final(self).query(), old(self).query()),
            res == (if page@.len() == 0 || page@.len() < (match old(self).query().limit {
                Some(n) => n as nat,
                None => ORDERS_PAGE_SIZE as nat,
            }) {
                PageOutcome::Complete
            } else if page@.last().submitted_at is None || final(self).pages_read()
                == old(self).page_limit() {
                PageOutcome::Truncated
            } else {
                PageOutcome::More
            }),
            res == PageOutcome::More <==> !final(self).is_finished(),
            res == PageOutcome::More ==> opt_string_view(final(self).query().until)
                == opt_string_view(page@.last().submitted_at),
    {
        self.pages = self.pages + 1;
        let size: usize = match self.params.limit {
            Some(n) => n as usize,
            None => ORDERS_PAGE_SIZE as usize,
        };
        if page.len() == 0 || page.len() < size {
            self.finished = true;
            return PageOutcome::Complete;
        }
        let cursor = match &page[page.len() - 1].submitted_at {
            Some(ts) => ts.clone(),
            None => {
                self.finished = true;
                return PageOutcome::Truncated;
            },
        };
        self.params = copy_orders_params(&self.params, Some(cursor));
        if self.pages == self.max_pages {
            self.finished = true;
            PageOutcome::Truncated
        } else {
            PageOutcome::More
        }
    }
}

} // verus!
