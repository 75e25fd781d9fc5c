//! The activities cursor, exercised against a venue simulated in memory: paging is about the
//! sequence of requests, not the shape of any one response.

use nautilus_alpaca::{
    common::order_enums::{AlpacaOrderSide, AlpacaOrderStatus, AlpacaOrderType, AlpacaTimeInForce},
    http::{
        models::{AlpacaFillActivity, AlpacaOrder},
        paging::{ActivitiesWalk, BarsWalk, OrdersWalk, PageOutcome},
        query::{ActivitiesParams, BarsParams, ListOrdersParams},
    },
};

/// The venue's own page ceiling.
const PAGE_SIZE: usize = 100;

fn activity(index: usize) -> AlpacaFillActivity {
    AlpacaFillActivity {
        id: format!("2026062421123{index:04}::1444f6ad-0000-4000-8000-{index:012}"),
        activity_type: Some("FILL".to_string()),
        fill_type: Some("fill".to_string()),
        transaction_time: "2026-06-25T01:12:30.709802Z".to_string(),
        symbol: "AAPL".to_string(),
        side: AlpacaOrderSide::Buy,
        price: "201.45".to_string(),
        qty: "1".to_string(),
        order_id: format!("0000aaaa-0000-4000-8000-{index:012}"),
        cum_qty: Some("1".to_string()),
        leaves_qty: Some("0".to_string()),
        order_status: Some("filled".to_string()),
    }
}

/// What each request asked for.
#[derive(Default)]
struct Recorder {
    tokens: Vec<Option<String>>,
    windows: Vec<(Option<String>, Option<String>)>,
    requests: usize,
}

/// Serves one page of `total` activities: the cursor is the previous page's last `id`, whose
/// trailing digits are its index, and the only sign of the end is a short page.
fn serve(total: usize, query: &ActivitiesParams, recorder: &mut Recorder) -> Vec<AlpacaFillActivity> {
    recorder.requests += 1;
    recorder.tokens.push(query.page_token.clone());
    recorder.windows.push((query.after.clone(), query.until.clone()));
    let size = query.page_size.map_or(PAGE_SIZE, |n| n as usize);
    let start = match &query.page_token {
        Some(token) => {
            let suffix = token.rsplit('-').next().unwrap_or_default();
            suffix.parse::<usize>().unwrap_or_default() + 1
        },
        None => 0,
    };
    let end = total.min(start + size);
    (start..end).map(activity).collect()
}

/// Follows the cursor to the end or to the page limit.
fn walk_all(total: usize, params: ActivitiesParams, max_pages: usize, recorder: &mut Recorder) -> Vec<AlpacaFillActivity> {
    let mut walk = ActivitiesWalk::new(params, max_pages);
    let mut all = Vec::new();
    while let Some(query) = walk.next_request() {
        let page = serve(total, &query, recorder);
        let outcome = walk.record_page(&page);
        all.extend(page);
        if outcome != PageOutcome::More {
            break;
        }
    }
    all
}

#[test]
fn test_activities_paging_follows_the_cursor_across_pages() {
    let mut recorder = Recorder::default();
    let activities = walk_all(250, ActivitiesParams::fills(), 10, &mut recorder);

    assert_eq!(activities.len(), 250);
    // Three requests: two full pages and a short one that ends the walk.
    assert_eq!(recorder.requests, 3);

    let tokens = recorder.tokens.clone();
    assert_eq!(tokens[0], None, "the first request carries no cursor");
    assert!(tokens[1].is_some() && tokens[2].is_some());

    // Every fill is distinct: a mis-threaded cursor would repeat a page.
    let ids: std::collections::HashSet<_> = activities.iter().map(|a| a.id.as_str()).collect();
    assert_eq!(ids.len(), 250);
}

#[test]
fn test_activities_paging_stops_on_a_short_first_page() {
    let mut recorder = Recorder::default();
    let activities = walk_all(7, ActivitiesParams::fills(), 10, &mut recorder);

    assert_eq!(activities.len(), 7);
    assert_eq!(recorder.requests, 1);
}

#[test]
fn test_activities_paging_handles_an_exact_multiple_of_the_page_size() {
    let mut recorder = Recorder::default();
    let activities = walk_all(200, ActivitiesParams::fills(), 10, &mut recorder);

    // The venue cannot say "that was the last page", so an empty third page is what ends it.
    assert_eq!(activities.len(), 200);
    assert_eq!(recorder.requests, 3);
}

#[test]
fn test_activities_paging_stops_at_the_page_limit() {
    let mut recorder = Recorder::default();
    let activities = walk_all(1_000, ActivitiesParams::fills(), 2, &mut recorder);

    // Truncated rather than looping to the end.
    assert_eq!(activities.len(), 200);
    assert_eq!(recorder.requests, 2);
}

#[test]
fn test_activities_window_is_sent_on_every_page() {
    let mut recorder = Recorder::default();
    let params = ActivitiesParams::fills().with_window(
        Some("2026-06-01T00:00:00Z".to_string()),
        Some("2026-07-01T00:00:00Z".to_string()),
    );
    walk_all(250, params, 10, &mut recorder);

    // Dropping the bounds after the first page would widen the walk to the whole account history.
    let windows = recorder.windows.clone();
    assert_eq!(windows.len(), 3);
    for window in windows {
        assert_eq!(
            window,
            (
                Some("2026-06-01T00:00:00Z".to_string()),
                Some("2026-07-01T00:00:00Z".to_string())
            )
        );
    }
}

#[test]
fn test_activities_walk_reports_truncation() {
    let mut walk = ActivitiesWalk::new(ActivitiesParams::fills(), 1);
    let page: Vec<_> = (0..100).map(activity).collect();
    assert!(walk.next_request().is_some());
    assert_eq!(walk.record_page(&page), PageOutcome::Truncated);
    assert!(walk.next_request().is_none());
    assert!(ActivitiesWalk::new(ActivitiesParams::fills(), 0).next_request().is_none());
}

#[test]
fn test_bars_walk_follows_next_page_tokens() {
    let symbols = vec!["AAPL".to_string(), "MSFT".to_string()];
    let mut walk = BarsWalk::new(BarsParams::new(&symbols, "1Min"), 3);
    let first = walk.next_request().unwrap();
    assert_eq!(first.symbols, "AAPL,MSFT");
    assert_eq!(first.page_token, None);
    assert_eq!(walk.record_page(Some("tok-1".to_string())), PageOutcome::More);
    assert_eq!(walk.next_request().unwrap().page_token.as_deref(), Some("tok-1"));
    assert_eq!(walk.record_page(None), PageOutcome::Complete);
    assert!(walk.next_request().is_none());

    let mut limited = BarsWalk::new(BarsParams::new(&symbols, "1Min"), 1);
    assert_eq!(limited.record_page(Some("more".to_string())), PageOutcome::Truncated);
}

fn venue_order(index: usize) -> AlpacaOrder {
    AlpacaOrder {
        id: format!("o-{index}"),
        client_order_id: format!("c-{index}"),
        symbol: "AAPL".to_string(),
        asset_class: None,
        order_type: Some(AlpacaOrderType::Market),
        type_alias: None,
        side: AlpacaOrderSide::Buy,
        time_in_force: AlpacaTimeInForce::Day,
        status: AlpacaOrderStatus::Filled,
        qty: Some("1".to_string()),
        filled_qty: None,
        filled_avg_price: None,
        limit_price: None,
        stop_price: None,
        notional: None,
        extended_hours: false,
        order_class: None,
        replaces: None,
        replaced_by: None,
        created_at: None,
        submitted_at: Some(format!("2026-06-25T01:12:{:02}Z", index % 60)),
        updated_at: None,
        filled_at: None,
        canceled_at: None,
        expired_at: None,
        expires_at: None,
        replaced_at: None,
        failed_at: None,
    }
}

#[test]
fn test_orders_walk_moves_the_time_cursor() {
    let mut walk = OrdersWalk::new(ListOrdersParams::all(), 5);
    let first = walk.next_request().unwrap();
    assert_eq!(first.limit, Some(500));
    assert_eq!(first.until, None);
    let page: Vec<_> = (0..500).map(venue_order).collect();
    assert_eq!(walk.record_page(&page), PageOutcome::More);
    let second = walk.next_request().unwrap();
    assert_eq!(second.until, page[499].submitted_at);
    assert_eq!(walk.record_page(&page[..10]), PageOutcome::Complete);
}
