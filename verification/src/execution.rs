//! Decisions of the Alpaca execution client: following order replacements, gating submissions,
//! and turning trade updates into reports.

use ahash::AHashMap;
use vstd::prelude::*;

use crate::{
    common::{
        credential::opt_string_view,
        decimal::{decimal_eq, decimal_string, decimal_to_string, Decimal},
        model::{LiquiditySide, OrderSide, OrderType, PositionSideSpecified, TimeInForce},
        order_enums::{
            spec_is_terminal, spec_order_type_from_nautilus, spec_side_from_nautilus,
            spec_tif_from_nautilus, AlpacaOrderSide, AlpacaOrderType, AlpacaTimeInForce,
            ConversionError,
        },
        reg_nms::{check_order_price, spec_is_valid_order_price, spec_violation_of, RegNmsViolation},
        text::str_equals,
    },
    http::{
        models::{
            AlpacaFillActivity, opt_decimal_wf, opt_ref_view, spec_daily_loss_breach, spec_validate_for_trading,
            Account, AccountError, AlpacaOrder, AlpacaPosition, DailyLossBreach, DailyLossError,
            LossLimit,
        },
        parse::spec_instrument_id,
        parse_exec::{
            decimal_text_of, parse_decimal, InvalidDecimal, parse_fill_activity_report, parse_fill_report,
            parse_order_status_report, parse_position_status_report, spec_decimal_text,
            spec_execution_id, spec_fill_activity_report, spec_fill_report, spec_order_status_report,
            spec_position_side, spec_quantity_text, FillReport, OrderReportFields, OrderStatusReport,
            PositionStatusReport, ReportError,
        },
        query::{ListOrdersParams, ReplaceOrderRequest, SubmitOrderRequest},
    },
    websocket::messages::{event_from_wire, spec_has_fill_detail, AlpacaTradeEvent, TradeUpdate},
};

verus! {

/// What a replacement chain holds: for each identifier the engine knows, the identifier the
/// order currently trades under.
pub uninterp spec fn chain_entries(m: AHashMap<String, String>) -> Map<Seq<char>, Seq<char>>;

/// A chain with no entries.
pub open spec fn no_entries() -> Map<Seq<char>, Seq<char>> {
    Map::empty()
}

/// Creates an empty map (`AHashMap::new`).
#[verifier::external_body]
fn chain_map_new() -> (res: AHashMap<String, String>)
    ensures
        chain_entries(res) == no_entries(),
{
    AHashMap::new()
}

/// Looks a key up (`AHashMap::get`).
#[verifier::external_body]
fn chain_map_get<'a>(m: &'a AHashMap<String, String>, key: &str) -> (res: Option<&'a String>)
    ensures
        res matches Some(v) ==> chain_entries(*m).contains_key(key@) && v@ == chain_entries(
            *m,
        )[key@],
        res is None ==> !chain_entries(*m).contains_key(key@),
{
    m.get(key)
}

/// Inserts or replaces an entry (`AHashMap::insert`).
#[verifier::external_body]
fn chain_map_insert(m: &mut AHashMap<String, String>, key: String, value: String)
    ensures
        chain_entries(*final(m)) == chain_entries(*old(m)).insert(key@, value@),
{
    m.insert(key, value);
}

/// Removes an entry (`AHashMap::remove`).
#[verifier::external_body]
fn chain_map_remove(m: &mut AHashMap<String, String>, key: &str)
    ensures
        chain_entries(*final(m)) == chain_entries(*old(m)).remove(key@),
{
    m.remove(key);
}

/// Lists the entries (`AHashMap::iter`), each once, in the map's unspecified order.
#[verifier::external_body]
fn chain_map_entries<'a>(m: &'a AHashMap<String, String>) -> (res: Vec<(&'a String, &'a String)>)
    ensures
        forall|i: int|
            0 <= i < res@.len() ==> chain_entries(*m).contains_key((#[trigger] res@[i]).0@)
                && chain_entries(*m)[res@[i].0@] == res@[i].1@,
        forall|k: Seq<char>|
            #[trigger] chain_entries(*m).contains_key(k) ==> exists|i: int|
                0 <= i < res@.len() && (#[trigger] res@[i]).0@ == k,
{
    m.iter().collect()
}

/// The identifier an order currently trades under: its replacement when one is recorded,
/// else itself.
pub open spec fn spec_resolve(entries: Map<Seq<char>, Seq<char>>, id: Seq<char>) -> Seq<char> {
    if entries.contains_key(id) {
        entries[id]
    } else {
        id
    }
}

/// What recording `original -> replacement` does: the entry whose live identifier is
/// `original` now points at `replacement`; when no entry leads to `original`, `original`
/// itself starts one.
pub open spec fn spec_recorded(
    before: Map<Seq<char>, Seq<char>>,
    after: Map<Seq<char>, Seq<char>>,
    original: Seq<char>,
    replacement: Seq<char>,
) -> bool {
    ||| exists|root: Seq<char>|
        before.contains_key(root) && before[root] == original && after == before.insert(
            root,
            replacement,
        )
    ||| (forall|root: Seq<char>| before.contains_key(root) ==> before[root] != original) && after
        == before.insert(original, replacement)
}

/// Finds the entry whose live identifier is `original`.
fn find_root(m: &AHashMap<String, String>, original: &str) -> (res: Option<String>)
    ensures
        res matches Some(k) ==> chain_entries(*m).contains_key(k@) && chain_entries(*m)[k@]
            == original@,
        res is None ==> forall|r: Seq<char>|
            chain_entries(*m).contains_key(r) ==> chain_entries(*m)[r] != original@,
{
    let entries = chain_map_entries(m);
    let n = entries.len();
    let mut i: usize = 0;
    while i < n
        invariant
            n == entries@.len(),
            i <= n,
            forall|j: int|
                0 <= j < entries@.len() ==> chain_entries(*m).contains_key(
                    (#[trigger] entries@[j]).0@,
                ) && chain_entries(*m)[entries@[j].0@] == entries@[j].1@,
            forall|k: Seq<char>|
                #[trigger] chain_entries(*m).contains_key(k) ==> exists|j: int|
                    0 <= j < entries@.len() && (#[trigger] entries@[j]).0@ == k,
            forall|j: int| 0 <= j < i ==> (#[trigger] entries@[j]).1@ != original@,
        decreases n - i,
    {
        let (key, live) = entries[i];
        if str_equals(live.as_str(), original) {
            return Some(key.clone());
        }
        i = i + 1;
    }
    assert forall|r: Seq<char>| chain_entries(*m).contains_key(r) implies chain_entries(*m)[r]
        != original@ by {
        let j = choose|j: int| 0 <= j < entries@.len() && (#[trigger] entries@[j]).0@ == r;
        assert(entries@[j].1@ == chain_entries(*m)[r]);
    }
    None
}

/// Follows order amendments from the identifier the engine knows to the one live at the venue.
///
/// Alpaca implements an amendment as a replacement: a new order under a new identifier.
#[derive(Debug)]
pub struct ReplacementChain {
    current: AHashMap<String, String>,
}

impl View for ReplacementChain {
    type V = Map<Seq<char>, Seq<char>>;

    closed spec fn view(&self) -> Map<Seq<char>, Seq<char>> {
        chain_entries(self.current)
    }
}

impl ReplacementChain {
    /// Creates an empty chain.
    pub fn new() -> (res: Self)
        ensures
            res@ == Map::<Seq<char>, Seq<char>>::empty(),
    {
        ReplacementChain { current: chain_map_new() }
    }

    /// Records that `original` now trades as `replacement`.
    ///
    /// Chains collapse rather than nest: amending twice leaves the first identifier pointing
    /// straight at the third, so resolution never walks more than one hop.
    pub fn record(&mut self, original: &str, replacement: &str)
        ensures
            spec_recorded(old(self)@, final(self)@, original@, replacement@),
    {
        match find_root(&self.current, original) {
            Some(k) => {
                chain_map_insert(&mut self.current, k, String::from_str(replacement));
            },
            None => {
                chain_map_insert(
                    &mut self.current,
                    String::from_str(original),
                    String::from_str(replacement),
                );
            },
        }
    }

    /// Returns the identifier currently live at the venue for `venue_order_id`.
    pub fn resolve(&self, venue_order_id: &str) -> (res: String)
        ensures
            res@ == spec_resolve(self@, venue_order_id@),
    {
        match chain_map_get(&self.current, venue_order_id) {
            Some(live) => live.clone(),
            None => String::from_str(venue_order_id),
        }
    }

    /// Drops the entry for `venue_order_id`.
    pub fn forget(&mut self, venue_order_id: &str)
        ensures
            final(self)@ == old(self)@.remove(venue_order_id@),
    {
        chain_map_remove(&mut self.current, venue_order_id);
    }
}

/// What the engine is told once the venue has answered an amendment or a cancellation.
#[derive(Clone, Debug, PartialEq, Eq)]
pub enum Settlement {
    /// Nothing: the request went through, and the stream reports what follows.
    Done,
    /// The amendment was refused; the order is still working under `venue_order_id`.
    ModifyRejected { venue_order_id: String, reason: String },
    /// The cancellation was refused; the order is still working under `venue_order_id`.
    CancelRejected { venue_order_id: String, reason: String },
}

impl ReplacementChain {
    /// Settles the venue's answer to an amendment of the order the engine knows as
    /// `venue_order_id`, sent against `live_id`: the replacement's identifier, or the reason it
    /// was refused.
    ///
    /// A refusal (an order received but not yet routed cannot be replaced, for one) leaves the
    /// order working, so the engine hears that its request failed rather than waits for an
    /// update that never comes.
    pub fn settle_replace(&mut self, venue_order_id: &str, live_id: &str, answer: Result<String, String>) -> (res:
        Settlement)
        ensures
            match answer {
                Ok(new_id) => res == Settlement::Done && spec_recorded(
                    old(self)@,
                    final(self)@,
                    venue_order_id@,
                    new_id@,
                ),
                Err(reason) => {
                    &&& final(self)@ == old(self)@
                    &&& res matches Settlement::ModifyRejected { venue_order_id: v, reason: r }
                    &&& v@ == live_id@
                    &&& r@ == reason@
                },
            },
    {
        match answer {
            Ok(new_id) => {
                self.record(venue_order_id, new_id.as_str());
                Settlement::Done
            },
            Err(reason) => Settlement::ModifyRejected {
                venue_order_id: String::from_str(live_id),
                reason,
            },
        }
    }

    /// Settles the venue's answer to a cancellation of the order the engine knows as
    /// `venue_order_id`, sent against `live_id`: success, or the reason it was refused.
    ///
    /// A cancelled order needs no chain entry; a refused cancellation leaves the order working
    /// and is reported so the engine does not believe it on its way out.
    pub fn settle_cancel(&mut self, venue_order_id: &str, live_id: &str, answer: Result<(), String>) -> (res:
        Settlement)
        ensures
            match answer {
                Ok(()) => res == Settlement::Done && final(self)@ == old(self)@.remove(
                    venue_order_id@,
                ),
                Err(reason) => {
                    &&& final(self)@ == old(self)@
                    &&& res matches Settlement::CancelRejected { venue_order_id: v, reason: r }
                    &&& v@ == live_id@
                    &&& r@ == reason@
                },
            },
    {
        match answer {
            Ok(()) => {
                self.forget(venue_order_id);
                Settlement::Done
            },
            Err(reason) => Settlement::CancelRejected {
                venue_order_id: String::from_str(live_id),
                reason,
            },
        }
    }

    /// Settles the venue's answer to cancelling every open order: once they are all gone no
    /// chain entry is needed; a failure leaves the chain as it was.
    pub fn settle_cancel_all(&mut self, succeeded: bool)
        ensures
            succeeded ==> final(self)@ == Map::<Seq<char>, Seq<char>>::empty(),
            !succeeded ==> final(self)@ == old(self)@,
    {
        if succeeded {
            self.current = chain_map_new();
        }
    }
}

/// Recording a replacement makes the identifier the engine knows resolve, in one hop, to the
/// newest one: for a chain already under way that is its root, and for a fresh order the order
/// itself. Entries that do not lead to the amended order are untouched.
pub proof fn lemma_record_then_resolve(
    before: Map<Seq<char>, Seq<char>>,
    after: Map<Seq<char>, Seq<char>>,
    original: Seq<char>,
    replacement: Seq<char>,
    other: Seq<char>,
)
    requires
        spec_recorded(before, after, original, replacement),
        forall|a: Seq<char>, b: Seq<char>|
            before.contains_key(a) && before.contains_key(b) && before[a] == before[b] ==> a == b,
    ensures
        (exists|root: Seq<char>| before.contains_key(root) && before[root] == original)
            ==> spec_resolve(after, choose|root: Seq<char>| before.contains_key(root) && before[root] == original) == replacement,
        (forall|root: Seq<char>| before.contains_key(root) ==> before[root] != original)
            ==> spec_resolve(after, original) == replacement,
        (before.contains_key(other) && before[other] != original && other != original)
            ==> spec_resolve(after, other) == spec_resolve(before, other),
{
    if exists|root: Seq<char>| before.contains_key(root) && before[root] == original {
        let r = choose|root: Seq<char>| before.contains_key(root) && before[root] == original;
        let w = choose|root: Seq<char>|
            before.contains_key(root) && before[root] == original && after == before.insert(
                root,
                replacement,
            );
        assert(r == w);
    }
}

/// Amending an order twice leaves its first identifier pointing straight at the third, in one
/// hop, with no entry for the intermediate one.
pub proof fn lemma_repeated_amendments_collapse(
    first: Map<Seq<char>, Seq<char>>,
    second: Map<Seq<char>, Seq<char>>,
    a: Seq<char>,
    b: Seq<char>,
    c: Seq<char>,
)
    requires
        spec_recorded(no_entries(), first, a, b),
        spec_recorded(first, second, b, c),
    ensures
        spec_resolve(second, a) == c,
        second.dom() =~= set![a],
{
    assert(first =~= no_entries().insert(a, b));
    assert(first.contains_key(a) && first[a] == b);
    assert(second =~= first.insert(a, c)) by {
        if exists|root: Seq<char>| first.contains_key(root) && first[root] == b && second
            == first.insert(root, c) {
            let root = choose|root: Seq<char>|
                first.contains_key(root) && first[root] == b && second == first.insert(root, c);
            assert(root == a);
        }
    }
}

/// Forgetting an identifier makes it resolve to itself again, as does any identifier never
/// recorded.
pub proof fn lemma_forget_then_resolve(before: Map<Seq<char>, Seq<char>>, id: Seq<char>)
    ensures
        spec_resolve(before.remove(id), id) == id,
        !before.contains_key(id) ==> spec_resolve(before, id) == id,
{
}

/// The client order identifiers of working orders, other than `current`, among the open orders
/// of a symbol, in the order the venue listed them.
pub open spec fn spec_conflicts(current: Seq<char>, orders: Seq<AlpacaOrder>) -> Seq<Seq<char>>
    decreases orders.len(),
{
    if orders.len() == 0 {
        seq![]
    } else {
        let rest = spec_conflicts(current, orders.drop_last());
        let o = orders.last();
        if o.client_order_id@ != current && !spec_is_terminal(o.status) {
            rest.push(o.client_order_id@)
        } else {
            rest
        }
    }
}

/// An open order conflicts with a new one exactly when it is still working (not terminal, so a
/// partially filled order counts) and belongs to another client order: every such order is
/// listed, and nothing else is.
pub proof fn lemma_conflicts_are_the_other_working_orders(current: Seq<char>, orders: Seq<AlpacaOrder>)
    ensures
        forall|i: int|
            0 <= i < orders.len() && (#[trigger] orders[i]).client_order_id@ != current
                && !spec_is_terminal(orders[i].status) ==> spec_conflicts(current, orders).contains(
                orders[i].client_order_id@,
            ),
        forall|k: int|
            #![trigger spec_conflicts(current, orders)[k]]
            0 <= k < spec_conflicts(current, orders).len() ==> exists|i: int|
                0 <= i < orders.len() && (#[trigger] orders[i]).client_order_id@ == spec_conflicts(
                    current,
                    orders,
                )[k] && orders[i].client_order_id@ != current && !spec_is_terminal(orders[i].status),
    decreases orders.len(),
{
    if orders.len() > 0 {
        let rest = orders.drop_last();
        lemma_conflicts_are_the_other_working_orders(current, rest);
        let c = spec_conflicts(current, orders);
        let r = spec_conflicts(current, rest);
        let last = orders.len() - 1;
        assert forall|i: int|
            0 <= i < orders.len() && (#[trigger] orders[i]).client_order_id@ != current
                && !spec_is_terminal(orders[i].status) implies c.contains(orders[i].client_order_id@) by {
            if i < last {
                assert(rest[i] == orders[i]);
                let k = choose|k: int| 0 <= k < r.len() && r[k] == orders[i].client_order_id@;
                assert(c[k] == r[k]);
            } else {
                assert(c[c.len() - 1] == orders[i].client_order_id@);
            }
        }
        assert forall|k: int| #![trigger c[k]] 0 <= k < c.len() implies exists|i: int|
            0 <= i < orders.len() && (#[trigger] orders[i]).client_order_id@ == c[k]
                && orders[i].client_order_id@ != current && !spec_is_terminal(orders[i].status) by {
            if k < r.len() {
                assert(c[k] == r[k]);
                let i = choose|i: int|
                    0 <= i < rest.len() && (#[trigger] rest[i]).client_order_id@ == r[k]
                        && rest[i].client_order_id@ != current && !spec_is_terminal(rest[i].status);
                assert(orders[i] == rest[i]);
            } else {
                assert(orders[last].client_order_id@ == c[k]);
            }
        }
    }
}

/// Returns the client order identifiers of working orders other than `current`: orders that
/// would trade alongside a new one on the same symbol.
pub fn conflicting_working_client_order_ids(current: &str, open_orders: &Vec<AlpacaOrder>) -> (res:
    Vec<String>)
    ensures
        res@.map_values(|s: String| s@) == spec_conflicts(current@, open_orders@),
{
    let mut out: Vec<String> = Vec::new();
    let mut i: usize = 0;
    while i < open_orders.len()
        invariant
            i <= open_orders@.len(),
            out@.map_values(|s: String| s@) == spec_conflicts(current@, open_orders@.subrange(0, i as int)),
        decreases open_orders@.len() - i,
    {
        let o = &open_orders[i];
        proof {
            assert(open_orders@.subrange(0, i + 1).drop_last() =~= open_orders@.subrange(0, i as int));
        }
        if !str_equals(o.client_order_id.as_str(), current) && !o.status.is_terminal() {
            out.push(o.client_order_id.clone());
        }
        i = i + 1;
    }
    assert(open_orders@.subrange(0, open_orders@.len() as int) =~= open_orders@);
    out
}

/// Why the exact-close check could not be evaluated.
#[derive(Copy, Clone, Debug, PartialEq, Eq, Structural)]
pub enum CloseCheckError {
    /// The order quantity is not a decimal.
    InvalidOrderQuantity,
    /// The order quantity is zero or negative.
    NonPositiveOrderQuantity,
    /// The venue returned more than one position for the symbol.
    MultiplePositions,
    /// The position quantity is not a decimal.
    InvalidPositionQuantity,
}

/// The number of positions held in `symbol`.
pub open spec fn positions_in(positions: Seq<AlpacaPosition>, symbol: Seq<char>) -> nat
    decreases positions.len(),
{
    if positions.len() == 0 {
        0
    } else {
        positions_in(positions.drop_last(), symbol) + if positions.last().symbol@ == symbol {
            1nat
        } else {
            0nat
        }
    }
}

/// True when an order of `side` for `quantity` shares exactly flattens a signed position.
pub open spec fn closes_exactly(side: AlpacaOrderSide, position: Decimal, quantity: Decimal) -> bool {
    match side {
        AlpacaOrderSide::Sell => crate::common::decimal::value_eq(position, quantity),
        AlpacaOrderSide::Buy => crate::common::decimal::value_eq(
            position,
            Decimal { mantissa: (-quantity.mantissa) as i128, scale: quantity.scale },
        ),
        _ => false,
    }
}

/// The outcome of the exact-close check: the order quantity must parse and be positive; with no
/// position in the symbol the order closes nothing; more than one position is an error; else the
/// single position's signed size must be flattened exactly by the order.
pub open spec fn spec_exactly_closes_position(
    request: SubmitOrderRequest,
    positions: Seq<AlpacaPosition>,
) -> Result<bool, CloseCheckError> {
    match spec_decimal_text(request.qty@) {
        None => Err(CloseCheckError::InvalidOrderQuantity),
        Some(q) => if q.mantissa <= 0 {
            Err(CloseCheckError::NonPositiveOrderQuantity)
        } else if positions_in(positions, request.symbol@) == 0 {
            Ok(false)
        } else if positions_in(positions, request.symbol@) > 1 {
            Err(CloseCheckError::MultiplePositions)
        } else {
            let p = choose|i: int|
                0 <= i < positions.len() && #[trigger] positions[i].symbol@ == request.symbol@;
            match spec_decimal_text(positions[p].qty@) {
                None => Err(CloseCheckError::InvalidPositionQuantity),
                Some(signed) => Ok(closes_exactly(request.side, signed, q)),
            }
        },
    }
}

proof fn lemma_positions_in_unique(positions: Seq<AlpacaPosition>, symbol: Seq<char>, i: int)
    requires
        0 <= i < positions.len(),
        positions[i].symbol@ == symbol,
        positions_in(positions, symbol) == 1,
    ensures
        forall|j: int| 0 <= j < positions.len() && #[trigger] positions[j].symbol@ == symbol ==> j == i,
    decreases positions.len(),
{
    let rest = positions.drop_last();
    if i < positions.len() - 1 {
        if positions.last().symbol@ == symbol {
            lemma_positions_in_positive(rest, symbol, i);
        } else {
            lemma_positions_in_unique(rest, symbol, i);
            assert forall|j: int| 0 <= j < positions.len() && #[trigger] positions[j].symbol@ == symbol implies j == i by {
                if j < positions.len() - 1 {
                    assert(rest[j] == positions[j]);
                }
            }
        }
    } else {
        assert forall|j: int| 0 <= j < positions.len() && #[trigger] positions[j].symbol@ == symbol implies j == i by {
            if j < positions.len() - 1 {
                assert(rest[j] == positions[j]);
                lemma_positions_in_positive(rest, symbol, j);
            }
        }
    }
}

proof fn lemma_positions_in_positive(positions: Seq<AlpacaPosition>, symbol: Seq<char>, i: int)
    requires
        0 <= i < positions.len(),
        positions[i].symbol@ == symbol,
    ensures
        positions_in(positions, symbol) >= 1,
    decreases positions.len(),
{
    if i < positions.len() - 1 {
        let rest = positions.drop_last();
        assert(rest[i] == positions[i]);
        lemma_positions_in_positive(rest, symbol, i);
    }
}

/// Returns true only for a whole order which exactly closes the venue's current signed position
/// in its symbol. A partial reduction is deliberately not an exact close.
pub fn exactly_closes_position(request: &SubmitOrderRequest, positions: &Vec<AlpacaPosition>) -> (res:
    Result<bool, CloseCheckError>)
    ensures
        res == spec_exactly_closes_position(*request, positions@),
{
    let quantity = match decimal_text_of(request.qty.as_str()) {
        Some(q) => q,
        None => {
            return Err(CloseCheckError::InvalidOrderQuantity);
        },
    };
    if !quantity.is_positive() {
        return Err(CloseCheckError::NonPositiveOrderQuantity);
    }
    let mut found: Option<usize> = None;
    let mut i: usize = 0;
    while i < positions.len()
        invariant
            i <= positions@.len(),
            spec_decimal_text(request.qty@) == Some(quantity),
            quantity.mantissa > 0,
            found is None ==> positions_in(positions@.subrange(0, i as int), request.symbol@) == 0,
            found matches Some(f) ==> f < i && positions@[f as int].symbol@ == request.symbol@
                && positions_in(positions@.subrange(0, i as int), request.symbol@) == 1,
        decreases positions@.len() - i,
    {
        proof {
            assert(positions@.subrange(0, i + 1).drop_last() =~= positions@.subrange(0, i as int));
        }
        if str_equals(positions[i].symbol.as_str(), request.symbol.as_str()) {
            if found.is_some() {
                proof {
                    assert(positions@.subrange(0, i + 1).last() == positions@[i as int]);
                    assert(positions_in(positions@.subrange(0, i + 1), request.symbol@) == 2);
                    lemma_positions_in_prefix_monotone(positions@, request.symbol@, i + 1);
                }
                return Err(CloseCheckError::MultiplePositions);
            }
            found = Some(i);
        }
        i = i + 1;
    }
    assert(positions@.subrange(0, positions@.len() as int) =~= positions@);
    let p = match found {
        None => {
            return Ok(false);
        },
        Some(p) => p,
    };
    proof {
        lemma_positions_in_unique(positions@, request.symbol@, p as int);
    }
    let signed = match decimal_text_of(positions[p].qty.as_str()) {
        Some(d) => d,
        None => {
            return Err(CloseCheckError::InvalidPositionQuantity);
        },
    };
    let closes = match request.side {
        AlpacaOrderSide::Sell => decimal_eq(signed, quantity),
        AlpacaOrderSide::Buy => decimal_eq(signed, quantity.neg()),
        _ => false,
    };
    Ok(closes)
}

/// Counting positions over a longer prefix never counts fewer.
proof fn lemma_positions_in_prefix_monotone(positions: Seq<AlpacaPosition>, symbol: Seq<char>, n: int)
    requires
        0 <= n <= positions.len(),
    ensures
        positions_in(positions, symbol) >= positions_in(positions.subrange(0, n), symbol),
    decreases positions.len() - n,
{
    if n < positions.len() {
        lemma_positions_in_prefix_monotone(positions, symbol, n + 1);
        assert(positions.subrange(0, n + 1).drop_last() =~= positions.subrange(0, n));
    } else {
        assert(positions.subrange(0, n) =~= positions);
    }
}

/// An order as the engine asks for it to be submitted. Quantities and prices carry the
/// precision they were given as their scale.
#[derive(Clone, Debug, PartialEq, Eq)]
pub struct OrderInit {
    /// Venue symbol.
    pub symbol: String,
    /// Client order identifier.
    pub client_order_id: String,
    /// Engine order side.
    pub order_side: OrderSide,
    /// Engine order type.
    pub order_type: OrderType,
    /// Engine time in force.
    pub time_in_force: TimeInForce,
    /// Quantity, in shares.
    pub quantity: Decimal,
    /// Limit price.
    pub price: Option<Decimal>,
    /// Trigger (stop) price.
    pub trigger_price: Option<Decimal>,
}

/// Why an order cannot be expressed on the venue; it is denied locally rather than sent.
#[derive(Clone, Debug, PartialEq, Eq)]
pub enum SubmitRequestError {
    /// An enum has no venue equivalent.
    Conversion(ConversionError),
    /// The venue trades whole shares only.
    FractionalQuantity,
    /// A price violates Rule 612.
    Price(RegNmsViolation),
    /// A limit or stop-limit order has no limit price.
    LimitPriceRequired(OrderType),
}

/// The text of an optional price: present exactly when the price is, and written at its own
/// precision.
pub open spec fn price_text(text: Option<String>, price: Option<Decimal>) -> bool {
    match (text, price) {
        (Some(t), Some(p)) => t@ == decimal_string(p.mantissa as int, p.scale as nat),
        (None, None) => true,
        _ => false,
    }
}

/// True when the optional price is absent or well-formed.
pub open spec fn opt_wf(p: Option<Decimal>) -> bool {
    p matches Some(d) ==> d.wf()
}

/// True when `res` is the outcome of checking an optional price: a violation names it.
pub open spec fn price_refused(price: Option<Decimal>, res: Result<SubmitOrderRequest, SubmitRequestError>) -> bool {
    match (price, res) {
        (Some(p), Err(SubmitRequestError::Price(v))) => !spec_is_valid_order_price(p)
            && spec_violation_of(p, v),
        _ => false,
    }
}

/// True when an optional text is present and holds `text`.
pub open spec fn holds_text(value: Option<String>, text: Seq<char>) -> bool {
    match value {
        Some(v) => v@ == text,
        None => false,
    }
}

fn price_field(price: Option<Decimal>) -> (res: Result<Option<String>, RegNmsViolation>)
    requires
        opt_wf(price),
    ensures
        res matches Ok(t) ==> price_text(t, price) && (price matches Some(p) ==> spec_is_valid_order_price(p)),
        res matches Err(v) ==> price matches Some(p) && !spec_is_valid_order_price(p) && spec_violation_of(p, v),
{
    match price {
        None => Ok(None),
        Some(p) => match check_order_price(p) {
            Ok(()) => Ok(Some(decimal_to_string(p))),
            Err(v) => Err(v),
        },
    }
}

/// Builds the venue submission body for an order.
///
/// Checked in order: the order type, side and time in force must exist at the venue, the
/// quantity must be whole shares, the limit and then the trigger price must satisfy Rule 612,
/// and a limit or stop-limit order must carry a limit price.
pub fn build_submit_request(init: &OrderInit, extended_hours: bool) -> (res: Result<
    SubmitOrderRequest,
    SubmitRequestError,
>)
    requires
        init.quantity.wf(),
        opt_wf(init.price),
        opt_wf(init.trigger_price),
    ensures
        match (
            spec_order_type_from_nautilus(init.order_type),
            spec_side_from_nautilus(init.order_side),
            spec_tif_from_nautilus(init.time_in_force),
        ) {
            (Err(e), _, _) => res matches Err(SubmitRequestError::Conversion(x)) && x == e,
            (Ok(_), Err(e), _) => res matches Err(SubmitRequestError::Conversion(x)) && x == e,
            (Ok(_), Ok(_), Err(e)) => res matches Err(SubmitRequestError::Conversion(x)) && x == e,
            (Ok(order_type), Ok(side), Ok(tif)) => if init.quantity.scale != 0 {
                res matches Err(SubmitRequestError::FractionalQuantity)
            } else if init.price matches Some(p) && !spec_is_valid_order_price(p) {
                price_refused(init.price, res)
            } else if init.trigger_price matches Some(p) && !spec_is_valid_order_price(p) {
                price_refused(init.trigger_price, res)
            } else if (init.order_type == OrderType::Limit || init.order_type == OrderType::StopLimit)
                && init.price is None {
                res matches Err(SubmitRequestError::LimitPriceRequired(t)) && t == init.order_type
            } else {
                match res {
                    Ok(r) => {
                        &&& r.symbol@ == init.symbol@
                        &&& r.qty@ == decimal_string(
                            init.quantity.mantissa as int,
                            init.quantity.scale as nat,
                        )
                        &&& r.side == side
                        &&& r.order_type == order_type
                        &&& r.time_in_force == tif
                        &&& holds_text(r.client_order_id, init.client_order_id@)
                        &&& price_text(r.limit_price, init.price)
                        &&& price_text(r.stop_price, init.trigger_price)
                        &&& r.extended_hours == extended_hours
                    },
                    Err(_) => false,
                }
            },
        },
{
    let order_type = match AlpacaOrderType::from_nautilus(init.order_type) {
        Ok(t) => t,
        Err(e) => {
            return Err(SubmitRequestError::Conversion(e));
        },
    };
    let side = match AlpacaOrderSide::from_nautilus(init.order_side) {
        Ok(s) => s,
        Err(e) => {
            return Err(SubmitRequestError::Conversion(e));
        },
    };
    let time_in_force = match AlpacaTimeInForce::from_nautilus(init.time_in_force) {
        Ok(t) => t,
        Err(e) => {
            return Err(SubmitRequestError::Conversion(e));
        },
    };
    if init.quantity.scale != 0 {
        return Err(SubmitRequestError::FractionalQuantity);
    }
    let limit_price = match price_field(init.price) {
        Ok(t) => t,
        Err(v) => {
            return Err(SubmitRequestError::Price(v));
        },
    };
    let stop_price = match price_field(init.trigger_price) {
        Ok(t) => t,
        Err(v) => {
            return Err(SubmitRequestError::Price(v));
        },
    };
    let needs_limit = match init.order_type {
        OrderType::Limit | OrderType::StopLimit => true,
        _ => false,
    };
    if needs_limit && limit_price.is_none() {
        return Err(SubmitRequestError::LimitPriceRequired(init.order_type));
    }
    Ok(
        SubmitOrderRequest {
            symbol: init.symbol.clone(),
            qty: decimal_to_string(init.quantity),
            side,
            order_type,
            time_in_force,
            client_order_id: Some(init.client_order_id.clone()),
            limit_price,
            stop_price,
            extended_hours,
        },
    )
}

/// An amendment as the engine asks for it.
#[derive(Clone, Debug, PartialEq, Eq)]
pub struct AmendOrder {
    /// Client order identifier.
    pub client_order_id: String,
    /// Venue order identifier the engine knows, if it has one yet.
    pub venue_order_id: Option<String>,
    /// New quantity, in shares.
    pub quantity: Option<Decimal>,
    /// New limit price.
    pub price: Option<Decimal>,
    /// New trigger (stop) price.
    pub trigger_price: Option<Decimal>,
}

/// Why an amendment cannot be sent.
#[derive(Clone, Debug, PartialEq, Eq)]
pub enum AmendError {
    /// The order has no venue identifier yet.
    NoVenueOrderId,
    /// The venue trades whole shares only.
    FractionalQuantity,
    /// A price violates Rule 612.
    Price(RegNmsViolation),
}

/// Builds the venue replacement body for an amendment, or `None` for an amendment that changes
/// nothing: sending it would still replace the order and issue a new identifier for no gain.
///
/// Checked in order: the order must have a venue identifier, a new quantity must be whole
/// shares, and new limit and trigger prices must satisfy Rule 612.
pub fn build_replace_request(cmd: &AmendOrder) -> (res: Result<Option<ReplaceOrderRequest>, AmendError>)
    requires
        opt_wf(cmd.quantity),
        opt_wf(cmd.price),
        opt_wf(cmd.trigger_price),
    ensures
        if cmd.venue_order_id is None {
            res matches Err(AmendError::NoVenueOrderId)
        } else if cmd.quantity matches Some(q) && q.scale != 0 {
            res matches Err(AmendError::FractionalQuantity)
        } else if cmd.price matches Some(p) && !spec_is_valid_order_price(p) {
            match res {
                Err(AmendError::Price(v)) => spec_violation_of(cmd.price->0, v),
                _ => false,
            }
        } else if cmd.trigger_price matches Some(p) && !spec_is_valid_order_price(p) {
            match res {
                Err(AmendError::Price(v)) => spec_violation_of(cmd.trigger_price->0, v),
                _ => false,
            }
        } else if cmd.quantity is None && cmd.price is None && cmd.trigger_price is None {
            res matches Ok(None)
        } else {
            match res {
                Ok(Some(r)) => {
                    &&& price_text(r.qty, cmd.quantity)
                    &&& price_text(r.limit_price, cmd.price)
                    &&& price_text(r.stop_price, cmd.trigger_price)
                    &&& r.time_in_force is None
                    &&& r.client_order_id is None
                },
                _ => false,
            }
        },
{
    if cmd.venue_order_id.is_none() {
        return Err(AmendError::NoVenueOrderId);
    }
    let mut request = ReplaceOrderRequest::default();
    if let Some(q) = cmd.quantity {
        if q.scale != 0 {
            return Err(AmendError::FractionalQuantity);
        }
        request.qty = Some(decimal_to_string(q));
    }
    match price_field(cmd.price) {
        Ok(t) => {
            request.limit_price = t;
        },
        Err(v) => {
            return Err(AmendError::Price(v));
        },
    }
    match price_field(cmd.trigger_price) {
        Ok(t) => {
            request.stop_price = t;
        },
        Err(v) => {
            return Err(AmendError::Price(v));
        },
    }
    if request.is_empty() {
        return Ok(None);
    }
    Ok(Some(request))
}

/// What publishing one trade update comes to.
#[derive(Clone, Debug, PartialEq, Eq)]
pub enum UpdateOutcome {
    /// A fill report to send.
    Fill(FillReport),
    /// The update carried fill detail but no report could be built from it.
    FillError(ReportError),
    /// The venue refused a request on the order; the order is untouched, so a status report
    /// would say nothing new.
    RequestRefused,
    /// An order status report to send.
    Status(OrderStatusReport),
    /// No status report could be built for the order.
    NoStatus(ReportError),
}

/// The result of handling one trade update.
#[derive(Clone, Debug, PartialEq, Eq)]
pub struct UpdateHandling {
    /// The event is one this adapter does not model; it is named in a warning.
    pub unmodelled: bool,
    /// What to publish.
    pub outcome: UpdateOutcome,
}

/// True when `outcome` is what an update comes to: a fill for a fill-bearing update, nothing
/// for a refused request, and otherwise the order's status.
pub open spec fn spec_update_outcome(
    update: TradeUpdate,
    account_id: Seq<char>,
    ts_init: u64,
    outcome: UpdateOutcome,
) -> bool {
    let kind = event_from_wire(update.event@);
    if spec_has_fill_detail(update) {
        match (spec_fill_report(update, ts_init), outcome) {
            (Ok(f), UpdateOutcome::Fill(r)) => {
                &&& r.order_side == f.0
                &&& r.last_qty == f.1
                &&& r.last_px == f.2
                &&& r.ts_event == f.3
                &&& r.ts_init == ts_init
                &&& r.account_id@ == account_id
                &&& r.instrument_id@ == spec_instrument_id(update.order.symbol@)
                &&& r.venue_order_id@ == update.order.id@
                &&& update.execution_id matches Some(x) && r.trade_id@ == x@
                &&& r.client_order_id matches Some(c) && c@ == update.order.client_order_id@
                &&& r.commission.mantissa == 0
                &&& r.liquidity_side == LiquiditySide::NoLiquiditySide
            },
            (Err(e), UpdateOutcome::FillError(g)) => e == g,
            _ => false,
        }
    } else if kind == AlpacaTradeEvent::OrderReplaceRejected || kind
        == AlpacaTradeEvent::OrderCancelRejected {
        outcome == UpdateOutcome::RequestRefused
    } else {
        match (spec_order_status_report(update.order, ts_init), outcome) {
            (Ok(f), UpdateOutcome::Status(r)) => {
                &&& r.fields == f
                &&& r.account_id@ == account_id
                &&& r.venue_order_id@ == update.order.id@
                &&& r.client_order_id@ == update.order.client_order_id@
                &&& r.instrument_id@ == spec_instrument_id(update.order.symbol@)
            },
            (Err(e), UpdateOutcome::NoStatus(g)) => e == g,
            _ => false,
        }
    }
}

/// Handles one trade update from the venue's event stream.
///
/// A `replaced` event records the new identifier in the chain: the venue may replace an order
/// without the engine asking, and losing that link would leave later cancels addressing a dead
/// identifier. Fills become fill reports and everything else an order status report, so the
/// engine learns about venue-side activity it did not initiate.
pub fn handle_update(
    update: &TradeUpdate,
    chain: &mut ReplacementChain,
    account_id: &str,
    ts_init: u64,
) -> (res: UpdateHandling)
    ensures
        res.unmodelled == (event_from_wire(update.event@) == AlpacaTradeEvent::Unknown),
        match (event_from_wire(update.event@), update.order.replaced_by) {
            (AlpacaTradeEvent::Replaced, Some(r)) => spec_recorded(
                old(chain)@,
                final(chain)@,
                update.order.id@,
                r@,
            ),
            _ => final(chain)@ == old(chain)@,
        },
        spec_update_outcome(*update, account_id@, ts_init, res.outcome),
{
    let kind = update.event_kind();
    let unmodelled = match kind {
        AlpacaTradeEvent::Unknown => true,
        _ => false,
    };
    if let AlpacaTradeEvent::Replaced = kind {
        if let Some(replaced_by) = &update.order.replaced_by {
            chain.record(update.order.id.as_str(), replaced_by.as_str());
        }
    }
    if update.has_fill_detail() {
        let outcome = match parse_fill_report(update, account_id, ts_init) {
            Ok(report) => UpdateOutcome::Fill(report),
            Err(e) => UpdateOutcome::FillError(e),
        };
        return UpdateHandling { unmodelled, outcome };
    }
    if kind.is_request_rejection() {
        return UpdateHandling { unmodelled, outcome: UpdateOutcome::RequestRefused };
    }
    let outcome = match parse_order_status_report(&update.order, account_id, ts_init) {
        Ok(report) => UpdateOutcome::Status(report),
        Err(e) => UpdateOutcome::NoStatus(e),
    };
    UpdateHandling { unmodelled, outcome }
}

/// A refused request never produces a report: the order it concerned is unchanged.
pub proof fn lemma_refused_requests_report_nothing(
    update: TradeUpdate,
    account_id: Seq<char>,
    ts_init: u64,
    outcome: UpdateOutcome,
)
    requires
        event_from_wire(update.event@) == AlpacaTradeEvent::OrderReplaceRejected || event_from_wire(
            update.event@,
        ) == AlpacaTradeEvent::OrderCancelRejected,
        spec_update_outcome(update, account_id, ts_init, outcome),
    ensures
        outcome == UpdateOutcome::RequestRefused,
{
}

/// A replaced order is never reported as a status: its replacement carries on under a new
/// identifier, and reporting the original would tell the engine a working order is dead.
pub proof fn lemma_replaced_orders_are_not_reported(
    update: TradeUpdate,
    account_id: Seq<char>,
    ts_init: u64,
    outcome: UpdateOutcome,
)
    requires
        update.order.status == crate::common::order_enums::AlpacaOrderStatus::Replaced,
        !spec_has_fill_detail(update),
        spec_update_outcome(update, account_id, ts_init, outcome),
    ensures
        !(outcome is Status),
{
}

/// The account checks applied before an order is sent.
#[derive(Clone, Debug, PartialEq, Eq)]
pub struct SubmitChecks {
    /// The account number the credentials must belong to, when configured.
    pub expected_account_number: Option<String>,
    /// Maximum loss from the previous close, in USD, when configured.
    pub max_daily_loss_usd: Option<Decimal>,
    /// Maximum loss from the previous close, in percent, when configured.
    pub max_daily_loss_pct: Option<Decimal>,
    /// Whether an order is refused while another working order exists for its symbol.
    pub reject_conflicting_open_orders: bool,
}

/// Why a submission is denied before it reaches the venue.
#[derive(Clone, Debug, PartialEq, Eq)]
pub enum DenyReason {
    /// The account could not be read.
    AccountQueryFailed,
    /// The account is not fit for trading.
    AccountCheck(AccountError),
    /// The daily-loss check could not be evaluated.
    DailyLossCheck(DailyLossError),
    /// The daily loss crossed a limit and the order does not exactly close the position.
    DailyLoss(DailyLossBreach),
    /// The positions could not be read for the exact-close check.
    PositionsQueryFailed,
    /// The exact-close check could not be evaluated.
    CloseCheck(CloseCheckError),
    /// The open orders could not be read for the conflict check.
    ConflictQueryFailed,
    /// Other working orders exist for the symbol; their client order identifiers.
    Conflicts(Vec<String>),
}

/// Where a submission stands.
#[derive(Copy, Clone, Debug, PartialEq, Eq, Structural)]
pub enum SubmitStage {
    /// Waiting for the account.
    AwaitAccount,
    /// The daily loss crossed a limit; waiting for the positions to see whether the order
    /// exactly closes one.
    AwaitPositions(DailyLossBreach),
    /// Waiting for the symbol's open orders.
    AwaitOpenOrders,
    /// Sent; waiting for the venue's answer.
    AwaitVenue,
    /// The venue's answer was lost or refused; waiting for the lookup by client order
    /// identifier. `definitive` when the failure was a definitive rejection.
    AwaitRecovery(bool),
    /// Nothing more to do.
    Done,
}

/// What the outside world reports back to a submission.
#[derive(Clone, Debug, PartialEq, Eq)]
pub enum SubmitEvent {
    /// The account was read.
    AccountFetched(Account),
    /// The account could not be read.
    AccountQueryFailed,
    /// The positions were read.
    PositionsFetched(Vec<AlpacaPosition>),
    /// The positions could not be read.
    PositionsQueryFailed,
    /// The symbol's open orders were read.
    OpenOrdersFetched(Vec<AlpacaOrder>),
    /// The open orders could not be read.
    OpenOrdersQueryFailed,
    /// The venue accepted the order under this identifier.
    VenueAccepted(String),
    /// The submission failed; `true` when the venue definitively rejected it.
    VenueFailed(bool),
    /// The lookup by client order identifier found this order.
    RecoveryFound(AlpacaOrder),
    /// The lookup by client order identifier failed.
    RecoveryFailed,
}

/// What a submission asks to be done next.
#[derive(Clone, Debug, PartialEq, Eq)]
pub enum SubmitAction {
    /// Read the positions.
    FetchPositions,
    /// Read the open orders of the symbol.
    FetchOpenOrders,
    /// Mark the order submitted and send it, once.
    Submit,
    /// Look the order up by its client order identifier: a failed send may still have created
    /// it, and replaying the send is not safe.
    RecoverByClientOrderId,
    /// Deny the order locally.
    Deny(DenyReason),
    /// The venue holds the order under this identifier.
    Accept(String),
    /// The venue definitively rejected the order and no order exists under its identifier.
    Reject,
    /// The outcome is ambiguous; leave the order submitted for reconciliation to discover,
    /// since rejecting it could let the strategy place a duplicate.
    LeaveUnresolved,
    /// The event does not belong to the current stage.
    Ignore,
}

/// The stage and action after the account and daily-loss checks have passed without a breach,
/// or after a breached order was found to close its position exactly.
pub open spec fn after_loss_checks(checks: SubmitChecks) -> (SubmitStage, SubmitAction) {
    if checks.reject_conflicting_open_orders {
        (SubmitStage::AwaitOpenOrders, SubmitAction::FetchOpenOrders)
    } else {
        (SubmitStage::AwaitVenue, SubmitAction::Submit)
    }
}

/// True when the denial lists exactly the conflicting orders.
pub open spec fn lists_conflicts(action: SubmitAction, conflicts: Seq<Seq<char>>) -> bool {
    match action {
        SubmitAction::Deny(DenyReason::Conflicts(ids)) => ids@.map_values(|s: String| s@) == conflicts,
        _ => false,
    }
}

/// One step of a submission: from a stage and an event to the next stage and action.
pub open spec fn spec_submit_transition(
    stage: SubmitStage,
    request: SubmitOrderRequest,
    checks: SubmitChecks,
    client_order_id: Seq<char>,
    event: SubmitEvent,
    next: SubmitStage,
    action: SubmitAction,
) -> bool {
    match (stage, event) {
        (SubmitStage::AwaitAccount, SubmitEvent::AccountQueryFailed) => next == SubmitStage::Done
            && action == SubmitAction::Deny(DenyReason::AccountQueryFailed),
        (SubmitStage::AwaitAccount, SubmitEvent::AccountFetched(a)) => match spec_validate_for_trading(
            a,
            opt_string_view(checks.expected_account_number),
        ) {
            Err(e) => next == SubmitStage::Done && action == SubmitAction::Deny(
                DenyReason::AccountCheck(e),
            ),
            Ok(()) => match spec_daily_loss_breach(
                a,
                checks.max_daily_loss_usd,
                checks.max_daily_loss_pct,
            ) {
                Err(e) => next == SubmitStage::Done && action == SubmitAction::Deny(
                    DenyReason::DailyLossCheck(e),
                ),
                Ok(Some(b)) => next == SubmitStage::AwaitPositions(b) && action
                    == SubmitAction::FetchPositions,
                Ok(None) => (next, action) == after_loss_checks(checks),
            },
        },
        (SubmitStage::AwaitPositions(_), SubmitEvent::PositionsQueryFailed) => next
            == SubmitStage::Done && action == SubmitAction::Deny(DenyReason::PositionsQueryFailed),
        (SubmitStage::AwaitPositions(b), SubmitEvent::PositionsFetched(ps)) => match spec_exactly_closes_position(
            request,
            ps@,
        ) {
            Ok(true) => (next, action) == after_loss_checks(checks),
            Ok(false) => next == SubmitStage::Done && action == SubmitAction::Deny(
                DenyReason::DailyLoss(b),
            ),
            Err(e) => next == SubmitStage::Done && action == SubmitAction::Deny(
                DenyReason::CloseCheck(e),
            ),
        },
        (SubmitStage::AwaitOpenOrders, SubmitEvent::OpenOrdersQueryFailed) => next
            == SubmitStage::Done && action == SubmitAction::Deny(DenyReason::ConflictQueryFailed),
        (SubmitStage::AwaitOpenOrders, SubmitEvent::OpenOrdersFetched(os)) => if spec_conflicts(
            client_order_id,
            os@,
        ).len() == 0 {
            next == SubmitStage::AwaitVenue && action == SubmitAction::Submit
        } else {
            next == SubmitStage::Done && lists_conflicts(action, spec_conflicts(client_order_id, os@))
        },
        (SubmitStage::AwaitVenue, SubmitEvent::VenueAccepted(id)) => next == SubmitStage::Done
            && action == SubmitAction::Accept(id),
        (SubmitStage::AwaitVenue, SubmitEvent::VenueFailed(definitive)) => next
            == SubmitStage::AwaitRecovery(definitive) && action
            == SubmitAction::RecoverByClientOrderId,
        (SubmitStage::AwaitRecovery(_), SubmitEvent::RecoveryFound(o)) => next == SubmitStage::Done
            && if o.client_order_id@ == client_order_id {
            action == SubmitAction::Accept(o.id)
        } else {
            action == SubmitAction::LeaveUnresolved
        },
        (SubmitStage::AwaitRecovery(definitive), SubmitEvent::RecoveryFailed) => next
            == SubmitStage::Done && action == if definitive {
            SubmitAction::Reject
        } else {
            SubmitAction::LeaveUnresolved
        },
        (stage, _) => next == stage && action == SubmitAction::Ignore,
    }
}

/// The pre-trade checks and the send of one order, as a state machine: the caller performs
/// each action and reports the outcome as the next event.
#[derive(Clone, Debug)]
pub struct SubmitFlow {
    /// The venue submission body.
    pub request: SubmitOrderRequest,
    /// The checks to apply.
    pub checks: SubmitChecks,
    /// The order's client order identifier.
    pub client_order_id: String,
    /// Where the submission stands.
    pub stage: SubmitStage,
}

impl SubmitFlow {
    /// Starts a submission; the first thing it needs is the account.
    pub fn new(request: SubmitOrderRequest, checks: SubmitChecks, client_order_id: String) -> (res:
        Self)
        ensures
            res.request == request,
            res.checks == checks,
            res.client_order_id == client_order_id,
            res.stage == SubmitStage::AwaitAccount,
    {
        SubmitFlow { request, checks, client_order_id, stage: SubmitStage::AwaitAccount }
    }

    fn continue_after_loss_checks(&mut self) -> (res: SubmitAction)
        ensures
            (final(self).stage, res) == after_loss_checks(old(self).checks),
            final(self).request == old(self).request,
            final(self).checks == old(self).checks,
            final(self).client_order_id == old(self).client_order_id,
    {
        if self.checks.reject_conflicting_open_orders {
            self.stage = SubmitStage::AwaitOpenOrders;
            SubmitAction::FetchOpenOrders
        } else {
            self.stage = SubmitStage::AwaitVenue;
            SubmitAction::Submit
        }
    }

    fn finish(&mut self, action: SubmitAction) -> (res: SubmitAction)
        ensures
            res == action,
            final(self).stage == SubmitStage::Done,
            final(self).request == old(self).request,
            final(self).checks == old(self).checks,
            final(self).client_order_id == old(self).client_order_id,
    {
        self.stage = SubmitStage::Done;
        action
    }

    /// Takes the outcome of the last action and returns the next one.
    pub fn on_event(&mut self, event: SubmitEvent) -> (res: SubmitAction)
        requires
            opt_decimal_wf(old(self).checks.max_daily_loss_usd),
            opt_decimal_wf(old(self).checks.max_daily_loss_pct),
        ensures
            final(self).request == old(self).request,
            final(self).checks == old(self).checks,
            final(self).client_order_id == old(self).client_order_id,
            spec_submit_transition(
                old(self).stage,
                old(self).request,
                old(self).checks,
                old(self).client_order_id@,
                event,
                final(self).stage,
                res,
            ),
    {
        let stage = self.stage;
        match (stage, event) {
            (SubmitStage::AwaitAccount, SubmitEvent::AccountQueryFailed) => {
                self.finish(SubmitAction::Deny(DenyReason::AccountQueryFailed))
            },
            (SubmitStage::AwaitAccount, SubmitEvent::AccountFetched(a)) => {
                let expected = match &self.checks.expected_account_number {
                    Some(e) => Some(e.as_str()),
                    None => None,
                };
                proof {
                    assert(opt_ref_view(expected) == opt_string_view(self.checks.expected_account_number));
                }
                match a.validate_for_trading(expected) {
                    Err(e) => self.finish(SubmitAction::Deny(DenyReason::AccountCheck(e))),
                    Ok(()) => match a.daily_loss_breach(
                        self.checks.max_daily_loss_usd,
                        self.checks.max_daily_loss_pct,
                    ) {
                        Err(e) => self.finish(SubmitAction::Deny(DenyReason::DailyLossCheck(e))),
                        Ok(Some(b)) => {
                            self.stage = SubmitStage::AwaitPositions(b);
                            SubmitAction::FetchPositions
                        },
                        Ok(None) => self.continue_after_loss_checks(),
                    },
                }
            },
            (SubmitStage::AwaitPositions(_), SubmitEvent::PositionsQueryFailed) => {
                self.finish(SubmitAction::Deny(DenyReason::PositionsQueryFailed))
            },
            (SubmitStage::AwaitPositions(b), SubmitEvent::PositionsFetched(ps)) => {
                match exactly_closes_position(&self.request, &ps) {
                    Ok(true) => self.continue_after_loss_checks(),
                    Ok(false) => self.finish(SubmitAction::Deny(DenyReason::DailyLoss(b))),
                    Err(e) => self.finish(SubmitAction::Deny(DenyReason::CloseCheck(e))),
                }
            },
            (SubmitStage::AwaitOpenOrders, SubmitEvent::OpenOrdersQueryFailed) => {
                self.finish(SubmitAction::Deny(DenyReason::ConflictQueryFailed))
            },
            (SubmitStage::AwaitOpenOrders, SubmitEvent::OpenOrdersFetched(os)) => {
                let conflicts = conflicting_working_client_order_ids(
                    self.client_order_id.as_str(),
                    &os,
                );
                if conflicts.len() == 0 {
                    self.stage = SubmitStage::AwaitVenue;
                    SubmitAction::Submit
                } else {
                    self.finish(SubmitAction::Deny(DenyReason::Conflicts(conflicts)))
                }
            },
            (SubmitStage::AwaitVenue, SubmitEvent::VenueAccepted(id)) => {
                self.finish(SubmitAction::Accept(id))
            },
            (SubmitStage::AwaitVenue, SubmitEvent::VenueFailed(definitive)) => {
                self.stage = SubmitStage::AwaitRecovery(definitive);
                SubmitAction::RecoverByClientOrderId
            },
            (SubmitStage::AwaitRecovery(_), SubmitEvent::RecoveryFound(o)) => {
                if str_equals(o.client_order_id.as_str(), self.client_order_id.as_str()) {
                    self.finish(SubmitAction::Accept(o.id))
                } else {
                    self.finish(SubmitAction::LeaveUnresolved)
                }
            },
            (SubmitStage::AwaitRecovery(definitive), SubmitEvent::RecoveryFailed) => {
                if definitive {
                    self.finish(SubmitAction::Reject)
                } else {
                    self.finish(SubmitAction::LeaveUnresolved)
                }
            },
            (_, _) => SubmitAction::Ignore,
        }
    }
}

/// An order is sent only once every enabled check has passed: a send follows a clean account
/// check with no daily-loss breach (or an exact close of the breached position) and, when the
/// conflict check is on, only the absence of conflicting working orders.
pub proof fn lemma_send_only_after_checks(
    stage: SubmitStage,
    request: SubmitOrderRequest,
    checks: SubmitChecks,
    client_order_id: Seq<char>,
    event: SubmitEvent,
    next: SubmitStage,
    action: SubmitAction,
)
    requires
        spec_submit_transition(stage, request, checks, client_order_id, event, next, action),
        action == SubmitAction::Submit,
    ensures
        next == SubmitStage::AwaitVenue,
        stage == SubmitStage::AwaitOpenOrders ==> match event {
            SubmitEvent::OpenOrdersFetched(os) => spec_conflicts(client_order_id, os@).len() == 0,
            _ => false,
        },
        stage == SubmitStage::AwaitAccount ==> !checks.reject_conflicting_open_orders && match event {
            SubmitEvent::AccountFetched(a) => spec_validate_for_trading(
                a,
                opt_string_view(checks.expected_account_number),
            ) is Ok && spec_daily_loss_breach(
                a,
                checks.max_daily_loss_usd,
                checks.max_daily_loss_pct,
            ) == Ok::<Option<DailyLossBreach>, DailyLossError>(None),
            _ => false,
        },
        stage is AwaitPositions ==> !checks.reject_conflicting_open_orders && match event {
            SubmitEvent::PositionsFetched(ps) => spec_exactly_closes_position(request, ps@) == Ok::<
                bool,
                CloseCheckError,
            >(true),
            _ => false,
        },
        !(stage is AwaitVenue || stage is AwaitRecovery || stage is Done),
{
}

/// A send is never replayed: once an order has been sent, whatever happens, no later step
/// sends it again; a lost answer is resolved by looking the order up instead.
pub proof fn lemma_send_is_never_replayed(
    stage: SubmitStage,
    request: SubmitOrderRequest,
    checks: SubmitChecks,
    client_order_id: Seq<char>,
    event: SubmitEvent,
    next: SubmitStage,
    action: SubmitAction,
)
    requires
        spec_submit_transition(stage, request, checks, client_order_id, event, next, action),
        stage is AwaitVenue || stage is AwaitRecovery || stage is Done,
    ensures
        action != SubmitAction::Submit,
        next is AwaitVenue ==> stage is AwaitVenue,
{
}

/// A submission is rejected only when the venue definitively refused it and no order exists
/// under its client order identifier; an ambiguous failure is never turned into a rejection.
pub proof fn lemma_reject_needs_a_definitive_refusal(
    stage: SubmitStage,
    request: SubmitOrderRequest,
    checks: SubmitChecks,
    client_order_id: Seq<char>,
    event: SubmitEvent,
    next: SubmitStage,
    action: SubmitAction,
)
    requires
        spec_submit_transition(stage, request, checks, client_order_id, event, next, action),
        action == SubmitAction::Reject,
    ensures
        stage == SubmitStage::AwaitRecovery(true),
        event == SubmitEvent::RecoveryFailed,
{
}

/// Where the trading stream task stands.
#[derive(Copy, Clone, Debug, PartialEq, Eq, Structural)]
pub enum StreamStage {
    /// Reading updates.
    Live,
    /// The stream closed; reconnecting after a backoff delay.
    Reconnecting,
    /// Reconciling the gap since the last point known complete: after a reconnect (`true`), whose
    /// new stream is adopted only once the gap is recovered, or after an update that could not
    /// be decoded (`false`).
    Recovering(bool),
    /// Cancelled.
    Stopped,
}

/// What the stream task reports back.
#[derive(Copy, Clone, Debug, PartialEq, Eq, Structural)]
pub enum StreamEvent {
    /// An update was read and published; the instant after publishing it (UNIX nanoseconds).
    UpdateHandled(u64),
    /// A frame claimed to be a trade update but could not be decoded, at this instant: an order
    /// event was lost.
    Malformed(u64),
    /// The stream closed.
    Closed,
    /// A reconnection attempt failed.
    ReconnectFailed,
    /// A new stream connected at this instant.
    Reconnected(u64),
    /// The gap was recovered: its orders and fills were reported.
    RecoverySucceeded,
    /// The gap could not be recovered.
    RecoveryFailed,
    /// The task was cancelled.
    Cancelled,
}

/// What the stream task is asked to do next.
#[derive(Copy, Clone, Debug, PartialEq, Eq, Structural)]
pub enum StreamAction {
    /// Keep reading the current stream.
    Continue,
    /// Report the orders and fills of the window `[start, end]` (UNIX nanoseconds).
    Recover(u64, u64),
    /// Wait for the next backoff delay, then connect a new stream.
    WaitAndReconnect,
    /// Replace the stream with the new one and reset the backoff.
    AdoptStream,
    /// End the task.
    Stop,
    /// The event does not belong to the current stage.
    Ignore,
}

/// The trading stream's supervision: reading, reconnecting with backoff, and reconciling every
/// gap in the event stream from the venue's order and fill history.
#[derive(Copy, Clone, Debug, PartialEq, Eq, Structural)]
pub struct StreamSupervisor {
    /// Where the task stands.
    pub stage: StreamStage,
    /// The last instant up to which the engine is known to have every event.
    pub recovery_start: u64,
    /// The end of the window being recovered.
    pub recovery_end: u64,
}

/// One step of the stream supervision.
pub open spec fn spec_stream_transition(
    before: StreamSupervisor,
    event: StreamEvent,
    after: StreamSupervisor,
    action: StreamAction,
) -> bool {
    match (before.stage, event) {
        (StreamStage::Stopped, _) => after == before && action == StreamAction::Ignore,
        (_, StreamEvent::Cancelled) => after == (StreamSupervisor {
            stage: StreamStage::Stopped,
            ..before
        }) && action == StreamAction::Stop,
        (StreamStage::Live, StreamEvent::UpdateHandled(now)) => after == (StreamSupervisor {
            recovery_start: now,
            ..before
        }) && action == StreamAction::Continue,
        (StreamStage::Live, StreamEvent::Malformed(now)) => after == (StreamSupervisor {
            stage: StreamStage::Recovering(false),
            recovery_end: now,
            ..before
        }) && action == StreamAction::Recover(before.recovery_start, now),
        (StreamStage::Live, StreamEvent::Closed) => after == (StreamSupervisor {
            stage: StreamStage::Reconnecting,
            ..before
        }) && action == StreamAction::WaitAndReconnect,
        (StreamStage::Reconnecting, StreamEvent::ReconnectFailed) => after == before && action
            == StreamAction::WaitAndReconnect,
        (StreamStage::Reconnecting, StreamEvent::Reconnected(now)) => after == (StreamSupervisor {
            stage: StreamStage::Recovering(true),
            recovery_end: now,
            ..before
        }) && action == StreamAction::Recover(before.recovery_start, now),
        (StreamStage::Recovering(reconnect), StreamEvent::RecoverySucceeded) => after == (
        StreamSupervisor {
            stage: StreamStage::Live,
            recovery_start: before.recovery_end,
            ..before
        }) && action == if reconnect {
            StreamAction::AdoptStream
        } else {
            StreamAction::Continue
        },
        (StreamStage::Recovering(reconnect), StreamEvent::RecoveryFailed) => if reconnect {
            after == (StreamSupervisor { stage: StreamStage::Reconnecting, ..before }) && action
                == StreamAction::WaitAndReconnect
        } else {
            after == (StreamSupervisor { stage: StreamStage::Live, ..before }) && action
                == StreamAction::Continue
        },
        _ => after == before && action == StreamAction::Ignore,
    }
}

impl StreamSupervisor {
    /// Starts supervising a freshly opened stream at `now`.
    pub fn new(now: u64) -> (res: Self)
        ensures
            res.stage == StreamStage::Live,
            res.recovery_start == now,
            res.recovery_end == now,
    {
        StreamSupervisor { stage: StreamStage::Live, recovery_start: now, recovery_end: now }
    }

    /// Takes what happened and returns what to do next.
    pub fn on_event(&mut self, event: StreamEvent) -> (res: StreamAction)
        ensures
            spec_stream_transition(*old(self), event, *final(self), res),
    {
        match (self.stage, event) {
            (StreamStage::Stopped, _) => StreamAction::Ignore,
            (_, StreamEvent::Cancelled) => {
                self.stage = StreamStage::Stopped;
                StreamAction::Stop
            },
            (StreamStage::Live, StreamEvent::UpdateHandled(now)) => {
                self.recovery_start = now;
                StreamAction::Continue
            },
            (StreamStage::Live, StreamEvent::Malformed(now)) => {
                self.stage = StreamStage::Recovering(false);
                self.recovery_end = now;
                StreamAction::Recover(self.recovery_start, now)
            },
            (StreamStage::Live, StreamEvent::Closed) => {
                self.stage = StreamStage::Reconnecting;
                StreamAction::WaitAndReconnect
            },
            (StreamStage::Reconnecting, StreamEvent::ReconnectFailed) => {
                StreamAction::WaitAndReconnect
            },
            (StreamStage::Reconnecting, StreamEvent::Reconnected(now)) => {
                self.stage = StreamStage::Recovering(true);
                self.recovery_end = now;
                StreamAction::Recover(self.recovery_start, now)
            },
            (StreamStage::Recovering(reconnect), StreamEvent::RecoverySucceeded) => {
                self.stage = StreamStage::Live;
                self.recovery_start = self.recovery_end;
                if reconnect {
                    StreamAction::AdoptStream
                } else {
                    StreamAction::Continue
                }
            },
            (StreamStage::Recovering(reconnect), StreamEvent::RecoveryFailed) => {
                if reconnect {
                    self.stage = StreamStage::Reconnecting;
                    StreamAction::WaitAndReconnect
                } else {
                    self.stage = StreamStage::Live;
                    StreamAction::Continue
                }
            },
            (_, _) => StreamAction::Ignore,
        }
    }
}

/// No gap is ever dropped: the point up to which events are known complete moves only when an
/// update was published (to that instant) or a recovery succeeded (to the end of the window it
/// covered). A failed recovery leaves it in place, so the next window starts where this one
/// did; and every recovery window starts there.
pub proof fn lemma_no_gap_is_dropped(
    before: StreamSupervisor,
    event: StreamEvent,
    after: StreamSupervisor,
    action: StreamAction,
)
    requires
        spec_stream_transition(before, event, after, action),
    ensures
        after.recovery_start != before.recovery_start ==> (before.stage == StreamStage::Live
            && (match event {
            StreamEvent::UpdateHandled(now) => after.recovery_start == now,
            _ => false,
        })) || (before.stage is Recovering && event == StreamEvent::RecoverySucceeded
            && after.recovery_start == before.recovery_end),
        action matches StreamAction::Recover(start, _) ==> start == before.recovery_start,
        event == StreamEvent::RecoveryFailed ==> after.recovery_start == before.recovery_start,
{
}

/// A reconnected stream is adopted only once the gap it left has been recovered.
pub proof fn lemma_adopt_only_after_recovery(
    before: StreamSupervisor,
    event: StreamEvent,
    after: StreamSupervisor,
    action: StreamAction,
)
    requires
        spec_stream_transition(before, event, after, action),
        action == StreamAction::AdoptStream,
    ensures
        before.stage == StreamStage::Recovering(true),
        event == StreamEvent::RecoverySucceeded,
        after.stage == StreamStage::Live,
{
}

/// Cancellation stops the task from any stage, and a stopped task does nothing more.
pub proof fn lemma_cancel_stops(
    before: StreamSupervisor,
    event: StreamEvent,
    after: StreamSupervisor,
    action: StreamAction,
)
    requires
        spec_stream_transition(before, event, after, action),
    ensures
        event == StreamEvent::Cancelled ==> after.stage == StreamStage::Stopped,
        before.stage == StreamStage::Stopped ==> after == before && action == StreamAction::Ignore,
{
}

/// The reports a list of venue orders becomes, in order: orders that cannot be represented,
/// replaced ones among them, are skipped.
pub open spec fn spec_order_reports(orders: Seq<AlpacaOrder>, ts_init: u64) -> Seq<
    (Seq<char>, Seq<char>, Seq<char>, OrderReportFields),
>
    decreases orders.len(),
{
    if orders.len() == 0 {
        seq![]
    } else {
        let rest = spec_order_reports(orders.drop_last(), ts_init);
        let o = orders.last();
        match spec_order_status_report(o, ts_init) {
            Ok(f) => rest.push((spec_instrument_id(o.symbol@), o.client_order_id@, o.id@, f)),
            Err(_) => rest,
        }
    }
}

/// What an order report states besides its account: instrument, client and venue order
/// identifiers, and the rest.
pub open spec fn order_report_content(r: OrderStatusReport) -> (
    Seq<char>,
    Seq<char>,
    Seq<char>,
    OrderReportFields,
) {
    (r.instrument_id@, r.client_order_id@, r.venue_order_id@, r.fields)
}

/// Converts venue orders into reports, skipping any that cannot be represented.
///
/// Orders superseded by a replacement are dropped rather than reported: they are not cancelled,
/// and the replacement carries the live state.
pub fn reports_from_orders(orders: &Vec<AlpacaOrder>, account_id: &str, ts_init: u64) -> (res: Vec<
    OrderStatusReport,
>)
    ensures
        res@.map_values(|r: OrderStatusReport| order_report_content(r)) == spec_order_reports(
            orders@,
            ts_init,
        ),
        forall|i: int| 0 <= i < res@.len() ==> (#[trigger] res@[i]).account_id@ == account_id@,
{
    let mut out: Vec<OrderStatusReport> = Vec::new();
    let mut i: usize = 0;
    while i < orders.len()
        invariant
            i <= orders@.len(),
            out@.map_values(|r: OrderStatusReport| order_report_content(r)) == spec_order_reports(
                orders@.subrange(0, i as int),
                ts_init,
            ),
            forall|k: int| 0 <= k < out@.len() ==> (#[trigger] out@[k]).account_id@ == account_id@,
        decreases orders@.len() - i,
    {
        proof {
            assert(orders@.subrange(0, i + 1).drop_last() =~= orders@.subrange(0, i as int));
        }
        if !orders[i].status.is_superseded() {
            if let Ok(report) = parse_order_status_report(&orders[i], account_id, ts_init) {
                out.push(report);
            }
        }
        i = i + 1;
    }
    assert(orders@.subrange(0, orders@.len() as int) =~= orders@);
    out
}

/// True when an activity passes the optional symbol and order filters.
pub open spec fn activity_selected(
    activity: AlpacaFillActivity,
    symbol: Option<Seq<char>>,
    venue_order_id: Option<Seq<char>>,
) -> bool {
    &&& (symbol matches Some(s) ==> activity.symbol@ == s)
    &&& (venue_order_id matches Some(v) ==> activity.order_id@ == v)
}

/// The fill reports a list of activities becomes, in order: those passing the filters whose
/// report can be built, each as side, quantity, price and time.
pub open spec fn spec_activity_reports(
    activities: Seq<AlpacaFillActivity>,
    symbol: Option<Seq<char>>,
    venue_order_id: Option<Seq<char>>,
) -> Seq<(Seq<char>, Seq<char>, Seq<char>, (OrderSide, Decimal, Decimal, u64))>
    decreases activities.len(),
{
    if activities.len() == 0 {
        seq![]
    } else {
        let rest = spec_activity_reports(activities.drop_last(), symbol, venue_order_id);
        let a = activities.last();
        if activity_selected(a, symbol, venue_order_id) {
            match spec_fill_activity_report(a) {
                Ok(f) => rest.push(
                    (spec_instrument_id(a.symbol@), a.order_id@, spec_execution_id(a.id@)->0, f),
                ),
                Err(_) => rest,
            }
        } else {
            rest
        }
    }
}

/// What a fill report states besides its account and times of report: instrument, venue order
/// and trade identifiers, then side, quantity, price and execution time.
pub open spec fn fill_content(r: FillReport) -> (
    Seq<char>,
    Seq<char>,
    Seq<char>,
    (OrderSide, Decimal, Decimal, u64),
) {
    (r.instrument_id@, r.venue_order_id@, r.trade_id@, (r.order_side, r.last_qty, r.last_px, r.ts_event))
}

/// Converts fill activities into fill reports, keeping those of the requested symbol and order
/// (the endpoint filters by neither) and skipping any that cannot be represented.
pub fn fill_reports_from_activities(
    activities: &Vec<AlpacaFillActivity>,
    symbol: Option<&str>,
    venue_order_id: Option<&str>,
    account_id: &str,
    ts_init: u64,
) -> (res: Vec<FillReport>)
    ensures
        res@.map_values(|r: FillReport| fill_content(r)) == spec_activity_reports(
            activities@,
            opt_ref_view(symbol),
            opt_ref_view(venue_order_id),
        ),
        forall|i: int|
            0 <= i < res@.len() ==> (#[trigger] res@[i]).ts_init == ts_init && res@[i].account_id@
                == account_id@,
{
    let mut out: Vec<FillReport> = Vec::new();
    let mut i: usize = 0;
    while i < activities.len()
        invariant
            i <= activities@.len(),
            out@.map_values(|r: FillReport| fill_content(r)) == spec_activity_reports(
                activities@.subrange(0, i as int),
                opt_ref_view(symbol),
                opt_ref_view(venue_order_id),
            ),
            forall|k: int|
                0 <= k < out@.len() ==> (#[trigger] out@[k]).ts_init == ts_init && out@[k].account_id@
                    == account_id@,
        decreases activities@.len() - i,
    {
        proof {
            assert(activities@.subrange(0, i + 1).drop_last() =~= activities@.subrange(0, i as int));
        }
        let a = &activities[i];
        let symbol_ok = match symbol {
            Some(s) => str_equals(a.symbol.as_str(), s),
            None => true,
        };
        let order_ok = match venue_order_id {
            Some(v) => str_equals(a.order_id.as_str(), v),
            None => true,
        };
        if symbol_ok && order_ok {
            if let Ok(report) = parse_fill_activity_report(a, account_id, ts_init) {
                out.push(report);
            }
        }
        i = i + 1;
    }
    assert(activities@.subrange(0, activities@.len() as int) =~= activities@);
    out
}

/// The sizes of the positions whose report can be built, in order.
pub open spec fn spec_position_reports(positions: Seq<AlpacaPosition>) -> Seq<
    (Seq<char>, PositionSideSpecified, Decimal, Option<Decimal>),
>
    decreases positions.len(),
{
    if positions.len() == 0 {
        seq![]
    } else {
        let rest = spec_position_reports(positions.drop_last());
        let p = positions.last();
        match spec_quantity_text(p.qty@) {
            Some(q) => rest.push(
                (spec_instrument_id(p.symbol@), spec_position_side(p, q), q, spec_decimal_text(
                    p.avg_entry_price@,
                )),
            ),
            None => rest,
        }
    }
}

/// What a position report states besides its account and time: instrument, side, size and
/// average entry price.
pub open spec fn position_content(r: PositionStatusReport) -> (
    Seq<char>,
    PositionSideSpecified,
    Decimal,
    Option<Decimal>,
) {
    (r.instrument_id@, r.position_side, r.quantity, r.avg_px_open)
}

/// Converts venue positions into position reports, skipping any whose size cannot be read.
pub fn position_reports(positions: &Vec<AlpacaPosition>, account_id: &str, ts_init: u64) -> (res:
    Vec<PositionStatusReport>)
    ensures
        res@.map_values(|r: PositionStatusReport| position_content(r)) == spec_position_reports(
            positions@,
        ),
        forall|i: int|
            0 <= i < res@.len() ==> (#[trigger] res@[i]).account_id@ == account_id@ && res@[i].ts_init
                == ts_init,
{
    let mut out: Vec<PositionStatusReport> = Vec::new();
    let mut i: usize = 0;
    while i < positions.len()
        invariant
            i <= positions@.len(),
            out@.map_values(|r: PositionStatusReport| position_content(r)) == spec_position_reports(
                positions@.subrange(0, i as int),
            ),
            forall|k: int|
                0 <= k < out@.len() ==> (#[trigger] out@[k]).account_id@ == account_id@
                    && out@[k].ts_init == ts_init,
        decreases positions@.len() - i,
    {
        proof {
            assert(positions@.subrange(0, i + 1).drop_last() =~= positions@.subrange(0, i as int));
        }
        if let Ok(report) = parse_position_status_report(&positions[i], account_id, ts_init) {
            out.push(report);
        }
        i = i + 1;
    }
    assert(positions@.subrange(0, positions@.len() as int) =~= positions@);
    out
}

/// How an order is looked up at the venue.
#[derive(Clone, Debug, PartialEq, Eq)]
pub enum OrderLookup {
    /// By the venue identifier it currently trades under.
    ByVenueOrderId(String),
    /// By its client order identifier.
    ByClientOrderId(String),
}

/// Chooses how to look an order up: by the identifier its venue identifier resolves to through
/// the replacement chain, else by its client order identifier, else not at all.
pub fn order_lookup(
    chain: &ReplacementChain,
    venue_order_id: Option<&str>,
    client_order_id: Option<&str>,
) -> (res: Option<OrderLookup>)
    ensures
        match (venue_order_id, client_order_id) {
            (Some(v), _) => res matches Some(OrderLookup::ByVenueOrderId(live)) && live@
                == spec_resolve(chain@, v@),
            (None, Some(c)) => res matches Some(OrderLookup::ByClientOrderId(id)) && id@ == c@,
            (None, None) => res is None,
        },
{
    match venue_order_id {
        Some(v) => Some(OrderLookup::ByVenueOrderId(chain.resolve(v))),
        None => match client_order_id {
            Some(c) => Some(OrderLookup::ByClientOrderId(String::from_str(c))),
            None => None,
        },
    }
}

/// Checks the configured daily-loss limits when the execution client is created: each one
/// configured must be positive, the USD limit checked first.
pub fn validate_loss_limits(max_loss_usd: Option<Decimal>, max_loss_pct: Option<Decimal>) -> (res:
    Result<(), LossLimit>)
    ensures
        match (max_loss_usd, max_loss_pct) {
            (Some(u), _) if u.mantissa <= 0 => res == Err::<(), LossLimit>(LossLimit::Usd),
            (_, Some(p)) if p.mantissa <= 0 => res == Err::<(), LossLimit>(LossLimit::Percent),
            _ => res is Ok,
        },
{
    if let Some(u) = max_loss_usd {
        if !u.is_positive() {
            return Err(LossLimit::Usd);
        }
    }
    if let Some(p) = max_loss_pct {
        if !p.is_positive() {
            return Err(LossLimit::Percent);
        }
    }
    Ok(())
}

/// The account's total equity and free cash, read exactly, for its balance.
pub fn account_amounts(account: &Account) -> (res: Result<(Decimal, Decimal), InvalidDecimal>)
    ensures
        match res {
            Ok((total, free)) => spec_decimal_text(account.equity@) == Some(total)
                && spec_decimal_text(account.cash@) == Some(free) && total.wf() && free.wf(),
            Err(e) => if spec_decimal_text(account.equity@) is None {
                e.field@ == "equity"@ && e.raw@ == account.equity@
            } else {
                spec_decimal_text(account.cash@) is None && e.field@ == "cash"@ && e.raw@
                    == account.cash@
            },
        },
{
    let total = match parse_decimal(account.equity.as_str(), "equity") {
        Ok(d) => d,
        Err(e) => {
            return Err(e);
        },
    };
    let free = match parse_decimal(account.cash.as_str(), "cash") {
        Ok(d) => d,
        Err(e) => {
            return Err(e);
        },
    };
    Ok((total, free))
}

/// The listing an order status reconciliation asks for: open orders when only open ones
/// matter, else orders in every state (the engine then expects recently finished orders in the
/// answer), within the given window and, when given, for one symbol.
pub fn order_report_params(
    open_only: bool,
    start: Option<String>,
    end: Option<String>,
    symbol: Option<&str>,
) -> (res: ListOrdersParams)
    ensures
        opt_string_view(res.status) == Some(if open_only {
            "open"@
        } else {
            "all"@
        }),
        res.after == start,
        res.until == end,
        opt_string_view(res.symbols) == opt_ref_view(symbol),
        res.limit is None,
{
    let base = if open_only {
        ListOrdersParams::open()
    } else {
        ListOrdersParams::all()
    };
    let params = base.with_window(start, end);
    match symbol {
        Some(s) => params.with_symbol(s),
        None => params,
    }
}

} // verus!
