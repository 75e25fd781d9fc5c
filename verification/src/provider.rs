//! Which venue assets the instrument provider loads.
//!
//! The provider loads active, tradable US equities, optionally narrowed to a configured set of
//! instrument identifiers. A narrowed load is widened by the instruments the account already
//! holds or has working orders against: reconciliation reads positions and orders for the whole
//! account and skips anything whose instrument is absent, so narrowing must not be able to hide
//! a held position from the engine.

use ahash::AHashSet;
use vstd::prelude::*;

use crate::{
    common::text::str_equals,
    http::{
        models::{AlpacaOrder, AlpacaPosition, Asset},
        parse::{
            instrument_id, is_loadable, parse_equity, spec_equity_of, spec_instrument_id,
            EquityDefinition, ASSET_CLASS_US_EQUITY,
        },
    },
};

verus! {

/// The views of a list of strings, as a set.
pub open spec fn id_set(ids: Seq<String>) -> Set<Seq<char>> {
    Set::new(|s: Seq<char>| exists|i: int| 0 <= i < ids.len() && (#[trigger] ids[i])@ == s)
}

/// The instrument identifiers an identifier set holds.
pub uninterp spec fn id_entries(ids: AHashSet<String>) -> Set<Seq<char>>;

/// An empty identifier set (`AHashSet::new`).
#[verifier::external_body]
fn id_set_new() -> (res: AHashSet<String>)
    ensures
        id_entries(res) == Set::<Seq<char>>::empty(),
{
    AHashSet::new()
}

/// Adds an identifier to a set (`HashSet::insert`, through `AHashSet`'s `DerefMut`).
#[verifier::external_body]
fn id_set_insert(ids: &mut AHashSet<String>, id: String)
    ensures
        id_entries(*final(ids)) == id_entries(*old(ids)).insert(id@),
{
    ids.insert(id);
}

/// Whether a set holds an identifier (`HashSet::contains`, through `AHashSet`'s `Deref`).
#[verifier::external_body]
fn id_set_contains(ids: &AHashSet<String>, id: &str) -> (res: bool)
    ensures
        res == id_entries(*ids).contains(id@),
{
    ids.contains(id)
}

/// Whether a set is empty (`HashSet::is_empty`, through `AHashSet`'s `Deref`).
#[verifier::external_body]
fn id_set_is_empty(ids: &AHashSet<String>) -> (res: bool)
    ensures
        res == (id_entries(*ids) == Set::<Seq<char>>::empty()),
{
    ids.is_empty()
}

/// Collects identifiers into a set.
pub fn ids_to_set(ids: &Vec<String>) -> (res: AHashSet<String>)
    ensures
        id_entries(res) == id_set(ids@),
{
    let mut set = id_set_new();
    let mut i: usize = 0;
    while i < ids.len()
        invariant
            i <= ids@.len(),
            id_entries(set) == id_set(ids@.subrange(0, i as int)),
        decreases ids@.len() - i,
    {
        id_set_insert(&mut set, ids[i].clone());
        proof {
            let p = ids@.subrange(0, i + 1);
            let q = ids@.subrange(0, i as int);
            assert forall|x: Seq<char>| id_set(p).contains(x) <==> id_set(q).insert(ids@[i as int]@).contains(x) by {
                if id_set(p).contains(x) {
                    let k = choose|k: int| 0 <= k < p.len() && (#[trigger] p[k])@ == x;
                    if k < i {
                        assert(q[k] == p[k]);
                    }
                }
                if id_set(q).contains(x) {
                    let k = choose|k: int| 0 <= k < q.len() && (#[trigger] q[k])@ == x;
                    assert(p[k] == q[k]);
                }
                if x == ids@[i as int]@ {
                    assert(p[i as int] == ids@[i as int]);
                }
            }
            assert(id_set(p) =~= id_set(q).insert(ids@[i as int]@));
        }
        i = i + 1;
    }
    assert(ids@.subrange(0, ids@.len() as int) =~= ids@);
    set
}

/// The instruments a provider loads: every one, or only those listed.
#[derive(Clone, Debug)]
pub struct LoadSelection {
    load_ids: Option<AHashSet<String>>,
}

impl View for LoadSelection {
    type V = Option<Set<Seq<char>>>;

    closed spec fn view(&self) -> Option<Set<Seq<char>>> {
        match self.load_ids {
            Some(ids) => Some(id_entries(ids)),
            None => None,
        }
    }
}

/// True when a selection takes the instrument `id`.
pub open spec fn spec_is_selected(selection: Option<Set<Seq<char>>>, id: Seq<char>) -> bool {
    match selection {
        Some(ids) => ids.contains(id),
        None => true,
    }
}

impl LoadSelection {
    /// Selects every instrument.
    pub fn all() -> (res: Self)
        ensures
            res@ is None,
    {
        LoadSelection { load_ids: None }
    }

    /// Selects only the listed instrument identifiers.
    pub fn only(ids: Vec<String>) -> (res: Self)
        ensures
            res@ == Some(id_set(ids@)),
    {
        LoadSelection { load_ids: Some(ids_to_set(&ids)) }
    }

    /// The selection a configuration asks for: everything when `load_all` is set, else the
    /// listed identifiers that are valid instrument identifiers (`valid_ids`; an invalid entry
    /// is dropped rather than failing the provider).
    pub fn from_load_all(load_all: bool, valid_ids: Vec<String>) -> (res: Self)
        ensures
            load_all ==> res@ is None,
            !load_all ==> res@ == Some(id_set(valid_ids@)),
    {
        if load_all {
            LoadSelection::all()
        } else {
            LoadSelection::only(valid_ids)
        }
    }

    /// True when the selection was narrowed to nothing, so no instrument loads and no
    /// subscription can be validated.
    pub fn is_empty_restriction(&self) -> (res: bool)
        ensures
            res == (self@ matches Some(ids) && ids.is_empty()),
    {
        match &self.load_ids {
            Some(ids) => id_set_is_empty(ids),
            None => false,
        }
    }

    /// True when the selection is narrowed to a list.
    pub fn is_restricted(&self) -> (res: bool)
        ensures
            res == (self@ is Some),
    {
        self.load_ids.is_some()
    }

    /// Returns whether an instrument is within the selection.
    pub fn is_selected(&self, id: &str) -> (res: bool)
        ensures
            res == spec_is_selected(self@, id@),
    {
        match &self.load_ids {
            Some(ids) => id_set_contains(ids, id),
            None => true,
        }
    }
}

/// True when an asset is loaded: it is an active, tradable US equity, and its instrument is
/// selected or among the additional identifiers `also`.
pub open spec fn spec_should_load(
    asset: Asset,
    selection: Option<Set<Seq<char>>>,
    also: Set<Seq<char>>,
) -> bool {
    let id = spec_instrument_id(asset.symbol@);
    &&& asset.class@ == ASSET_CLASS_US_EQUITY@
    &&& asset.status@ == "active"@
    &&& asset.tradable
    &&& (spec_is_selected(selection, id) || also.contains(id))
}

/// Returns the positions, in order, of the assets to parse and cache: the loadable ones whose
/// instrument is selected or in `also`. Selection is decided before parsing, so an excluded
/// asset costs nothing beyond the bytes the venue already sent.
pub fn assets_to_load(assets: &Vec<Asset>, selection: &LoadSelection, also: &AHashSet<String>) -> (res:
    Vec<usize>)
    ensures
        forall|k: int| 0 <= k < res@.len() ==> #[trigger] res@[k] < assets@.len(),
        forall|k: int, l: int| 0 <= k < l < res@.len() ==> res@[k] < res@[l],
        forall|i: int|
            0 <= i < assets@.len() ==> (spec_should_load(#[trigger] assets@[i], selection@, id_entries(*also))
                <==> exists|k: int| 0 <= k < res@.len() && res@[k] == i),
{
    let mut out: Vec<usize> = Vec::new();
    let mut i: usize = 0;
    while i < assets.len()
        invariant
            i <= assets@.len(),
            forall|k: int| 0 <= k < out@.len() ==> #[trigger] out@[k] < i,
            forall|k: int, l: int| 0 <= k < l < out@.len() ==> out@[k] < out@[l],
            forall|j: int|
                0 <= j < i ==> (spec_should_load(#[trigger] assets@[j], selection@, id_entries(*also))
                    <==> exists|k: int| 0 <= k < out@.len() && out@[k] == j),
        decreases assets@.len() - i,
    {
        let asset = &assets[i];
        let mut take = false;
        if is_loadable(asset) {
            let id = instrument_id(asset.symbol.as_str());
            take = selection.is_selected(id.as_str()) || id_set_contains(also, id.as_str());
        }
        let ghost before = out@;
        if take {
            out.push(i);
        }
        proof {
            assert forall|j: int|
                0 <= j < i + 1 implies (spec_should_load(#[trigger] assets@[j], selection@, id_entries(*also))
                    <==> exists|k: int| 0 <= k < out@.len() && out@[k] == j) by {
                if j < i {
                    if exists|k: int| 0 <= k < before.len() && before[k] == j {
                        let k = choose|k: int| 0 <= k < before.len() && before[k] == j;
                        assert(out@[k] == j);
                    }
                    if exists|k: int| 0 <= k < out@.len() && out@[k] == j {
                        let k = choose|k: int| 0 <= k < out@.len() && out@[k] == j;
                        assert(k < before.len());
                    }
                } else {
                    if take {
                        assert(out@[before.len() as int] == j);
                    } else {
                        if exists|k: int| 0 <= k < out@.len() && out@[k] == j {
                            let k = choose|k: int| 0 <= k < out@.len() && out@[k] == j;
                            assert(out@[k] < i);
                        }
                    }
                }
            }
        }
        i = i + 1;
    }
    out
}

/// The instrument identifiers of a list of positions.
pub open spec fn position_ids(positions: Seq<AlpacaPosition>) -> Set<Seq<char>> {
    Set::new(
        |s: Seq<char>|
            exists|i: int|
                0 <= i < positions.len() && spec_instrument_id((#[trigger] positions[i]).symbol@)
                    == s,
    )
}

/// The instrument identifiers of a list of orders.
pub open spec fn order_ids(orders: Seq<AlpacaOrder>) -> Set<Seq<char>> {
    Set::new(
        |s: Seq<char>|
            exists|i: int|
                0 <= i < orders.len() && spec_instrument_id((#[trigger] orders[i]).symbol@) == s,
    )
}

/// Returns the instruments the account holds positions in or has working orders against, each
/// once. A list that could not be read is passed as empty: fewer instruments is recoverable.
pub fn held_instrument_ids(positions: &Vec<AlpacaPosition>, open_orders: &Vec<AlpacaOrder>) -> (res:
    AHashSet<String>)
    ensures
        id_entries(res) == position_ids(positions@).union(order_ids(open_orders@)),
{
    let mut ids = id_set_new();
    assert(position_ids(positions@.subrange(0, 0)) =~= Set::<Seq<char>>::empty());
    let mut i: usize = 0;
    while i < positions.len()
        invariant
            i <= positions@.len(),
            id_entries(ids) == position_ids(positions@.subrange(0, i as int)),
        decreases positions@.len() - i,
    {
        id_set_insert(&mut ids, instrument_id(positions[i].symbol.as_str()));
        proof {
            let p = positions@.subrange(0, i + 1);
            let q = positions@.subrange(0, i as int);
            assert forall|s: Seq<char>| position_ids(p).contains(s) <==> position_ids(q).insert(
                spec_instrument_id(positions@[i as int].symbol@),
            ).contains(s) by {
                if position_ids(p).contains(s) {
                    let k = choose|k: int| 0 <= k < p.len() && spec_instrument_id((#[trigger] p[k]).symbol@) == s;
                    if k < i {
                        assert(q[k] == p[k]);
                    }
                }
                if position_ids(q).contains(s) {
                    let k = choose|k: int| 0 <= k < q.len() && spec_instrument_id((#[trigger] q[k]).symbol@) == s;
                    assert(p[k] == q[k]);
                }
                if s == spec_instrument_id(positions@[i as int].symbol@) {
                    assert(p[i as int] == positions@[i as int]);
                }
            }
            assert(position_ids(p) =~= position_ids(q).insert(
                spec_instrument_id(positions@[i as int].symbol@),
            ));
        }
        i = i + 1;
    }
    assert(positions@.subrange(0, positions@.len() as int) =~= positions@);
    let ghost from_positions = id_entries(ids);
    let mut j: usize = 0;
    while j < open_orders.len()
        invariant
            j <= open_orders@.len(),
            from_positions == position_ids(positions@),
            id_entries(ids) == from_positions.union(order_ids(open_orders@.subrange(0, j as int))),
        decreases open_orders@.len() - j,
    {
        id_set_insert(&mut ids, instrument_id(open_orders[j].symbol.as_str()));
        proof {
            let p = open_orders@.subrange(0, j + 1);
            let q = open_orders@.subrange(0, j as int);
            assert forall|s: Seq<char>| order_ids(p).contains(s) <==> order_ids(q).insert(
                spec_instrument_id(open_orders@[j as int].symbol@),
            ).contains(s) by {
                if order_ids(p).contains(s) {
                    let k = choose|k: int| 0 <= k < p.len() && spec_instrument_id((#[trigger] p[k]).symbol@) == s;
                    if k < j {
                        assert(q[k] == p[k]);
                    }
                }
                if order_ids(q).contains(s) {
                    let k = choose|k: int| 0 <= k < q.len() && spec_instrument_id((#[trigger] q[k]).symbol@) == s;
                    assert(p[k] == q[k]);
                }
                if s == spec_instrument_id(open_orders@[j as int].symbol@) {
                    assert(p[j as int] == open_orders@[j as int]);
                }
            }
            assert(order_ids(p) =~= order_ids(q).insert(
                spec_instrument_id(open_orders@[j as int].symbol@),
            ));
            assert(id_entries(ids) =~= from_positions.union(order_ids(p)));
        }
        j = j + 1;
    }
    assert(open_orders@.subrange(0, open_orders@.len() as int) =~= open_orders@);
    ids
}

/// A narrowed load never hides a held instrument: every loadable asset whose instrument the
/// account holds or works orders against is loaded, whatever the selection.
pub proof fn lemma_held_instruments_always_load(
    asset: Asset,
    selection: Option<Set<Seq<char>>>,
    positions: Seq<AlpacaPosition>,
    open_orders: Seq<AlpacaOrder>,
)
    requires
        asset.class@ == ASSET_CLASS_US_EQUITY@,
        asset.status@ == "active"@,
        asset.tradable,
        position_ids(positions).union(order_ids(open_orders)).contains(
            spec_instrument_id(asset.symbol@),
        ),
    ensures
        spec_should_load(asset, selection, position_ids(positions).union(order_ids(open_orders))),
{
}

/// Loading everything loads exactly the active, tradable US equities.
pub proof fn lemma_load_all_takes_every_loadable_asset(asset: Asset, also: Set<Seq<char>>)
    ensures
        spec_should_load(asset, None, also) <==> (asset.class@ == ASSET_CLASS_US_EQUITY@
            && asset.status@ == "active"@ && asset.tradable),
{
}

/// A load narrowed to nothing does not fall back to loading everything: it loads exactly the
/// loadable assets the account holds or works orders against.
pub proof fn lemma_empty_narrowing_loads_only_held(asset: Asset, also: Set<Seq<char>>)
    ensures
        spec_should_load(asset, Some(Set::empty()), also) <==> (asset.class@
            == ASSET_CLASS_US_EQUITY@ && asset.status@ == "active"@ && asset.tradable
            && also.contains(spec_instrument_id(asset.symbol@))),
{
}

/// The assets a load keeps, in input order: those it selects.
pub open spec fn spec_loaded_assets(
    assets: Seq<Asset>,
    selection: Option<Set<Seq<char>>>,
    also: Set<Seq<char>>,
) -> Seq<Asset>
    decreases assets.len(),
{
    if assets.len() == 0 {
        seq![]
    } else {
        let rest = spec_loaded_assets(assets.drop_last(), selection, also);
        if spec_should_load(assets.last(), selection, also) {
            rest.push(assets.last())
        } else {
            rest
        }
    }
}

/// True when `loaded` holds, in order, the equity definitions made at `ts_init` from the assets
/// a load keeps.
pub open spec fn spec_parsed_load(
    assets: Seq<Asset>,
    selection: Option<Set<Seq<char>>>,
    also: Set<Seq<char>>,
    ts_init: u64,
    loaded: Seq<EquityDefinition>,
) -> bool {
    let kept = spec_loaded_assets(assets, selection, also);
    &&& loaded.len() == kept.len()
    &&& forall|k: int| 0 <= k < loaded.len() ==> spec_equity_of(kept[k], #[trigger] loaded[k], ts_init)
}

/// Parses the assets a load keeps, in input order: each active, tradable US equity whose
/// instrument is selected or in `also`. Selection comes before parsing, and an asset that does
/// not parse is skipped.
pub fn parse_loadable(
    assets: &Vec<Asset>,
    selection: &LoadSelection,
    also: &AHashSet<String>,
    ts_init: u64,
) -> (res: Vec<EquityDefinition>)
    ensures
        spec_parsed_load(assets@, selection@, id_entries(*also), ts_init, res@),
{
    let mut out: Vec<EquityDefinition> = Vec::new();
    let mut i: usize = 0;
    while i < assets.len()
        invariant
            i <= assets@.len(),
            spec_parsed_load(assets@.subrange(0, i as int), selection@, id_entries(*also), ts_init, out@),
        decreases assets@.len() - i,
    {
        proof {
            assert(assets@.subrange(0, i + 1).drop_last() =~= assets@.subrange(0, i as int));
            assert(assets@.subrange(0, i + 1).last() == assets@[i as int]);
        }
        let asset = &assets[i];
        let mut take = false;
        if is_loadable(asset) {
            let id = instrument_id(asset.symbol.as_str());
            take = selection.is_selected(id.as_str()) || id_set_contains(also, id.as_str());
        }
        if take {
            match parse_equity(asset, ts_init) {
                Ok(e) => {
                    out.push(e);
                },
                Err(_) => {},
            }
        }
        i = i + 1;
    }
    assert(assets@.subrange(0, assets@.len() as int) =~= assets@);
    out
}

/// True when no two entries share an instrument identifier.
pub open spec fn ids_unique(entries: Seq<EquityDefinition>) -> bool {
    forall|a: int, b: int|
        0 <= a < entries.len() && 0 <= b < entries.len() && (#[trigger] entries[a]).instrument_id@
            == (#[trigger] entries[b]).instrument_id@ ==> a == b
}

/// True when some entry carries the instrument identifier `id`.
pub open spec fn has_id(entries: Seq<EquityDefinition>, id: Seq<char>) -> bool {
    exists|k: int| 0 <= k < entries.len() && (#[trigger] entries[k]).instrument_id@ == id
}

/// The position of the entry for `id`.
pub open spec fn index_of_id(entries: Seq<EquityDefinition>, id: Seq<char>) -> int {
    choose|k: int| 0 <= k < entries.len() && (#[trigger] entries[k]).instrument_id@ == id
}

/// The entries read as a map from instrument identifier to definition.
pub open spec fn entries_map(entries: Seq<EquityDefinition>) -> Map<Seq<char>, EquityDefinition> {
    Map::new(|id: Seq<char>| has_id(entries, id), |id: Seq<char>| entries[index_of_id(entries, id)])
}

/// The cached instruments, keyed by instrument identifier.
#[derive(Debug)]
pub struct InstrumentCache {
    entries: Vec<EquityDefinition>,
}

impl View for InstrumentCache {
    type V = Map<Seq<char>, EquityDefinition>;

    closed spec fn view(&self) -> Map<Seq<char>, EquityDefinition> {
        entries_map(self.entries@)
    }
}

impl InstrumentCache {
    #[verifier::type_invariant]
    spec fn entries_keyed(self) -> bool {
        &&& ids_unique(self.entries@)
        &&& entries_map(self.entries@).dom().finite()
        &&& entries_map(self.entries@).dom().len() == self.entries@.len()
    }

    /// An empty cache.
    pub fn new() -> (res: Self)
        ensures
            res@ == Map::<Seq<char>, EquityDefinition>::empty(),
    {
        let entries: Vec<EquityDefinition> = Vec::new();
        assert(entries_map(entries@).dom() =~= Set::<Seq<char>>::empty());
        assert(entries_map(entries@) =~= Map::<Seq<char>, EquityDefinition>::empty());
        InstrumentCache { entries }
    }

    /// The number of cached instruments.
    pub fn len(&self) -> (res: usize)
        ensures
            res == self@.dom().len(),
    {
        proof {
            use_type_invariant(self);
        }
        self.entries.len()
    }

    /// Returns the position of the entry for `id`, if any.
    fn find(&self, id: &str) -> (res: Option<usize>)
        ensures
            match res {
                Some(k) => k < self.entries@.len() && self.entries@[k as int].instrument_id@ == id@,
                None => !has_id(self.entries@, id@),
            },
    {
        let mut k: usize = 0;
        while k < self.entries.len()
            invariant
                k <= self.entries@.len(),
                forall|j: int| 0 <= j < k ==> (#[trigger] self.entries@[j]).instrument_id@ != id@,
            decreases self.entries@.len() - k,
        {
            if str_equals(self.entries[k].instrument_id.as_str(), id) {
                return Some(k);
            }
            k = k + 1;
        }
        None
    }

    /// Returns the cached instrument `id`, if present.
    pub fn get(&self, id: &str) -> (res: Option<&EquityDefinition>)
        ensures
            match res {
                Some(e) => self@.contains_key(id@) && *e == self@[id@],
                None => !self@.contains_key(id@),
            },
    {
        proof {
            use_type_invariant(self);
        }
        match self.find(id) {
            Some(k) => {
                proof {
                    let j = index_of_id(self.entries@, id@);
                    assert(self.entries@[k as int].instrument_id@ == id@);
                    assert(self.entries@[j].instrument_id@ == id@);
                    assert(j == k);
                }
                Some(&self.entries[k])
            },
            None => None,
        }
    }

    /// Caches an instrument, replacing any with the same identifier.
    pub fn insert(&mut self, e: EquityDefinition)
        ensures
            final(self)@ == old(self)@.insert(e.instrument_id@, e),
    {
        proof {
            use_type_invariant(&*self);
        }
        let ghost before = self.entries@;
        let ghost id = e.instrument_id@;
        let found = self.find(e.instrument_id.as_str());
        match found {
            Some(k) => {
                let mut entries: Vec<EquityDefinition> = Vec::new();
                proof {
                    assert(entries_map(entries@).dom() =~= Set::<Seq<char>>::empty());
                }
                std::mem::swap(&mut entries, &mut self.entries);
                entries.set(k, e);
                proof {
                    let after = entries@;
                    assert(entries_map(after).dom() =~= entries_map(before).dom()) by {
                        assert forall|s: Seq<char>| has_id(after, s) <==> has_id(before, s) by {
                            if has_id(after, s) {
                                let j = choose|j: int| 0 <= j < after.len() && (#[trigger] after[j]).instrument_id@ == s;
                                assert(before[j].instrument_id@ == s);
                            }
                            if has_id(before, s) {
                                let j = choose|j: int| 0 <= j < before.len() && (#[trigger] before[j]).instrument_id@ == s;
                                assert(after[j].instrument_id@ == s);
                            }
                        }
                    }
                    assert(ids_unique(after)) by {
                        assert forall|a: int, b: int|
                            0 <= a < after.len() && 0 <= b < after.len() && (#[trigger] after[a]).instrument_id@
                                == (#[trigger] after[b]).instrument_id@ implies a == b by {
                            assert(before[a].instrument_id@ == after[a].instrument_id@);
                            assert(before[b].instrument_id@ == after[b].instrument_id@);
                        }
                    }
                    assert forall|s: Seq<char>| #[trigger] has_id(after, s) implies after[index_of_id(after, s)]
                        == entries_map(before).insert(id, e)[s] by {
                        let j = index_of_id(after, s);
                        if s == id {
                            assert(after[k as int].instrument_id@ == id);
                            assert(j == k);
                        } else {
                            let i0 = index_of_id(before, s);
                            assert(before[j].instrument_id@ == s);
                            assert(has_id(before, s));
                            assert(before[i0].instrument_id@ == s);
                            assert(i0 == j);
                        }
                    }
                    assert(entries_map(after) =~= entries_map(before).insert(id, e));
                }
                self.entries = entries;
            },
            None => {
                let mut entries: Vec<EquityDefinition> = Vec::new();
                proof {
                    assert(entries_map(entries@).dom() =~= Set::<Seq<char>>::empty());
                }
                std::mem::swap(&mut entries, &mut self.entries);
                entries.push(e);
                proof {
                    let after = entries@;
                    assert(entries_map(after).dom() =~= entries_map(before).dom().insert(id)) by {
                        assert forall|s: Seq<char>| has_id(after, s) <==> (has_id(before, s) || s == id) by {
                            if has_id(after, s) {
                                let j = choose|j: int| 0 <= j < after.len() && (#[trigger] after[j]).instrument_id@ == s;
                                if j < before.len() {
                                    assert(before[j].instrument_id@ == s);
                                }
                            }
                            if has_id(before, s) {
                                let j = choose|j: int| 0 <= j < before.len() && (#[trigger] before[j]).instrument_id@ == s;
                                assert(after[j].instrument_id@ == s);
                            }
                            if s == id {
                                assert(after[before.len() as int].instrument_id@ == s);
                            }
                        }
                    }
                    assert(ids_unique(after)) by {
                        assert forall|a: int, b: int|
                            0 <= a < after.len() && 0 <= b < after.len() && (#[trigger] after[a]).instrument_id@
                                == (#[trigger] after[b]).instrument_id@ implies a == b by {
                            if a < before.len() && b == before.len() {
                                assert(before[a].instrument_id@ == id);
                            }
                            if b < before.len() && a == before.len() {
                                assert(before[b].instrument_id@ == id);
                            }
                            if a < before.len() && b < before.len() {
                                assert(before[a] == after[a] && before[b] == after[b]);
                            }
                        }
                    }
                    assert forall|s: Seq<char>| #[trigger] has_id(after, s) implies after[index_of_id(after, s)]
                        == entries_map(before).insert(id, e)[s] by {
                        let j = index_of_id(after, s);
                        if s == id {
                            assert(after[before.len() as int].instrument_id@ == id);
                            assert(j == before.len());
                        } else {
                            assert(j < before.len());
                            let i0 = index_of_id(before, s);
                            assert(before[j].instrument_id@ == s);
                            assert(has_id(before, s));
                            assert(before[i0].instrument_id@ == s);
                            assert(after[i0] == before[i0]);
                            assert(i0 == j);
                        }
                    }
                    assert(entries_map(after) =~= entries_map(before).insert(id, e));
                }
                self.entries = entries;
            },
        }
    }
}

/// The cache after caching `loaded` in order, a later definition replacing an earlier one with
/// the same identifier.
pub open spec fn spec_insert_all(
    cache: Map<Seq<char>, EquityDefinition>,
    loaded: Seq<EquityDefinition>,
) -> Map<Seq<char>, EquityDefinition>
    decreases loaded.len(),
{
    if loaded.len() == 0 {
        cache
    } else {
        spec_insert_all(cache, loaded.drop_last()).insert(loaded.last().instrument_id@, loaded.last())
    }
}

/// Loads venue assets as instruments and caches them.
#[derive(Debug)]
pub struct AlpacaInstrumentProvider {
    selection: LoadSelection,
    instruments: InstrumentCache,
}

impl View for AlpacaInstrumentProvider {
    type V = (Option<Set<Seq<char>>>, Map<Seq<char>, EquityDefinition>);

    closed spec fn view(&self) -> (Option<Set<Seq<char>>>, Map<Seq<char>, EquityDefinition>) {
        (self.selection@, self.instruments@)
    }
}

impl AlpacaInstrumentProvider {
    /// A provider that loads every instrument, with nothing cached.
    pub fn new() -> (res: Self)
        ensures
            res@.0 is None,
            res@.1 == Map::<Seq<char>, EquityDefinition>::empty(),
    {
        AlpacaInstrumentProvider { selection: LoadSelection::all(), instruments: InstrumentCache::new() }
    }

    /// A provider restricted by configuration: every instrument when `load_all` is set, else the
    /// listed identifiers that are valid instrument identifiers (`valid_ids`). Nothing is cached.
    pub fn from_config(load_all: bool, valid_ids: Vec<String>) -> (res: Self)
        ensures
            load_all ==> res@.0 is None,
            !load_all ==> res@.0 == Some(id_set(valid_ids@)),
            res@.1 == Map::<Seq<char>, EquityDefinition>::empty(),
    {
        AlpacaInstrumentProvider {
            selection: LoadSelection::from_load_all(load_all, valid_ids),
            instruments: InstrumentCache::new(),
        }
    }

    /// The configured selection.
    pub fn selection(&self) -> (res: &LoadSelection)
        ensures
            res@ == self@.0,
    {
        &self.selection
    }

    /// The number of cached instruments.
    pub fn count(&self) -> (res: usize)
        ensures
            res == self@.1.dom().len(),
    {
        self.instruments.len()
    }

    /// Returns a cached instrument by identifier, if present.
    pub fn get(&self, id: &str) -> (res: Option<&EquityDefinition>)
        ensures
            match res {
                Some(e) => self@.1.contains_key(id@) && *e == self@.1[id@],
                None => !self@.1.contains_key(id@),
            },
    {
        self.instruments.get(id)
    }

    /// Returns a cached instrument by venue symbol, if present.
    pub fn get_by_symbol(&self, symbol: &str) -> (res: Option<&EquityDefinition>)
        ensures
            match res {
                Some(e) => self@.1.contains_key(spec_instrument_id(symbol@)) && *e == self@.1[spec_instrument_id(
                    symbol@,
                )],
                None => !self@.1.contains_key(spec_instrument_id(symbol@)),
            },
    {
        let id = instrument_id(symbol);
        self.instruments.get(id.as_str())
    }

    /// Parses and caches the assets the configured selection keeps; returns the definitions
    /// made, in input order.
    pub fn parse_and_cache(&mut self, assets: &Vec<Asset>, ts_init: u64) -> (res: Vec<
        EquityDefinition,
    >)
        ensures
            spec_parsed_load(assets@, old(self)@.0, Set::empty(), ts_init, res@),
            final(self)@.0 == old(self)@.0,
            final(self)@.1 == spec_insert_all(old(self)@.1, res@),
    {
        let none = id_set_new();
        self.parse_and_cache_with(assets, ts_init, &none)
    }

    /// Parses and caches the assets the configured selection keeps, together with those whose
    /// instrument is in `also` (the instruments the account holds or works orders against);
    /// returns the definitions made, in input order. Each replaces any cached definition with
    /// the same identifier; every other cached instrument is left as it was.
    pub fn parse_and_cache_with(&mut self, assets: &Vec<Asset>, ts_init: u64, also: &AHashSet<String>) -> (res:
        Vec<EquityDefinition>)
        ensures
            spec_parsed_load(assets@, old(self)@.0, id_entries(*also), ts_init, res@),
            final(self)@.0 == old(self)@.0,
            final(self)@.1 == spec_insert_all(old(self)@.1, res@),
    {
        let loaded = parse_loadable(assets, &self.selection, also, ts_init);
        let ghost start = self.instruments@;
        let mut i: usize = 0;
        while i < loaded.len()
            invariant
                i <= loaded@.len(),
                self.selection@ == old(self).selection@,
                self.instruments@ == spec_insert_all(start, loaded@.subrange(0, i as int)),
            decreases loaded@.len() - i,
        {
            proof {
                assert(loaded@.subrange(0, i + 1).drop_last() =~= loaded@.subrange(0, i as int));
            }
            self.instruments.insert(loaded[i].duplicate());
            i = i + 1;
        }
        assert(loaded@.subrange(0, loaded@.len() as int) =~= loaded@);
        loaded
    }
}

/// After a load the cache holds exactly what it held before and what was loaded: an identifier
/// nothing loaded keeps its old definition (or stays absent), and a loaded identifier maps to
/// the last definition loaded for it.
pub proof fn lemma_load_touches_only_loaded_instruments(
    cache: Map<Seq<char>, EquityDefinition>,
    loaded: Seq<EquityDefinition>,
    id: Seq<char>,
)
    ensures
        (forall|k: int| 0 <= k < loaded.len() ==> (#[trigger] loaded[k]).instrument_id@ != id) ==> {
            &&& spec_insert_all(cache, loaded).contains_key(id) == cache.contains_key(id)
            &&& cache.contains_key(id) ==> spec_insert_all(cache, loaded)[id] == cache[id]
        },
        forall|k: int|
            0 <= k < loaded.len() && (#[trigger] loaded[k]).instrument_id@ == id && (forall|j: int|
                k < j < loaded.len() ==> (#[trigger] loaded[j]).instrument_id@ != id) ==> {
                &&& spec_insert_all(cache, loaded).contains_key(id)
                &&& spec_insert_all(cache, loaded)[id] == loaded[k]
            },
    decreases loaded.len(),
{
    if loaded.len() > 0 {
        let rest = loaded.drop_last();
        lemma_load_touches_only_loaded_instruments(cache, rest, id);
        assert forall|k: int|
            0 <= k < loaded.len() && (#[trigger] loaded[k]).instrument_id@ == id && (forall|j: int|
                k < j < loaded.len() ==> (#[trigger] loaded[j]).instrument_id@ != id) implies {
                &&& spec_insert_all(cache, loaded).contains_key(id)
                &&& spec_insert_all(cache, loaded)[id] == loaded[k]
            } by {
            if k < loaded.len() - 1 {
                assert(loaded[loaded.len() - 1].instrument_id@ != id);
                assert(rest[k] == loaded[k]);
                assert forall|j: int| k < j < rest.len() implies (#[trigger] rest[j]).instrument_id@ != id by {
                    assert(rest[j] == loaded[j]);
                }
            }
        }
        if forall|k: int| 0 <= k < loaded.len() ==> (#[trigger] loaded[k]).instrument_id@ != id {
            assert(loaded[loaded.len() - 1].instrument_id@ != id);
            assert forall|k: int| 0 <= k < rest.len() implies (#[trigger] rest[k]).instrument_id@ != id by {
                assert(rest[k] == loaded[k]);
            }
        }
    }
}

/// A load narrowed to nothing, with nothing held, keeps no asset.
pub proof fn lemma_empty_narrowing_loads_nothing(assets: Seq<Asset>)
    ensures
        spec_loaded_assets(assets, Some(Set::empty()), Set::empty()) == Seq::<Asset>::empty(),
    decreases assets.len(),
{
    if assets.len() > 0 {
        lemma_empty_narrowing_loads_nothing(assets.drop_last());
    }
}

} // verus!
