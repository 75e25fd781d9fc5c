//! Decisions of the Alpaca market data client: which bar subscriptions exist, which bars are
//! new, how subscriptions group into requests, and the window each poll asks for.

use ahash::AHashMap;
use vstd::prelude::*;

use crate::{
    common::{
        enums::AlpacaDataFeed,
        model::BarSpecification,
        session::{
            date_plus_days, date_to_string, date_yesterday, lemma_plus_days_valid, market_datetime_at,
            market_wall_clock, plus_days, prev_date, spec_date_text, spec_session_at,
            spec_session_feed, wall_clock_datetime, AlpacaSession, SessionCalendar, MAX_SPAN_DAYS,
        },
        text::{decimal, str_equals},
    },
    config::AlpacaDataClientConfig,
    http::{
        parse::{bar_spec_to_timeframe, timeframe_unit, TimeframeError},
        query::{seq_join, views, BarsParams, CalendarParams},
    },
};

verus! {

/// Most pages one bars request follows before it stops and reports truncation.
pub const MAX_BAR_PAGES: usize = 20;

/// One subscribed bar type: its symbol, its specification and the close timestamp of the newest
/// bar dispatched for it.
#[derive(Clone, Debug)]
pub struct BarWatch {
    /// Venue symbol of the instrument.
    pub symbol: String,
    /// Bar specification.
    pub spec: BarSpecification,
    /// Close timestamp, in nanoseconds, of the newest bar dispatched; none yet when `None`.
    pub watermark: Option<u64>,
}

/// The view of a subscription: symbol, specification and watermark.
pub open spec fn watch_view(w: BarWatch) -> (Seq<char>, BarSpecification, Option<u64>) {
    (w.symbol@, w.spec, w.watermark)
}

/// What a subscription map holds, keyed by bar type identifier.
pub uninterp spec fn watch_entries(m: AHashMap<String, BarWatch>) -> Map<
    Seq<char>,
    (Seq<char>, BarSpecification, Option<u64>),
>;

/// A subscription map with no entries.
pub open spec fn no_watches() -> Map<Seq<char>, (Seq<char>, BarSpecification, Option<u64>)> {
    Map::empty()
}

/// Creates an empty map (`AHashMap::new`).
#[verifier::external_body]
fn watch_map_new() -> (res: AHashMap<String, BarWatch>)
    ensures
        watch_entries(res) == no_watches(),
{
    AHashMap::new()
}

/// Looks a key up (`AHashMap::get`).
#[verifier::external_body]
fn watch_map_get<'a>(m: &'a AHashMap<String, BarWatch>, key: &str) -> (res: Option<&'a BarWatch>)
    ensures
        res matches Some(v) ==> watch_entries(*m).contains_key(key@) && watch_view(*v)
            == watch_entries(*m)[key@],
        res is None ==> !watch_entries(*m).contains_key(key@),
{
    m.get(key)
}

/// Inserts or replaces an entry (`AHashMap::insert`).
#[verifier::external_body]
fn watch_map_insert(m: &mut AHashMap<String, BarWatch>, key: String, value: BarWatch)
    ensures
        watch_entries(*final(m)) == watch_entries(*old(m)).insert(key@, watch_view(value)),
{
    m.insert(key, value);
}

/// Removes an entry (`AHashMap::remove`), reporting whether one was there.
#[verifier::external_body]
fn watch_map_remove(m: &mut AHashMap<String, BarWatch>, key: &str) -> (res: bool)
    ensures
        watch_entries(*final(m)) == watch_entries(*old(m)).remove(key@),
        res == watch_entries(*old(m)).contains_key(key@),
{
    m.remove(key).is_some()
}

/// Counts the entries (`AHashMap::len`).
#[verifier::external_body]
fn watch_map_len(m: &AHashMap<String, BarWatch>) -> (res: usize)
    ensures
        res == watch_entries(*m).len(),
{
    m.len()
}

/// Lists the entries (`AHashMap::iter`), each once, in the map's unspecified order.
#[verifier::external_body]
fn watch_map_entries<'a>(m: &'a AHashMap<String, BarWatch>) -> (res: Vec<(&'a String, &'a BarWatch)>)
    ensures
        forall|i: int|
            0 <= i < res@.len() ==> watch_entries(*m).contains_key((#[trigger] res@[i]).0@)
                && watch_entries(*m)[res@[i].0@] == watch_view(*res@[i].1),
        forall|k: Seq<char>|
            #[trigger] watch_entries(*m).contains_key(k) ==> exists|i: int|
                0 <= i < res@.len() && (#[trigger] res@[i]).0@ == k,
        forall|i: int, j: int|
            0 <= i < res@.len() && 0 <= j < res@.len() && i != j ==> (#[trigger] res@[i]).0@
                != (#[trigger] res@[j]).0@,
{
    m.iter().collect()
}

/// True when a bar closing at `ts` is newer than anything dispatched for the bar type; a bar
/// type no longer subscribed has no new bars.
pub open spec fn spec_is_new(
    entries: Map<Seq<char>, (Seq<char>, BarSpecification, Option<u64>)>,
    key: Seq<char>,
    ts: u64,
) -> bool {
    entries.contains_key(key) && match entries[key].2 {
        Some(seen) => ts > seen,
        None => true,
    }
}

/// The watermark after a bar closing at `ts` is dispatched: the later of the two.
pub open spec fn advanced(watermark: Option<u64>, ts: u64) -> Option<u64> {
    match watermark {
        Some(seen) => if ts > seen {
            Some(ts)
        } else {
            Some(seen)
        },
        None => Some(ts),
    }
}

/// Subscribed bar types with the close timestamp of the newest bar dispatched for each.
#[derive(Debug)]
pub struct BarSubscriptions {
    watermarks: AHashMap<String, BarWatch>,
}

impl View for BarSubscriptions {
    type V = Map<Seq<char>, (Seq<char>, BarSpecification, Option<u64>)>;

    closed spec fn view(&self) -> Map<Seq<char>, (Seq<char>, BarSpecification, Option<u64>)> {
        watch_entries(self.watermarks)
    }
}

/// Subscriptions sharing one venue timeframe, fetched by one request.
#[derive(Clone, Debug)]
pub struct TimeframeGroup {
    /// Venue timeframe, e.g. `1Min`.
    pub timeframe: String,
    /// Bar type identifiers in the group.
    pub keys: Vec<String>,
}

/// The venue timeframe of a bar specification, when the venue has one.
pub open spec fn spec_timeframe(spec: BarSpecification) -> Option<Seq<char>> {
    match timeframe_unit(spec.aggregation) {
        Some(u) => Some(decimal(spec.step as nat) + u),
        None => None,
    }
}

/// The groups partition the pollable subscriptions by timeframe: each group's keys are
/// subscribed under that timeframe, groups have distinct timeframes, no key appears twice, and
/// every subscription with a timeframe is in the group for it.
pub open spec fn groups_partition(
    entries: Map<Seq<char>, (Seq<char>, BarSpecification, Option<u64>)>,
    groups: Seq<TimeframeGroup>,
) -> bool {
    &&& forall|g: int, i: int|
        0 <= g < groups.len() && 0 <= i < groups[g].keys@.len() ==> entries.contains_key(
            (#[trigger] groups[g].keys@[i])@,
        ) && spec_timeframe(entries[groups[g].keys@[i]@].1) == Some(groups[g].timeframe@)
    &&& forall|g: int, h: int|
        0 <= g < groups.len() && 0 <= h < groups.len() && g != h ==> (#[trigger] groups[g]).timeframe@
            != (#[trigger] groups[h]).timeframe@
    &&& forall|g: int, i: int, j: int|
        0 <= g < groups.len() && 0 <= i < groups[g].keys@.len() && 0 <= j < groups[g].keys@.len()
            && i != j ==> (#[trigger] groups[g].keys@[i])@ != (#[trigger] groups[g].keys@[j])@
    &&& forall|k: Seq<char>|
        #[trigger] entries.contains_key(k) && spec_timeframe(entries[k].1) is Some ==> exists|
            g: int,
            i: int,
        |
            0 <= g < groups.len() && 0 <= i < groups[g].keys@.len() && (#[trigger] groups[g].keys@[i])@ == k
}


/// The grouping built from the first `i` listed entries is sound and complete for them.
spec fn grouping_invariant(
    m: Map<Seq<char>, (Seq<char>, BarSpecification, Option<u64>)>,
    entries: Seq<(&String, &BarWatch)>,
    groups: Seq<TimeframeGroup>,
    i: int,
) -> bool {
    &&& forall|g: int, x: int|
        0 <= g < groups.len() && 0 <= x < groups[g].keys@.len() ==> exists|a: int|
            0 <= a < i && (#[trigger] entries[a]).0@ == (#[trigger] groups[g].keys@[x])@
    &&& forall|g: int, x: int|
        0 <= g < groups.len() && 0 <= x < groups[g].keys@.len() ==> m.contains_key(
            (#[trigger] groups[g].keys@[x])@,
        ) && spec_timeframe(m[groups[g].keys@[x]@].1) == Some(groups[g].timeframe@)
    &&& forall|g: int, h: int|
        0 <= g < groups.len() && 0 <= h < groups.len() && g != h ==> (#[trigger] groups[g]).timeframe@
            != (#[trigger] groups[h]).timeframe@
    &&& forall|g: int, x: int, y: int|
        0 <= g < groups.len() && 0 <= x < groups[g].keys@.len() && 0 <= y < groups[g].keys@.len()
            && x != y ==> (#[trigger] groups[g].keys@[x])@ != (#[trigger] groups[g].keys@[y])@
    &&& forall|a: int|
        0 <= a < i && spec_timeframe((#[trigger] entries[a]).1.spec) is Some ==> exists|g: int, x: int|
            0 <= g < groups.len() && 0 <= x < groups[g].keys@.len() && (#[trigger] groups[g].keys@[x])@
                == entries[a].0@
}

/// The listed entries are exactly the map's, each key once.
spec fn entries_list(
    m: Map<Seq<char>, (Seq<char>, BarSpecification, Option<u64>)>,
    entries: Seq<(&String, &BarWatch)>,
) -> bool {
    &&& forall|a: int|
        0 <= a < entries.len() ==> m.contains_key((#[trigger] entries[a]).0@) && m[entries[a].0@]
            == watch_view(*entries[a].1)
    &&& forall|a: int, b: int|
        0 <= a < entries.len() && 0 <= b < entries.len() && a != b ==> (#[trigger] entries[a]).0@
            != (#[trigger] entries[b]).0@
}

fn find_group(groups: &Vec<TimeframeGroup>, timeframe: &str) -> (res: Option<usize>)
    ensures
        res matches Some(g) ==> g < groups@.len() && groups@[g as int].timeframe@ == timeframe@,
        res is None ==> forall|g: int| 0 <= g < groups@.len() ==> (#[trigger] groups@[g]).timeframe@ != timeframe@,
{
    let n = groups.len();
    let mut g: usize = 0;
    while g < n
        invariant
            n == groups@.len(),
            g <= n,
            forall|h: int| 0 <= h < g ==> (#[trigger] groups@[h]).timeframe@ != timeframe@,
        decreases n - g,
    {
        if str_equals(groups[g].timeframe.as_str(), timeframe) {
            return Some(g);
        }
        g = g + 1;
    }
    None
}

impl BarSubscriptions {
    /// Creates an empty set of subscriptions.
    pub fn new() -> (res: Self)
        ensures
            res@ == no_watches(),
    {
        BarSubscriptions { watermarks: watch_map_new() }
    }

    /// Subscribes a bar type; returns false, changing nothing, when it is already subscribed.
    pub fn insert(&mut self, key: &str, symbol: &str, spec: BarSpecification) -> (res: bool)
        ensures
            res == !old(self)@.contains_key(key@),
            res ==> final(self)@ == old(self)@.insert(key@, (symbol@, spec, None)),
            !res ==> final(self)@ == old(self)@,
    {
        if watch_map_get(&self.watermarks, key).is_some() {
            return false;
        }
        watch_map_insert(
            &mut self.watermarks,
            String::from_str(key),
            BarWatch { symbol: String::from_str(symbol), spec, watermark: None },
        );
        true
    }

    /// Unsubscribes a bar type, reporting whether it was subscribed.
    pub fn remove(&mut self, key: &str) -> (res: bool)
        ensures
            res == old(self)@.contains_key(key@),
            final(self)@ == old(self)@.remove(key@),
    {
        watch_map_remove(&mut self.watermarks, key)
    }

    /// Returns true when nothing is subscribed.
    pub fn is_empty(&self) -> (res: bool)
        ensures
            res == (self@.len() == 0),
    {
        watch_map_len(&self.watermarks) == 0
    }

    /// Returns true when a bar closing at `ts` is newer than anything already dispatched for its
    /// type. A bar type unsubscribed while its request was in flight has no new bars.
    pub fn is_new(&self, key: &str, ts: u64) -> (res: bool)
        ensures
            res == spec_is_new(self@, key@, ts),
    {
        match watch_map_get(&self.watermarks, key) {
            Some(w) => match w.watermark {
                Some(seen) => ts > seen,
                None => true,
            },
            None => false,
        }
    }

    /// Records that a bar closing at `ts` was dispatched. The watermark only moves forward, and a
    /// bar type no longer subscribed is left alone.
    pub fn advance(&mut self, key: &str, ts: u64)
        ensures
            old(self)@.contains_key(key@) ==> final(self)@ == old(self)@.insert(
                key@,
                (old(self)@[key@].0, old(self)@[key@].1, advanced(old(self)@[key@].2, ts)),
            ),
            !old(self)@.contains_key(key@) ==> final(self)@ == old(self)@,
    {
        let updated = match watch_map_get(&self.watermarks, key) {
            Some(w) => {
                let newer = match w.watermark {
                    Some(seen) => ts > seen,
                    None => true,
                };
                if newer {
                    Some(BarWatch { symbol: w.symbol.clone(), spec: w.spec, watermark: Some(ts) })
                } else {
                    None
                }
            },
            None => None,
        };
        if let Some(w) = updated {
            watch_map_insert(&mut self.watermarks, String::from_str(key), w);
        } else {
            proof {
                if old(self)@.contains_key(key@) {
                    assert(old(self)@.insert(
                        key@,
                        (old(self)@[key@].0, old(self)@[key@].1, advanced(old(self)@[key@].2, ts)),
                    ) =~= old(self)@);
                }
            }
        }
    }

    /// One step of grouping that appends a key to an existing group keeps the grouping sound.
    proof fn lemma_group_step(
        &self,
        entries: Seq<(&String, &BarWatch)>,
        before: Seq<TimeframeGroup>,
        after: Seq<TimeframeGroup>,
        i: int,
        g: int,
    )
        requires
            0 <= i < entries.len(),
            0 <= g < before.len(),
            after.len() == before.len(),
            forall|h: int| 0 <= h < before.len() && h != g ==> after[h] == before[h],
            after[g].timeframe@ == before[g].timeframe@,
            after[g].keys@.len() == before[g].keys@.len() + 1,
            forall|x: int| 0 <= x < before[g].keys@.len() ==> after[g].keys@[x] == before[g].keys@[x],
            after[g].keys@[before[g].keys@.len() as int]@ == entries[i].0@,
            spec_timeframe(entries[i].1.spec) == Some(before[g].timeframe@),
            entries_list(self@, entries),
            grouping_invariant(self@, entries, before, i),
        ensures
            grouping_invariant(self@, entries, after, i + 1),
    {
        let last = before[g].keys@.len() as int;
        assert forall|h: int, x: int|
            0 <= h < after.len() && 0 <= x < after[h].keys@.len() implies exists|a: int|
                0 <= a < i + 1 && (#[trigger] entries[a]).0@ == (#[trigger] after[h].keys@[x])@ by {
            if h == g && x == last {
                assert(entries[i].0@ == after[h].keys@[x]@);
            } else {
                assert(after[h].keys@[x] == before[h].keys@[x]);
            }
        }
        assert forall|h: int, x: int|
            0 <= h < after.len() && 0 <= x < after[h].keys@.len() implies self@.contains_key(
                (#[trigger] after[h].keys@[x])@,
            ) && spec_timeframe(self@[after[h].keys@[x]@].1) == Some(after[h].timeframe@) by {
            if h == g && x == last {
                assert(self@[entries[i].0@] == watch_view(*entries[i].1));
            } else {
                assert(after[h].keys@[x] == before[h].keys@[x]);
            }
        }
        assert forall|h: int, x: int, y: int|
            0 <= h < after.len() && 0 <= x < after[h].keys@.len() && 0 <= y < after[h].keys@.len()
                && x != y implies (#[trigger] after[h].keys@[x])@ != (#[trigger] after[h].keys@[y])@ by {
            if h == g && (x == last || y == last) {
                let other = if x == last { y } else { x };
                assert(after[h].keys@[other] == before[h].keys@[other]);
                let a = choose|a: int| 0 <= a < i && (#[trigger] entries[a]).0@ == before[h].keys@[other]@;
                assert(entries[a].0@ != entries[i].0@);
            } else if h == g {
                assert(after[h].keys@[x] == before[h].keys@[x]);
                assert(after[h].keys@[y] == before[h].keys@[y]);
            }
        }
        assert forall|a: int|
            0 <= a < i + 1 && spec_timeframe((#[trigger] entries[a]).1.spec) is Some implies exists|
                h: int,
                x: int,
            |
                0 <= h < after.len() && 0 <= x < after[h].keys@.len() && (#[trigger] after[h].keys@[x])@
                    == entries[a].0@ by {
            if a == i {
                assert(after[g].keys@[last]@ == entries[a].0@);
            } else {
                let (h, x) = choose|h: int, x: int|
                    0 <= h < before.len() && 0 <= x < before[h].keys@.len() && (#[trigger] before[h].keys@[x])@
                        == entries[a].0@;
                assert(after[h].keys@[x] == before[h].keys@[x]);
            }
        }
    }

    /// One step of grouping that opens a new group for a key keeps the grouping sound.
    proof fn lemma_group_new(
        &self,
        entries: Seq<(&String, &BarWatch)>,
        before: Seq<TimeframeGroup>,
        after: Seq<TimeframeGroup>,
        i: int,
    )
        requires
            0 <= i < entries.len(),
            after.len() == before.len() + 1,
            forall|h: int| 0 <= h < before.len() ==> after[h] == before[h],
            after[before.len() as int].keys@.len() == 1,
            after[before.len() as int].keys@[0]@ == entries[i].0@,
            spec_timeframe(entries[i].1.spec) == Some(after[before.len() as int].timeframe@),
            forall|h: int| 0 <= h < before.len() ==> (#[trigger] before[h]).timeframe@
                != after[before.len() as int].timeframe@,
            entries_list(self@, entries),
            grouping_invariant(self@, entries, before, i),
        ensures
            grouping_invariant(self@, entries, after, i + 1),
    {
        let last = before.len() as int;
        assert forall|h: int, x: int|
            0 <= h < after.len() && 0 <= x < after[h].keys@.len() implies exists|a: int|
                0 <= a < i + 1 && (#[trigger] entries[a]).0@ == (#[trigger] after[h].keys@[x])@ by {
            if h == last {
                assert(entries[i].0@ == after[h].keys@[x]@);
            } else {
                assert(after[h] == before[h]);
            }
        }
        assert forall|h: int, x: int|
            0 <= h < after.len() && 0 <= x < after[h].keys@.len() implies self@.contains_key(
                (#[trigger] after[h].keys@[x])@,
            ) && spec_timeframe(self@[after[h].keys@[x]@].1) == Some(after[h].timeframe@) by {
            if h == last {
                assert(self@[entries[i].0@] == watch_view(*entries[i].1));
            } else {
                assert(after[h] == before[h]);
            }
        }
        assert forall|h: int, j: int|
            0 <= h < after.len() && 0 <= j < after.len() && h != j implies (#[trigger] after[h]).timeframe@
                != (#[trigger] after[j]).timeframe@ by {
            if h != last && j != last {
                assert(after[h] == before[h]);
                assert(after[j] == before[j]);
            } else if h == last {
                assert(after[j] == before[j]);
            } else {
                assert(after[h] == before[h]);
            }
        }
        assert forall|h: int, x: int, y: int|
            0 <= h < after.len() && 0 <= x < after[h].keys@.len() && 0 <= y < after[h].keys@.len()
                && x != y implies (#[trigger] after[h].keys@[x])@ != (#[trigger] after[h].keys@[y])@ by {
            if h != last {
                assert(after[h] == before[h]);
            }
        }
        assert forall|a: int|
            0 <= a < i + 1 && spec_timeframe((#[trigger] entries[a]).1.spec) is Some implies exists|
                h: int,
                x: int,
            |
                0 <= h < after.len() && 0 <= x < after[h].keys@.len() && (#[trigger] after[h].keys@[x])@
                    == entries[a].0@ by {
            if a == i {
                assert(after[last].keys@[0]@ == entries[a].0@);
            } else {
                let (h, x) = choose|h: int, x: int|
                    0 <= h < before.len() && 0 <= x < before[h].keys@.len() && (#[trigger] before[h].keys@[x])@
                        == entries[a].0@;
                assert(after[h] == before[h]);
            }
        }
    }

    /// Returns the subscribed bar types grouped by venue timeframe.
    ///
    /// Grouping is what makes polling cheap: every symbol sharing a timeframe is fetched by one
    /// request. A bar type the venue has no timeframe for is left out.
    pub fn by_timeframe(&self) -> (res: Vec<TimeframeGroup>)
        ensures
            groups_partition(self@, res@),
    {
        let entries = watch_map_entries(&self.watermarks);
        let ghost m = self@;
        let n = entries.len();
        let mut groups: Vec<TimeframeGroup> = Vec::new();
        let mut i: usize = 0;
        while i < n
            invariant
                n == entries@.len(),
                i <= n,
                m == watch_entries(self.watermarks),
                entries_list(m, entries@),
                forall|k: Seq<char>|
                    #[trigger] m.contains_key(k) ==> exists|a: int|
                        0 <= a < entries@.len() && (#[trigger] entries@[a]).0@ == k,
                grouping_invariant(m, entries@, groups@, i as int),
            decreases n - i,
        {
            let (key, watch) = entries[i];
            match bar_spec_to_timeframe(watch.spec) {
                Ok(timeframe) => {
                    let ghost old_groups = groups@;
                    match find_group(&groups, timeframe.as_str()) {
                        Some(g) => {
                            let mut group = groups.remove(g);
                            let ghost old_keys = group.keys@;
                            let k = key.clone();
                            group.keys.push(k);
                            groups.insert(g, group);
                            proof {
                                assert(groups@ =~= old_groups.update(g as int, groups@[g as int]));
                                assert(groups@[g as int].keys@ =~= old_keys.push(k));
                                assert(groups@[g as int].timeframe@ == timeframe@);
                                self.lemma_group_step(
                                    entries@,
                                    old_groups,
                                    groups@,
                                    i as int,
                                    g as int,
                                );
                            }
                        },
                        None => {
                            let mut keys = Vec::new();
                            let k = key.clone();
                            keys.push(k);
                            groups.push(TimeframeGroup { timeframe, keys });
                            proof {
                                assert(groups@ =~= old_groups.push(groups@[old_groups.len() as int]));
                                assert(groups@[old_groups.len() as int].keys@ =~= seq![k]);
                                self.lemma_group_new(entries@, old_groups, groups@, i as int);
                            }
                        },
                    }
                },
                Err(_) => {},
            }
            i = i + 1;
        }
        proof {
            assert forall|k: Seq<char>|
                #[trigger] m.contains_key(k) && spec_timeframe(m[k].1) is Some implies exists|
                    g: int,
                    x: int,
                |
                    0 <= g < groups@.len() && 0 <= x < groups@[g].keys@.len() && (#[trigger] groups@[g].keys@[x])@
                        == k by {
                let a = choose|a: int| 0 <= a < entries@.len() && (#[trigger] entries@[a]).0@ == k;
                assert(spec_timeframe(entries@[a].1.spec) is Some);
            }
        }
        groups
    }
}

/// A bar type's watermark never moves backwards, and once a bar closing at `ts` is dispatched
/// no bar closing at or before `ts` is new for that type again.
pub proof fn lemma_watermark_is_monotone(watermark: Option<u64>, ts: u64, later: u64)
    ensures
        watermark matches Some(seen) ==> advanced(watermark, ts) matches Some(now) && now >= seen,
        advanced(watermark, ts) matches Some(now) && now >= ts,
        later <= ts ==> !(match advanced(watermark, ts) {
            Some(seen) => later > seen,
            None => true,
        }),
{
}

/// Bars for a bar type that is not subscribed are never new, and dispatching one changes nothing.
pub proof fn lemma_unsubscribed_bars_are_ignored(
    entries: Map<Seq<char>, (Seq<char>, BarSpecification, Option<u64>)>,
    key: Seq<char>,
    ts: u64,
)
    requires
        !entries.contains_key(key),
    ensures
        !spec_is_new(entries, key, ts),
{
}

/// Watermarks are independent per bar type: advancing one leaves whether a bar is new for any
/// other unchanged.
pub proof fn lemma_watermarks_are_independent(
    entries: Map<Seq<char>, (Seq<char>, BarSpecification, Option<u64>)>,
    key: Seq<char>,
    other: Seq<char>,
    ts: u64,
    probe: u64,
)
    requires
        entries.contains_key(key),
        key != other,
    ensures
        spec_is_new(
            entries.insert(key, (entries[key].0, entries[key].1, advanced(entries[key].2, ts))),
            other,
            probe,
        ) == spec_is_new(entries, other, probe),
{
}

/// True when a bar closing at `ts` lies past the watermark.
pub open spec fn above(watermark: Option<u64>, ts: u64) -> bool {
    match watermark {
        Some(seen) => ts > seen,
        None => true,
    }
}

/// `picks` are the bars to dispatch from a poll that returned bars closing at `ts`, given the
/// watermark: in ascending close time, every distinct close time past the watermark once, each
/// taken at its first occurrence, and nothing else.
pub open spec fn dispatch_selection(ts: Seq<u64>, watermark: Option<u64>, picks: Seq<usize>) -> bool {
    &&& forall|i: int|
        0 <= i < picks.len() ==> #[trigger] picks[i] < ts.len() && above(
            watermark,
            ts[picks[i] as int],
        )
    &&& forall|i: int, j: int|
        0 <= i < j < picks.len() ==> ts[#[trigger] picks[i] as int] < ts[#[trigger] picks[j] as int]
    &&& forall|k: int|
        0 <= k < ts.len() && above(watermark, #[trigger] ts[k]) ==> exists|i: int|
            0 <= i < picks.len() && ts[#[trigger] picks[i] as int] == ts[k]
    &&& forall|i: int, k: int|
        0 <= i < picks.len() && 0 <= k < ts.len() && #[trigger] ts[k] == ts[#[trigger] picks[i] as int]
            ==> picks[i] <= k
}

/// The watermark after advancing over the picked bars in order.
pub open spec fn advance_over(watermark: Option<u64>, ts: Seq<u64>, picks: Seq<usize>) -> Option<u64>
    decreases picks.len(),
{
    if picks.len() == 0 {
        watermark
    } else {
        advanced(advance_over(watermark, ts, picks.drop_last()), ts[picks.last() as int])
    }
}

spec fn progress(cur: Option<u64>) -> int {
    match cur {
        None => u64::MAX + 1,
        Some(c) => u64::MAX - c,
    }
}

/// Returns the index of the earliest-closing bar past `cur` (the first such index on a tie).
fn earliest_after(ts: &Vec<u64>, cur: Option<u64>) -> (res: Option<usize>)
    ensures
        res matches Some(b) ==> b < ts@.len() && above(cur, ts@[b as int]) && forall|j: int|
            0 <= j < ts@.len() && above(cur, #[trigger] ts@[j]) ==> ts@[b as int] <= ts@[j] && (
            ts@[j] == ts@[b as int] ==> b <= j),
        res is None ==> forall|j: int| 0 <= j < ts@.len() ==> !above(cur, #[trigger] ts@[j]),
{
    let mut best: Option<usize> = None;
    let mut k: usize = 0;
    while k < ts.len()
        invariant
            k <= ts@.len(),
            best matches Some(b) ==> b < k && above(cur, ts@[b as int]) && forall|j: int|
                0 <= j < k && above(cur, #[trigger] ts@[j]) ==> ts@[b as int] <= ts@[j] && (ts@[j]
                    == ts@[b as int] ==> b <= j),
            best is None ==> forall|j: int| 0 <= j < k ==> !above(cur, #[trigger] ts@[j]),
        decreases ts@.len() - k,
    {
        let t = ts[k];
        let past = match cur {
            Some(c) => t > c,
            None => true,
        };
        if past {
            match best {
                None => {
                    best = Some(k);
                },
                Some(b) => {
                    if t < ts[b] {
                        best = Some(k);
                    }
                },
            }
        }
        k = k + 1;
    }
    best
}

/// Selects the bars of one poll to dispatch: see [`dispatch_selection`].
fn select_new(ts: &Vec<u64>, watermark: Option<u64>) -> (res: Vec<usize>)
    ensures
        dispatch_selection(ts@, watermark, res@),
{
    let mut picks: Vec<usize> = Vec::new();
    let mut cur: Option<u64> = watermark;
    loop
        invariant
            forall|i: int|
                0 <= i < picks@.len() ==> #[trigger] picks@[i] < ts@.len() && above(
                    watermark,
                    ts@[picks@[i] as int],
                ) && !above(cur, ts@[picks@[i] as int]),
            forall|i: int, j: int|
                0 <= i < j < picks@.len() ==> ts@[#[trigger] picks@[i] as int] < ts@[#[trigger] picks@[j] as int],
            forall|k: int|
                0 <= k < ts@.len() && above(watermark, #[trigger] ts@[k]) && !above(cur, ts@[k])
                    ==> exists|i: int| 0 <= i < picks@.len() && ts@[#[trigger] picks@[i] as int] == ts@[k],
            forall|i: int, k: int|
                0 <= i < picks@.len() && 0 <= k < ts@.len() && #[trigger] ts@[k] == ts@[#[trigger] picks@[i] as int]
                    ==> picks@[i] <= k,
            cur == watermark || (cur matches Some(c) && (watermark matches Some(w) ==> c > w)),
        ensures
            dispatch_selection(ts@, watermark, picks@),
        decreases progress(cur),
    {
        match earliest_after(ts, cur) {
            None => {
                break;
            },
            Some(b) => {
                let t = ts[b];
                let ghost old_picks = picks@;
                let ghost old_cur = cur;
                picks.push(b);
                cur = Some(t);
                proof {
                    assert(picks@[old_picks.len() as int] == b);
                    assert forall|i: int| 0 <= i < old_picks.len() implies picks@[i] == old_picks[i] by {}
                    assert forall|k: int|
                        0 <= k < ts@.len() && above(watermark, #[trigger] ts@[k]) && !above(cur, ts@[k])
                        implies exists|i: int| 0 <= i < picks@.len() && ts@[#[trigger] picks@[i] as int] == ts@[k] by {
                        if above(old_cur, ts@[k]) {
                            assert(ts@[k] == t);
                            assert(ts@[picks@[old_picks.len() as int] as int] == ts@[k]);
                        } else {
                            let i = choose|i: int| 0 <= i < old_picks.len() && ts@[#[trigger] old_picks[i] as int] == ts@[k];
                            assert(ts@[picks@[i] as int] == ts@[k]);
                        }
                    }
                }
            },
        }
    }
    picks
}

impl BarSubscriptions {
    /// Returns which of a poll's bars to dispatch for a bar type, given the closing times of
    /// the bars the venue returned: every distinct close time past the type's watermark once,
    /// in ascending order, at its first occurrence. Nothing is dispatched for a type that is not
    /// subscribed (it may have been dropped while the request was in flight).
    pub fn new_bars(&self, key: &str, ts_events: &Vec<u64>) -> (res: Vec<usize>)
        ensures
            self@.contains_key(key@) ==> dispatch_selection(ts_events@, self@[key@].2, res@),
            !self@.contains_key(key@) ==> res@.len() == 0,
    {
        match watch_map_get(&self.watermarks, key) {
            Some(w) => select_new(ts_events, w.watermark),
            None => Vec::new(),
        }
    }
}

/// A rolling window never republishes: once the watermark has advanced over the selected bars,
/// no bar of that poll is past it, so polling the same window again selects nothing.
pub proof fn lemma_rolling_window_never_republishes(
    ts: Seq<u64>,
    watermark: Option<u64>,
    picks: Seq<usize>,
)
    requires
        dispatch_selection(ts, watermark, picks),
    ensures
        forall|k: int| 0 <= k < ts.len() ==> !above(advance_over(watermark, ts, picks), #[trigger] ts[k]),
{
    lemma_advance_over_ascending(ts, watermark, picks);
    assert forall|k: int| 0 <= k < ts.len() implies !above(advance_over(watermark, ts, picks), #[trigger] ts[k]) by {
        if above(watermark, ts[k]) {
            let i = choose|i: int| 0 <= i < picks.len() && ts[#[trigger] picks[i] as int] == ts[k];
            if i < picks.len() - 1 {
                assert(ts[picks[i] as int] < ts[picks[picks.len() - 1] as int]);
            }
        } else if picks.len() > 0 {
            assert(above(watermark, ts[picks[0] as int]));
            if picks.len() > 1 {
                assert(ts[picks[0] as int] < ts[picks[picks.len() - 1] as int]);
            }
        }
    }
}

impl BarSubscriptions {
    /// Dispatches one poll's bars for a bar type, as a poll does: selects the bars past the
    /// type's watermark in ascending close time (see [`dispatch_selection`]) and advances the
    /// watermark over each in turn. Returns the positions of the bars to send. A type that is not
    /// subscribed gets nothing and nothing changes.
    pub fn dispatch(&mut self, key: &str, ts_events: &Vec<u64>) -> (res: Vec<usize>)
        ensures
            old(self)@.contains_key(key@) ==> {
                &&& dispatch_selection(ts_events@, old(self)@[key@].2, res@)
                &&& final(self)@ == old(self)@.insert(
                    key@,
                    (
                        old(self)@[key@].0,
                        old(self)@[key@].1,
                        advance_over(old(self)@[key@].2, ts_events@, res@),
                    ),
                )
            },
            !old(self)@.contains_key(key@) ==> res@.len() == 0 && final(self)@ == old(self)@,
    {
        let picks = self.new_bars(key, ts_events);
        let ghost start = self@;
        let mut i: usize = 0;
        while i < picks.len()
            invariant
                i <= picks@.len(),
                forall|k: int| 0 <= k < picks@.len() ==> #[trigger] picks@[k] < ts_events@.len(),
                start.contains_key(key@) ==> self@ == start.insert(
                    key@,
                    (start[key@].0, start[key@].1, advance_over(start[key@].2, ts_events@, picks@.take(i as int))),
                ),
                !start.contains_key(key@) ==> picks@.len() == 0 && self@ == start,
            decreases picks@.len() - i,
        {
            proof {
                assert(picks@.take(i + 1).drop_last() =~= picks@.take(i as int));
                assert(picks@.take(i + 1).last() == picks@[i as int]);
            }
            let p = picks[i];
            self.advance(key, ts_events[p]);
            i = i + 1;
        }
        proof {
            assert(picks@.take(picks@.len() as int) =~= picks@);
            if start.contains_key(key@) {
                assert(start.insert(key@, (start[key@].0, start[key@].1, start[key@].2)) =~= start);
            }
        }
        picks
    }
}

/// No bar is dispatched twice across polls, and dispatch only moves forward in time: within a
/// poll the dispatched close times strictly ascend, the watermark ends on the last of them, and
/// every bar a later poll dispatches closes after every bar an earlier poll dispatched.
pub proof fn lemma_polls_never_dispatch_a_bar_twice(
    watermark: Option<u64>,
    first_ts: Seq<u64>,
    first: Seq<usize>,
    second_ts: Seq<u64>,
    second: Seq<usize>,
)
    requires
        dispatch_selection(first_ts, watermark, first),
        dispatch_selection(second_ts, advance_over(watermark, first_ts, first), second),
    ensures
        first.len() > 0 ==> advance_over(watermark, first_ts, first) == Some(
            first_ts[first.last() as int],
        ),
        first.len() == 0 ==> advance_over(watermark, first_ts, first) == watermark,
        forall|i: int, j: int|
            0 <= i < first.len() && 0 <= j < second.len() ==> first_ts[#[trigger] first[i] as int]
                < second_ts[#[trigger] second[j] as int],
{
    lemma_advance_over_ascending(first_ts, watermark, first);
    assert forall|i: int, j: int|
        0 <= i < first.len() && 0 <= j < second.len() implies first_ts[#[trigger] first[i] as int]
        < second_ts[#[trigger] second[j] as int] by {
        let last = first.len() - 1;
        if i < last {
            assert(first_ts[first[i] as int] < first_ts[first[last] as int]);
        }
        assert(above(Some(first_ts[first[last] as int]), second_ts[second[j] as int]));
    }
}

/// The picks index bars past the watermark, in strictly ascending close time.
spec fn ascending_past(ts: Seq<u64>, watermark: Option<u64>, picks: Seq<usize>) -> bool {
    &&& forall|i: int|
        0 <= i < picks.len() ==> #[trigger] picks[i] < ts.len() && above(
            watermark,
            ts[picks[i] as int],
        )
    &&& forall|i: int, j: int|
        0 <= i < j < picks.len() ==> ts[#[trigger] picks[i] as int] < ts[#[trigger] picks[j] as int]
}

proof fn lemma_advance_over_ascending(ts: Seq<u64>, watermark: Option<u64>, picks: Seq<usize>)
    requires
        ascending_past(ts, watermark, picks),
    ensures
        picks.len() == 0 ==> advance_over(watermark, ts, picks) == watermark,
        picks.len() > 0 ==> advance_over(watermark, ts, picks) == Some(ts[picks.last() as int]),
    decreases picks.len(),
{
    if picks.len() > 0 {
        let rest = picks.drop_last();
        assert forall|i: int| 0 <= i < rest.len() implies rest[i] == picks[i] by {}
        assert(ascending_past(ts, watermark, rest)) by {
            assert forall|i: int, j: int| 0 <= i < j < rest.len() implies ts[#[trigger] rest[i] as int] < ts[#[trigger] rest[j] as int] by {
                assert(rest[i] == picks[i] && rest[j] == picks[j]);
            }
        }
        lemma_advance_over_ascending(ts, watermark, rest);
        if rest.len() > 0 {
            assert(ts[picks[rest.len() - 1] as int] < ts[picks[picks.len() - 1] as int]);
        }
    }
}

/// The RFC 3339 text the timestamp library writes for an instant given in UNIX nanoseconds, or
/// `None` when the instant is outside its range.
pub uninterp spec fn rfc3339_text(nanos: int) -> Option<Seq<char>>;

/// Formats an instant as an RFC 3339 UTC timestamp (`jiff::Timestamp::from_nanosecond`, then
/// its `Display`).
#[verifier::external_body]
fn format_rfc3339(ts: u64) -> (res: Option<String>)
    ensures
        res matches Some(t) ==> rfc3339_text(ts as int) == Some(t@),
        res is None <==> rfc3339_text(ts as int) is None,
{
    match jiff::Timestamp::from_nanosecond(ts as i128) {
        Ok(t) => Some(t.to_string()),
        Err(_) => None,
    }
}

/// Nanoseconds in a minute.
pub const NANOS_PER_MINUTE: u64 = 60_000_000_000;

/// The start of a rolling window of `window_mins` minutes ending at `now`, clamped at the epoch;
/// `None` when the span overflows or the instant cannot be written.
pub open spec fn spec_window_start(now: u64, window_mins: u64) -> Option<Seq<char>> {
    let span = window_mins * NANOS_PER_MINUTE;
    if span > u64::MAX {
        None
    } else if span >= now {
        rfc3339_text(0)
    } else {
        rfc3339_text(now - span)
    }
}

/// Returns the RFC 3339 start of a rolling window ending at `now`.
pub fn window_start(now: u64, window_mins: u64) -> (res: Option<String>)
    ensures
        match res {
            Some(t) => spec_window_start(now, window_mins) == Some(t@),
            None => spec_window_start(now, window_mins) is None,
        },
{
    let span = match window_mins.checked_mul(60) {
        Some(secs) => match secs.checked_mul(1_000_000_000) {
            Some(n) => n,
            None => {
                return None;
            },
        },
        None => {
            return None;
        },
    };
    format_rfc3339(now.saturating_sub(span))
}

/// How often the poll loop runs and how far back each poll reaches.
#[derive(Copy, Clone, Debug, PartialEq, Eq, Structural)]
pub struct PollSchedule {
    /// Seconds between polls.
    pub interval_secs: u64,
    /// Minutes of history each poll requests.
    pub window_mins: u64,
}

/// The poll schedule a configuration asks for, with each setting at least one.
pub fn poll_schedule(config: &AlpacaDataClientConfig) -> (res: PollSchedule)
    ensures
        res.interval_secs == if config.poll_interval_secs == 0 {
            1
        } else {
            config.poll_interval_secs
        },
        res.window_mins == if config.poll_window_mins == 0 {
            1
        } else {
            config.poll_window_mins
        },
{
    PollSchedule {
        interval_secs: if config.poll_interval_secs == 0 {
            1
        } else {
            config.poll_interval_secs
        },
        window_mins: if config.poll_window_mins == 0 {
            1
        } else {
            config.poll_window_mins
        },
    }
}

/// The request one poll sends for a timeframe group: its symbols, the timeframe, the feed and
/// the rolling window ending now. `None` when the window cannot be computed.
pub fn poll_params(
    symbols: &Vec<String>,
    timeframe: &str,
    feed: AlpacaDataFeed,
    now: u64,
    window_mins: u64,
) -> (res: Option<BarsParams>)
    ensures
        res is Some <==> (spec_window_start(now, window_mins) is Some && rfc3339_text(now as int) is Some),
        res matches Some(p) ==> {
            &&& p.symbols@ == seq_join(views(symbols@), ","@)
            &&& p.timeframe@ == timeframe@
            &&& p.feed == Some(feed)
            &&& p.start matches Some(st) && spec_window_start(now, window_mins) == Some(st@)
            &&& p.end matches Some(e) && rfc3339_text(now as int) == Some(e@)
            &&& p.limit is None
            &&& p.page_token is None
        },
{
    let start = match window_start(now, window_mins) {
        Some(s) => s,
        None => {
            return None;
        },
    };
    let end = match format_rfc3339(now) {
        Some(e) => e,
        None => {
            return None;
        },
    };
    Some(BarsParams::new(symbols.as_slice(), timeframe).with_feed(feed).with_window(start, end))
}

/// The feed to consume at an instant: the calendar's, or the configured fallback when the
/// calendar reports no session, so a poll just outside a session boundary still targets a
/// sensible endpoint.
pub fn feed_for(calendar: &SessionCalendar, now: u64, fallback: AlpacaDataFeed) -> (res: AlpacaDataFeed)
    requires
        calendar.wf(),
    ensures
        res == match spec_session_feed(
            match market_wall_clock(now) {
                Some(r) => spec_session_at(calendar@, wall_clock_datetime(r)),
                None => AlpacaSession::Closed,
            },
        ) {
            Some(f) => f,
            None => fallback,
        },
{
    match calendar.feed_at(now) {
        Some(f) => f,
        None => fallback,
    }
}

/// Market data this transport cannot serve: it polls REST bars only.
#[derive(Copy, Clone, Debug, PartialEq, Eq, Structural)]
pub enum UnsupportedData {
    /// Quotes.
    Quotes,
    /// Trades.
    Trades,
    /// Order book deltas.
    BookDeltas,
    /// Order book depth.
    BookDepth,
    /// Instrument status (halts, LULD bands), published only on the market data stream.
    InstrumentStatus,
}

/// What each kind of unsupported data is called in the refusal.
pub open spec fn unsupported_name(what: UnsupportedData) -> Seq<char> {
    match what {
        UnsupportedData::Quotes => "quotes"@,
        UnsupportedData::Trades => "trades"@,
        UnsupportedData::BookDeltas => "order book deltas"@,
        UnsupportedData::BookDepth => "order book depth"@,
        UnsupportedData::InstrumentStatus => "instrument status updates"@,
    }
}

/// Builds the refusal for subscriptions this transport cannot serve, so a strategy asking for
/// tick data fails at subscription time instead of waiting for data that never arrives.
pub fn unsupported(what: UnsupportedData) -> (res: String)
    ensures
        res@ == "Alpaca "@ + unsupported_name(what)
            + " are not available over the REST polling transport; they require the market data WebSocket"@,
{
    let name = match what {
        UnsupportedData::Quotes => "quotes",
        UnsupportedData::Trades => "trades",
        UnsupportedData::BookDeltas => "order book deltas",
        UnsupportedData::BookDepth => "order book depth",
        UnsupportedData::InstrumentStatus => "instrument status updates",
    };
    let mut msg = String::from_str("Alpaca ");
    msg.append(name);
    msg.append(
        " are not available over the REST polling transport; they require the market data WebSocket",
    );
    msg
}

/// Why a bar subscription is refused.
#[derive(Copy, Clone, Debug, PartialEq, Eq, Structural)]
pub enum SubscribeError {
    /// The venue has no timeframe for the bar specification.
    Timeframe(TimeframeError),
    /// The instrument is not loaded.
    InstrumentNotLoaded,
}

/// Checks a bar subscription before it is recorded: the timeframe must exist at the venue (an
/// error the caller can act on, rather than a log line every poll), then the instrument must be
/// loaded. Returns the venue timeframe.
pub fn validate_bar_subscription(spec: BarSpecification, instrument_loaded: bool) -> (res: Result<
    String,
    SubscribeError,
>)
    ensures
        res matches Ok(t) ==> spec_timeframe(spec) == Some(t@) && instrument_loaded,
        res matches Err(e) ==> match e {
            SubscribeError::Timeframe(_) => spec_timeframe(spec) is None,
            SubscribeError::InstrumentNotLoaded => spec_timeframe(spec) is Some && !instrument_loaded,
        },
{
    let timeframe = match bar_spec_to_timeframe(spec) {
        Ok(t) => t,
        Err(e) => {
            return Err(SubscribeError::Timeframe(e));
        },
    };
    if !instrument_loaded {
        return Err(SubscribeError::InstrumentNotLoaded);
    }
    Ok(timeframe)
}

/// The request for historical bars of one symbol: its timeframe, the feed, and the window and
/// limit the caller gave; a limit beyond `u32` is dropped.
pub fn historical_bars_params(
    symbol: String,
    spec: BarSpecification,
    feed: AlpacaDataFeed,
    start: Option<String>,
    end: Option<String>,
    limit: Option<u64>,
) -> (res: Result<BarsParams, TimeframeError>)
    ensures
        res is Err <==> spec_timeframe(spec) is None,
        res matches Ok(p) ==> {
            &&& spec_timeframe(spec) == Some(p.timeframe@)
            &&& p.symbols@ == symbol@
            &&& p.feed == Some(feed)
            &&& p.start == start
            &&& p.end == end
            &&& p.limit == match limit {
                Some(n) => if n <= u32::MAX {
                    Some(n as u32)
                } else {
                    None
                },
                None => None,
            }
            &&& p.page_token is None
        },
{
    let timeframe = match bar_spec_to_timeframe(spec) {
        Ok(t) => t,
        Err(e) => {
            return Err(e);
        },
    };
    let symbols = vec![symbol];
    let mut params = BarsParams::new(symbols.as_slice(), timeframe.as_str()).with_feed(feed);
    proof {
        assert(views(symbols@) =~= seq![symbols@[0]@]);
        reveal_with_fuel(seq_join, 2);
    }
    params.start = start;
    params.end = end;
    params.limit = match limit {
        Some(n) => if n <= 4294967295u64 {
            Some(n as u32)
        } else {
            None
        },
        None => None,
    };
    Ok(params)
}

/// The first date of the calendar window opened on `today`: the day before, since the overnight
/// session in progress belongs to a date that may already have passed.
pub open spec fn window_first_date(today: crate::common::session::CivilDate) -> crate::common::session::CivilDate {
    prev_date(today)
}

/// The last date of the calendar window opened on `today`: `lookahead_days` later, or `today`
/// itself where that falls past the last supported date.
pub open spec fn window_last_date(
    today: crate::common::session::CivilDate,
    lookahead_days: nat,
) -> crate::common::session::CivilDate {
    match plus_days(today, lookahead_days) {
        Some(d) => d,
        None => today,
    }
}

/// The calendar request that covers the configured look-ahead from the market date of `now_ns`:
/// from the day before that date through `lookahead_days` after it. `None` when the instant has
/// no market date.
pub fn calendar_window(now_ns: u64, lookahead_days: u32) -> (res: Option<CalendarParams>)
    requires
        lookahead_days <= MAX_SPAN_DAYS,
    ensures
        match market_wall_clock(now_ns) {
            None => res is None,
            Some(r) => {
                let today = wall_clock_datetime(r).date;
                &&& res matches Some(p)
                &&& p.start matches Some(s) && s@ == spec_date_text(window_first_date(today))
                &&& p.end matches Some(e) && e@ == spec_date_text(
                    window_last_date(today, lookahead_days as nat),
                )
            },
        },
{
    let now = match market_datetime_at(now_ns) {
        Some(dt) => dt,
        None => return None,
    };
    let today = now.date;
    let start = match date_yesterday(today) {
        Some(d) => d,
        None => today,
    };
    let end = match date_plus_days(today, lookahead_days) {
        Some(d) => d,
        None => today,
    };
    proof {
        lemma_plus_days_valid(today, lookahead_days as nat);
    }
    Some(CalendarParams { start: Some(date_to_string(start)), end: Some(date_to_string(end)) })
}

} // verus!
