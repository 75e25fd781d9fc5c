//! Enumerations for the Alpaca adapter.

use vstd::prelude::*;

verus! {

/// Alpaca trading environment.
///
/// Defaults to [`AlpacaEnvironment::Paper`] so that an unconfigured client cannot reach the
/// live trading endpoint and transact real capital.
#[derive(Copy, Clone, Debug, PartialEq, Eq, Hash, Structural)]
pub enum AlpacaEnvironment {
    /// Paper trading environment.
    Paper,
    /// Live trading environment, transacting real capital.
    Live,
}

impl AlpacaEnvironment {
    /// Returns true if this is the paper environment.
    pub fn is_paper(self) -> (res: bool)
        ensures
            res == (self == AlpacaEnvironment::Paper),
    {
        matches!(self, Self::Paper)
    }

    /// Returns true if this is the live environment.
    pub fn is_live(self) -> (res: bool)
        ensures
            res == (self == AlpacaEnvironment::Live),
    {
        matches!(self, Self::Live)
    }
}

impl Default for AlpacaEnvironment {
    fn default() -> (res: Self)
        ensures
            res == AlpacaEnvironment::Paper,
    {
        AlpacaEnvironment::Paper
    }
}

/// Alpaca market data feed for US equities.
///
/// Only the feeds this adapter supports are represented. The IEX and delayed-SIP feeds are
/// intentionally omitted.
#[derive(Copy, Clone, Debug, PartialEq, Eq, Hash, Structural)]
pub enum AlpacaDataFeed {
    /// Consolidated Securities Information Processor feed, covering the regular session
    /// across all US exchanges.
    Sip,
    /// Blue Ocean ATS overnight session feed.
    ///
    /// This feed covers the overnight session only, which spans a calendar-day boundary in
    /// US Eastern time. A trading day for this feed is therefore not the same as its
    /// calendar date.
    Boats,
}

/// The wire value of a feed, as the venue spells it.
pub open spec fn feed_wire(feed: AlpacaDataFeed) -> Seq<char> {
    match feed {
        AlpacaDataFeed::Sip => seq!['s', 'i', 'p'],
        AlpacaDataFeed::Boats => seq!['b', 'o', 'a', 't', 's'],
    }
}

impl AlpacaDataFeed {
    /// Returns true if this feed covers the overnight session.
    pub fn is_overnight(self) -> (res: bool)
        ensures
            res == (self == AlpacaDataFeed::Boats),
    {
        matches!(self, Self::Boats)
    }

    /// Returns the lowercase wire value of the feed (`sip` or `boats`).
    pub fn as_str(self) -> (res: &'static str)
        ensures
            res@ == feed_wire(self),
    {
        match self {
            Self::Sip => {
                let s = "sip";
                proof {
                    reveal_strlit("sip");
                }
                s
            },
            Self::Boats => {
                let s = "boats";
                proof {
                    reveal_strlit("boats");
                }
                s
            },
        }
    }

    /// Parses a wire value; anything other than `sip` or `boats` is refused.
    pub fn from_wire(raw: &str) -> (res: Option<AlpacaDataFeed>)
        ensures
            res matches Some(f) ==> feed_wire(f) == raw@,
            res is None ==> (raw@ != feed_wire(AlpacaDataFeed::Sip) && raw@ != feed_wire(
                AlpacaDataFeed::Boats,
            )),
    {
        if crate::common::text::str_equals(raw, AlpacaDataFeed::Sip.as_str()) {
            Some(AlpacaDataFeed::Sip)
        } else if crate::common::text::str_equals(raw, AlpacaDataFeed::Boats.as_str()) {
            Some(AlpacaDataFeed::Boats)
        } else {
            None
        }
    }
}

impl Default for AlpacaDataFeed {
    fn default() -> (res: Self)
        ensures
            res == AlpacaDataFeed::Sip,
    {
        AlpacaDataFeed::Sip
    }
}

/// Distinct feeds have distinct wire values, so a wire value parses back to the feed it
/// came from.
pub proof fn lemma_feed_wire_injective(a: AlpacaDataFeed, b: AlpacaDataFeed)
    ensures
        feed_wire(a) == feed_wire(b) ==> a == b,
{
    assert(feed_wire(AlpacaDataFeed::Sip).len() != feed_wire(AlpacaDataFeed::Boats).len());
}

} // verus!
