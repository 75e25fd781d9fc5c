//! URL resolution for the Alpaca adapter.

use vstd::prelude::*;

use super::{
    consts::{
        DATA_REST_URL, REST_URL_LIVE, REST_URL_PAPER, WS_DATA_URL_BOATS, WS_DATA_URL_SIP,
        WS_TRADING_URL_LIVE, WS_TRADING_URL_PAPER,
    },
    enums::{AlpacaDataFeed, AlpacaEnvironment},
};

verus! {

/// The Trading API host for an environment.
pub open spec fn spec_trading_rest_url(environment: AlpacaEnvironment) -> Seq<char> {
    match environment {
        AlpacaEnvironment::Live => REST_URL_LIVE@,
        AlpacaEnvironment::Paper => REST_URL_PAPER@,
    }
}

/// The trading event stream URL for an environment.
pub open spec fn spec_trading_ws_url(environment: AlpacaEnvironment) -> Seq<char> {
    match environment {
        AlpacaEnvironment::Live => WS_TRADING_URL_LIVE@,
        AlpacaEnvironment::Paper => WS_TRADING_URL_PAPER@,
    }
}

/// The market data stream URL for a feed.
pub open spec fn spec_data_ws_url(feed: AlpacaDataFeed) -> Seq<char> {
    match feed {
        AlpacaDataFeed::Sip => WS_DATA_URL_SIP@,
        AlpacaDataFeed::Boats => WS_DATA_URL_BOATS@,
    }
}

/// Returns the Trading API base URL for the given environment.
pub fn trading_rest_url(environment: AlpacaEnvironment) -> (res: &'static str)
    ensures
        res@ == spec_trading_rest_url(environment),
{
    match environment {
        AlpacaEnvironment::Live => REST_URL_LIVE,
        AlpacaEnvironment::Paper => REST_URL_PAPER,
    }
}

/// Returns the Market Data API base URL, which is shared by both environments.
pub fn data_rest_url() -> (res: &'static str)
    ensures
        res@ == DATA_REST_URL@,
{
    DATA_REST_URL
}

/// Returns the trading event stream URL for the given environment.
pub fn trading_ws_url(environment: AlpacaEnvironment) -> (res: &'static str)
    ensures
        res@ == spec_trading_ws_url(environment),
{
    match environment {
        AlpacaEnvironment::Live => WS_TRADING_URL_LIVE,
        AlpacaEnvironment::Paper => WS_TRADING_URL_PAPER,
    }
}

/// Returns the market data stream URL for the given feed.
pub fn data_ws_url(feed: AlpacaDataFeed) -> (res: &'static str)
    ensures
        res@ == spec_data_ws_url(feed),
{
    match feed {
        AlpacaDataFeed::Sip => WS_DATA_URL_SIP,
        AlpacaDataFeed::Boats => WS_DATA_URL_BOATS,
    }
}

/// The paper environment never resolves to a live host, for REST or for the event stream.
pub proof fn lemma_paper_never_resolves_to_live()
    ensures
        spec_trading_rest_url(AlpacaEnvironment::Paper) != spec_trading_rest_url(
            AlpacaEnvironment::Live,
        ),
        spec_trading_ws_url(AlpacaEnvironment::Paper) != spec_trading_ws_url(
            AlpacaEnvironment::Live,
        ),
{
    reveal_strlit("https://api.alpaca.markets");
    reveal_strlit("https://paper-api.alpaca.markets");
    reveal_strlit("wss://api.alpaca.markets/stream");
    reveal_strlit("wss://paper-api.alpaca.markets/stream");
    assert(REST_URL_LIVE@.len() != REST_URL_PAPER@.len());
    assert(WS_TRADING_URL_LIVE@.len() != WS_TRADING_URL_PAPER@.len());
}

} // verus!
