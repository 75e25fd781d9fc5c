//! Factories for the Alpaca data and execution clients.

use vstd::prelude::*;

use crate::common::consts::ALPACA;

verus! {

/// Factory for Alpaca data clients.
#[derive(Copy, Clone, Debug, PartialEq, Eq, Structural)]
pub struct AlpacaDataClientFactory;

impl AlpacaDataClientFactory {
    /// Creates a new [`AlpacaDataClientFactory`] instance.
    pub fn new() -> (res: Self)
        ensures
            res == AlpacaDataClientFactory,
    {
        AlpacaDataClientFactory
    }

    /// The venue name the factory registers under.
    pub fn name(&self) -> (res: &'static str)
        ensures
            res@ == ALPACA@,
    {
        ALPACA
    }

    /// The configuration type the factory expects.
    pub fn config_type(&self) -> (res: &'static str)
        ensures
            res@ == "AlpacaDataClientConfig"@,
    {
        "AlpacaDataClientConfig"
    }
}

impl Default for AlpacaDataClientFactory {
    fn default() -> (res: Self)
        ensures
            res == AlpacaDataClientFactory,
    {
        AlpacaDataClientFactory
    }
}

} // verus!
