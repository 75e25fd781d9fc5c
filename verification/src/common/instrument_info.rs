//! Venue metadata carried on instruments.
//!
//! Venue flags that have no home in the engine's instrument model, most importantly overnight
//! (Blue Ocean ATS) eligibility, travel in the instrument's `info` map under the keys below, so
//! that the data and execution clients can consult them without a second copy of the asset
//! list. The map holds exactly these keys, so a venue field appearing or disappearing cannot
//! silently change it.

use vstd::prelude::*;

use crate::http::models::{
    has_attr, Asset, ATTR_OVERNIGHT_HALTED, ATTR_OVERNIGHT_TRADABLE, ATTR_PTP_NO_EXCEPTION,
    ATTR_PTP_WITH_EXCEPTION,
};

verus! {

/// Key for the venue-assigned asset identifier.
pub const INFO_ASSET_ID: &'static str = "alpaca_asset_id";

/// Key for the listing exchange.
pub const INFO_EXCHANGE: &'static str = "alpaca_exchange";

/// Key for Blue Ocean ATS overnight eligibility.
pub const INFO_OVERNIGHT_TRADABLE: &'static str = "alpaca_overnight_tradable";

/// Key for the overnight halt flag.
pub const INFO_OVERNIGHT_HALTED: &'static str = "alpaca_overnight_halted";

/// Key for fractional trading support.
pub const INFO_FRACTIONABLE: &'static str = "alpaca_fractionable";

/// Key for marginability.
pub const INFO_MARGINABLE: &'static str = "alpaca_marginable";

/// Key for shortability.
pub const INFO_SHORTABLE: &'static str = "alpaca_shortable";

/// Key for easy-to-borrow status.
pub const INFO_EASY_TO_BORROW: &'static str = "alpaca_easy_to_borrow";

/// Key for publicly traded partnership status.
pub const INFO_PTP: &'static str = "alpaca_publicly_traded_partnership";

/// The venue metadata an instrument carries, one field per `info` key.
#[derive(Clone, Debug, PartialEq, Eq)]
pub struct InstrumentInfo {
    /// Under [`INFO_ASSET_ID`].
    pub asset_id: String,
    /// Under [`INFO_EXCHANGE`].
    pub exchange: String,
    /// Under [`INFO_OVERNIGHT_TRADABLE`].
    pub overnight_tradable: bool,
    /// Under [`INFO_OVERNIGHT_HALTED`].
    pub overnight_halted: bool,
    /// Under [`INFO_FRACTIONABLE`].
    pub fractionable: bool,
    /// Under [`INFO_MARGINABLE`].
    pub marginable: bool,
    /// Under [`INFO_SHORTABLE`].
    pub shortable: bool,
    /// Under [`INFO_EASY_TO_BORROW`].
    pub easy_to_borrow: bool,
    /// Under [`INFO_PTP`].
    pub publicly_traded_partnership: bool,
}

impl InstrumentInfo {
    /// An equal copy.
    pub fn duplicate(&self) -> (res: Self)
        ensures
            res == *self,
    {
        InstrumentInfo {
            asset_id: self.asset_id.clone(),
            exchange: self.exchange.clone(),
            overnight_tradable: self.overnight_tradable,
            overnight_halted: self.overnight_halted,
            fractionable: self.fractionable,
            marginable: self.marginable,
            shortable: self.shortable,
            easy_to_borrow: self.easy_to_borrow,
            publicly_traded_partnership: self.publicly_traded_partnership,
        }
    }
}

/// True when `info` is the metadata an instrument made from `asset` carries.
pub open spec fn spec_info_of(asset: Asset, info: InstrumentInfo) -> bool {
    &&& info.asset_id@ == asset.id@
    &&& info.exchange@ == asset.exchange@
    &&& info.overnight_tradable == has_attr(asset.attributes@, ATTR_OVERNIGHT_TRADABLE@)
    &&& info.overnight_halted == has_attr(asset.attributes@, ATTR_OVERNIGHT_HALTED@)
    &&& info.fractionable == asset.fractionable
    &&& info.marginable == asset.marginable
    &&& info.shortable == asset.shortable
    &&& info.easy_to_borrow == asset.easy_to_borrow
    &&& info.publicly_traded_partnership == (has_attr(asset.attributes@, ATTR_PTP_NO_EXCEPTION@)
        || has_attr(asset.attributes@, ATTR_PTP_WITH_EXCEPTION@))
}

/// Builds the metadata carried on an instrument made from `asset`.
///
/// An asset may carry the overnight halt flag without overnight eligibility; the two are kept
/// apart.
pub fn build_info(asset: &Asset) -> (res: InstrumentInfo)
    ensures
        res.asset_id@ == asset.id@,
        res.exchange@ == asset.exchange@,
        res.overnight_tradable == has_attr(asset.attributes@, ATTR_OVERNIGHT_TRADABLE@),
        res.overnight_halted == has_attr(asset.attributes@, ATTR_OVERNIGHT_HALTED@),
        res.fractionable == asset.fractionable,
        res.marginable == asset.marginable,
        res.shortable == asset.shortable,
        res.easy_to_borrow == asset.easy_to_borrow,
        res.publicly_traded_partnership == (has_attr(asset.attributes@, ATTR_PTP_NO_EXCEPTION@)
            || has_attr(asset.attributes@, ATTR_PTP_WITH_EXCEPTION@)),
{
    InstrumentInfo {
        asset_id: asset.id.clone(),
        exchange: asset.exchange.clone(),
        overnight_tradable: asset.is_overnight_tradable(),
        overnight_halted: asset.is_overnight_halted(),
        fractionable: asset.fractionable,
        marginable: asset.marginable,
        shortable: asset.shortable,
        easy_to_borrow: asset.easy_to_borrow,
        publicly_traded_partnership: asset.is_publicly_traded_partnership(),
    }
}

/// Whether an instrument may be routed in the overnight session, from its eligibility and halt
/// flags as read from its metadata (`None` when it carries none).
///
/// Requires known eligibility and a known absence of a halt; anything unknown resolves to
/// `false`, so a missing flag cannot be read as permission to trade.
pub fn can_trade_overnight(tradable: Option<bool>, halted: Option<bool>) -> (res: bool)
    ensures
        res == (tradable == Some(true) && halted == Some(false)),
{
    let eligible = match tradable {
        Some(t) => t,
        None => false,
    };
    let halt = match halted {
        Some(h) => h,
        None => true,
    };
    eligible && !halt
}

/// An instrument's own metadata permits overnight routing exactly when the asset it was built
/// from is overnight-eligible and not halted.
pub proof fn lemma_built_info_governs_overnight_routing(info: InstrumentInfo, asset: Asset)
    requires
        info.overnight_tradable == has_attr(asset.attributes@, ATTR_OVERNIGHT_TRADABLE@),
        info.overnight_halted == has_attr(asset.attributes@, ATTR_OVERNIGHT_HALTED@),
    ensures
        (Some(info.overnight_tradable) == Some(true) && Some(info.overnight_halted) == Some(false))
            <==> (has_attr(asset.attributes@, ATTR_OVERNIGHT_TRADABLE@) && !has_attr(
            asset.attributes@,
            ATTR_OVERNIGHT_HALTED@,
        )),
{
}

} // verus!
