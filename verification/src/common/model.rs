//! The trading engine's order vocabulary, as the adapter hands it over.
//!
//! These mirror the engine's own enumerations variant for variant; the glue around the library
//! converts one for one.

use vstd::prelude::*;

verus! {

/// Engine order side.
#[derive(Copy, Clone, Debug, PartialEq, Eq, Hash, Structural)]
pub enum OrderSide {
    /// No side given.
    NoOrderSide,
    /// Buy.
    Buy,
    /// Sell.
    Sell,
}

/// Engine order type.
#[derive(Copy, Clone, Debug, PartialEq, Eq, Hash, Structural)]
pub enum OrderType {
    Market,
    Limit,
    StopMarket,
    StopLimit,
    MarketToLimit,
    MarketIfTouched,
    LimitIfTouched,
    TrailingStopMarket,
    TrailingStopLimit,
}

/// Engine time in force.
#[derive(Copy, Clone, Debug, PartialEq, Eq, Hash, Structural)]
pub enum TimeInForce {
    Gtc,
    Ioc,
    Fok,
    Gtd,
    Day,
    AtTheOpen,
    AtTheClose,
}

/// Engine order status.
#[derive(Copy, Clone, Debug, PartialEq, Eq, Hash, Structural)]
pub enum OrderStatus {
    Initialized,
    Denied,
    Emulated,
    Released,
    Submitted,
    Accepted,
    Rejected,
    Canceled,
    Expired,
    Triggered,
    PendingUpdate,
    PendingCancel,
    PartiallyFilled,
    Filled,
}

/// Engine position side for a position report.
#[derive(Copy, Clone, Debug, PartialEq, Eq, Hash, Structural)]
pub enum PositionSideSpecified {
    Flat,
    Long,
    Short,
}

/// Which side of the book an execution took liquidity from.
#[derive(Copy, Clone, Debug, PartialEq, Eq, Hash, Structural)]
pub enum LiquiditySide {
    NoLiquiditySide,
    Maker,
    Taker,
}

/// Engine bar aggregation.
#[derive(Copy, Clone, Debug, PartialEq, Eq, Hash, Structural)]
pub enum BarAggregation {
    Tick,
    TickImbalance,
    TickRuns,
    Volume,
    VolumeImbalance,
    VolumeRuns,
    Value,
    ValueImbalance,
    ValueRuns,
    Millisecond,
    Second,
    Minute,
    Hour,
    Day,
    Week,
    Month,
    Year,
    Renko,
}

/// The open statuses: an order in one of these may still trade or change.
pub open spec fn spec_is_open_status(status: OrderStatus) -> bool {
    ||| status == OrderStatus::Submitted
    ||| status == OrderStatus::Accepted
    ||| status == OrderStatus::PartiallyFilled
    ||| status == OrderStatus::PendingUpdate
    ||| status == OrderStatus::PendingCancel
}

} // verus!

verus! {

/// Engine price type of a bar.
#[derive(Copy, Clone, Debug, PartialEq, Eq, Hash, Structural)]
pub enum PriceType {
    Bid,
    Ask,
    Mid,
    Last,
    Mark,
}

/// Engine bar specification: a step, an aggregation and a price type.
#[derive(Copy, Clone, Debug, PartialEq, Eq, Hash, Structural)]
pub struct BarSpecification {
    /// Number of aggregation units per bar; at least one.
    pub step: u64,
    /// What the step counts.
    pub aggregation: BarAggregation,
    /// Which price the bar is built from.
    pub price_type: PriceType,
}

} // verus!
