//! Order enumerations for the Alpaca adapter and their mapping onto the engine's.

use vstd::prelude::*;

use crate::common::model::{OrderSide, OrderStatus, OrderType, TimeInForce};

verus! {

/// Why a value could not be converted between the venue's and the engine's vocabulary.
#[derive(Copy, Clone, Debug, PartialEq, Eq, Structural)]
pub enum ConversionError {
    /// The venue sent a side this adapter does not recognise.
    UnrecognisedSide,
    /// An order was submitted with no side.
    NoOrderSide,
    /// The venue sent an order type this adapter does not recognise.
    UnrecognisedOrderType,
    /// The engine asked for an order type the venue does not offer.
    UnsupportedOrderType(OrderType),
    /// The venue sent a time in force this adapter does not recognise.
    UnrecognisedTimeInForce,
    /// `GTD` has no venue equivalent and is refused rather than widened to `GTC`.
    GtdUnsupported,
    /// `replaced` has no engine equivalent; the order continues under its replacement.
    ReplacedStatus,
    /// The venue sent a status this adapter does not recognise.
    UnrecognisedStatus,
}

/// The description of each conversion error.
pub open spec fn conversion_message(e: ConversionError) -> Seq<char> {
    match e {
        ConversionError::UnrecognisedSide => "Unrecognised Alpaca order side"@,
        ConversionError::NoOrderSide => "Cannot submit an order with no side"@,
        ConversionError::UnrecognisedOrderType => "Unrecognised Alpaca order type"@,
        ConversionError::UnsupportedOrderType(_) => "Alpaca does not support this order type"@,
        ConversionError::UnrecognisedTimeInForce => "Unrecognised Alpaca time in force"@,
        ConversionError::GtdUnsupported => "Alpaca has no GTD time in force; use GTC or DAY instead"@,
        ConversionError::ReplacedStatus => "Alpaca 'replaced' has no Nautilus equivalent; the order continues under its replacement identifier"@,
        ConversionError::UnrecognisedStatus => "Unrecognised Alpaca order status"@,
    }
}

impl ConversionError {
    /// Returns a human-readable description of the error.
    pub fn message(&self) -> (res: &'static str)
        ensures
            res@ == conversion_message(*self),
    {
        match self {
            ConversionError::UnrecognisedSide => "Unrecognised Alpaca order side",
            ConversionError::NoOrderSide => "Cannot submit an order with no side",
            ConversionError::UnrecognisedOrderType => "Unrecognised Alpaca order type",
            ConversionError::UnsupportedOrderType(_) => "Alpaca does not support this order type",
            ConversionError::UnrecognisedTimeInForce => "Unrecognised Alpaca time in force",
            ConversionError::GtdUnsupported => "Alpaca has no GTD time in force; use GTC or DAY instead",
            ConversionError::ReplacedStatus => "Alpaca 'replaced' has no Nautilus equivalent; the order continues under its replacement identifier",
            ConversionError::UnrecognisedStatus => "Unrecognised Alpaca order status",
        }
    }
}

/// Alpaca order side.
#[derive(Copy, Clone, Debug, PartialEq, Eq, Hash, Structural)]
pub enum AlpacaOrderSide {
    Buy,
    Sell,
    /// Reported on a fill that opened a short position.
    ///
    /// This appears on the activity feed rather than on submissions: an equity order is sent as
    /// `sell`, and the venue decides from the position held whether it closes or goes short.
    SellShort,
    /// Any side this adapter does not model.
    Unknown,
}

/// The venue's wire spelling of each [`AlpacaOrderSide`].
pub open spec fn side_wire(v: AlpacaOrderSide) -> Seq<char> {
    match v {
        AlpacaOrderSide::Buy => seq!['b', 'u', 'y'],
        AlpacaOrderSide::Sell => seq!['s', 'e', 'l', 'l'],
        AlpacaOrderSide::SellShort => seq!['s', 'e', 'l', 'l', '_', 's', 'h', 'o', 'r', 't'],
        AlpacaOrderSide::Unknown => seq![],
    }
}

/// Reads a wire value; anything unrecognised is [`AlpacaOrderSide::Unknown`].
pub open spec fn side_from_wire(s: Seq<char>) -> AlpacaOrderSide {
    if s == seq!['b', 'u', 'y'] {
        AlpacaOrderSide::Buy
    } else if s == seq!['s', 'e', 'l', 'l'] {
        AlpacaOrderSide::Sell
    } else if s == seq!['s', 'e', 'l', 'l', '_', 's', 'h', 'o', 'r', 't'] {
        AlpacaOrderSide::SellShort
    } else {
        AlpacaOrderSide::Unknown
    }
}

/// The engine side a venue side maps to; a short sale is a sell.
pub open spec fn spec_side_to_nautilus(side: AlpacaOrderSide) -> Result<OrderSide, ConversionError> {
    match side {
        AlpacaOrderSide::Buy => Ok(OrderSide::Buy),
        AlpacaOrderSide::Sell | AlpacaOrderSide::SellShort => Ok(OrderSide::Sell),
        AlpacaOrderSide::Unknown => Err(ConversionError::UnrecognisedSide),
    }
}

/// The venue side an engine side is submitted as.
pub open spec fn spec_side_from_nautilus(side: OrderSide) -> Result<AlpacaOrderSide, ConversionError> {
    match side {
        OrderSide::Buy => Ok(AlpacaOrderSide::Buy),
        OrderSide::Sell => Ok(AlpacaOrderSide::Sell),
        OrderSide::NoOrderSide => Err(ConversionError::NoOrderSide),
    }
}

impl AlpacaOrderSide {
    /// Converts to the engine order side.
    ///
    /// The engine carries direction in the position rather than the side, so a short sale is a
    /// sell. Refusing it instead would drop the fill that opened the short.
    pub fn to_nautilus(self) -> (res: Result<OrderSide, ConversionError>)
        ensures
            res == spec_side_to_nautilus(self),
    {
        match self {
            Self::Buy => Ok(OrderSide::Buy),
            Self::Sell | Self::SellShort => Ok(OrderSide::Sell),
            Self::Unknown => Err(ConversionError::UnrecognisedSide),
        }
    }

    /// Converts from the engine order side; an order with no side is refused.
    pub fn from_nautilus(side: OrderSide) -> (res: Result<Self, ConversionError>)
        ensures
            res == spec_side_from_nautilus(side),
    {
        match side {
            OrderSide::Buy => Ok(Self::Buy),
            OrderSide::Sell => Ok(Self::Sell),
            OrderSide::NoOrderSide => Err(ConversionError::NoOrderSide),
        }
    }

    /// Returns the venue's wire spelling (empty for `Unknown`).
    pub fn as_str(&self) -> (res: &'static str)
        ensures
            res@ == side_wire(*self),
    {
        match self {
            AlpacaOrderSide::Buy => {
                proof {
                    reveal_strlit("buy");
                }
                "buy"
            },
            AlpacaOrderSide::Sell => {
                proof {
                    reveal_strlit("sell");
                }
                "sell"
            },
            AlpacaOrderSide::SellShort => {
                proof {
                    reveal_strlit("sell_short");
                }
                "sell_short"
            },
            AlpacaOrderSide::Unknown => {
                proof {
                    reveal_strlit("");
                }
                ""
            },
        }
    }

    /// Reads a wire value, mapping anything unrecognised to `Unknown`.
    pub fn from_wire(raw: &str) -> (res: AlpacaOrderSide)
        ensures
            res == side_from_wire(raw@),
    {
        if crate::common::text::str_equals(raw, AlpacaOrderSide::Buy.as_str()) {
            return AlpacaOrderSide::Buy;
        }
        if crate::common::text::str_equals(raw, AlpacaOrderSide::Sell.as_str()) {
            return AlpacaOrderSide::Sell;
        }
        if crate::common::text::str_equals(raw, AlpacaOrderSide::SellShort.as_str()) {
            return AlpacaOrderSide::SellShort;
        }
        AlpacaOrderSide::Unknown
    }
}

/// Every modelled value's wire spelling reads back as that value.
pub proof fn lemma_side_wire_round_trip(v: AlpacaOrderSide)
    requires
        v != AlpacaOrderSide::Unknown,
    ensures
        side_from_wire(side_wire(v)) == v,
{
    assert(seq!['s', 'e', 'l', 'l'].len() != seq!['b', 'u', 'y'].len());
    assert(seq!['s', 'e', 'l', 'l', '_', 's', 'h', 'o', 'r', 't'].len() != seq!['b', 'u', 'y'].len());
    assert(seq!['s', 'e', 'l', 'l', '_', 's', 'h', 'o', 'r', 't'].len() != seq!['s', 'e', 'l', 'l'].len());
}

/// Alpaca order type.
#[derive(Copy, Clone, Debug, PartialEq, Eq, Hash, Structural)]
pub enum AlpacaOrderType {
    Market,
    Limit,
    Stop,
    StopLimit,
    TrailingStop,
    /// Any type this adapter does not model.
    Unknown,
}

/// The engine order type a venue order type maps to.
pub open spec fn spec_order_type_to_nautilus(t: AlpacaOrderType) -> Result<OrderType, ConversionError> {
    match t {
        AlpacaOrderType::Market => Ok(OrderType::Market),
        AlpacaOrderType::Limit => Ok(OrderType::Limit),
        AlpacaOrderType::Stop => Ok(OrderType::StopMarket),
        AlpacaOrderType::StopLimit => Ok(OrderType::StopLimit),
        AlpacaOrderType::TrailingStop => Ok(OrderType::TrailingStopMarket),
        AlpacaOrderType::Unknown => Err(ConversionError::UnrecognisedOrderType),
    }
}

/// The venue order type an engine order type is submitted as.
pub open spec fn spec_order_type_from_nautilus(t: OrderType) -> Result<AlpacaOrderType, ConversionError> {
    match t {
        OrderType::Market => Ok(AlpacaOrderType::Market),
        OrderType::Limit => Ok(AlpacaOrderType::Limit),
        OrderType::StopMarket => Ok(AlpacaOrderType::Stop),
        OrderType::StopLimit => Ok(AlpacaOrderType::StopLimit),
        OrderType::TrailingStopMarket => Ok(AlpacaOrderType::TrailingStop),
        other => Err(ConversionError::UnsupportedOrderType(other)),
    }
}

impl AlpacaOrderType {
    /// Converts to the engine order type.
    pub fn to_nautilus(self) -> (res: Result<OrderType, ConversionError>)
        ensures
            res == spec_order_type_to_nautilus(self),
    {
        match self {
            Self::Market => Ok(OrderType::Market),
            Self::Limit => Ok(OrderType::Limit),
            Self::Stop => Ok(OrderType::StopMarket),
            Self::StopLimit => Ok(OrderType::StopLimit),
            Self::TrailingStop => Ok(OrderType::TrailingStopMarket),
            Self::Unknown => Err(ConversionError::UnrecognisedOrderType),
        }
    }

    /// Converts from the engine order type; types the venue does not offer are refused.
    pub fn from_nautilus(order_type: OrderType) -> (res: Result<Self, ConversionError>)
        ensures
            res == spec_order_type_from_nautilus(order_type),
    {
        match order_type {
            OrderType::Market => Ok(Self::Market),
            OrderType::Limit => Ok(Self::Limit),
            OrderType::StopMarket => Ok(Self::Stop),
            OrderType::StopLimit => Ok(Self::StopLimit),
            OrderType::TrailingStopMarket => Ok(Self::TrailingStop),
            other => Err(ConversionError::UnsupportedOrderType(other)),
        }
    }

    /// Returns the venue's wire spelling (empty for `Unknown`).
    pub fn as_str(&self) -> (res: &'static str)
        ensures
            res@ == order_type_wire(*self),
    {
        match self {
            AlpacaOrderType::Market => {
                proof {
                    reveal_strlit("market");
                }
                "market"
            },
            AlpacaOrderType::Limit => {
                proof {
                    reveal_strlit("limit");
                }
                "limit"
            },
            AlpacaOrderType::Stop => {
                proof {
                    reveal_strlit("stop");
                }
                "stop"
            },
            AlpacaOrderType::StopLimit => {
                proof {
                    reveal_strlit("stop_limit");
                }
                "stop_limit"
            },
            AlpacaOrderType::TrailingStop => {
                proof {
                    reveal_strlit("trailing_stop");
                }
                "trailing_stop"
            },
            AlpacaOrderType::Unknown => {
                proof {
                    reveal_strlit("");
                }
                ""
            },
        }
    }

    /// Reads a wire value, mapping anything unrecognised to `Unknown`.
    pub fn from_wire(raw: &str) -> (res: AlpacaOrderType)
        ensures
            res == order_type_from_wire(raw@),
    {
        if crate::common::text::str_equals(raw, AlpacaOrderType::Market.as_str()) {
            return AlpacaOrderType::Market;
        }
        if crate::common::text::str_equals(raw, AlpacaOrderType::Limit.as_str()) {
            return AlpacaOrderType::Limit;
        }
        if crate::common::text::str_equals(raw, AlpacaOrderType::Stop.as_str()) {
            return AlpacaOrderType::Stop;
        }
        if crate::common::text::str_equals(raw, AlpacaOrderType::StopLimit.as_str()) {
            return AlpacaOrderType::StopLimit;
        }
        if crate::common::text::str_equals(raw, AlpacaOrderType::TrailingStop.as_str()) {
            return AlpacaOrderType::TrailingStop;
        }
        AlpacaOrderType::Unknown
    }
}

/// The venue's wire spelling of each [`AlpacaOrderType`].
pub open spec fn order_type_wire(v: AlpacaOrderType) -> Seq<char> {
    match v {
        AlpacaOrderType::Market => seq!['m', 'a', 'r', 'k', 'e', 't'],
        AlpacaOrderType::Limit => seq!['l', 'i', 'm', 'i', 't'],
        AlpacaOrderType::Stop => seq!['s', 't', 'o', 'p'],
        AlpacaOrderType::StopLimit => seq!['s', 't', 'o', 'p', '_', 'l', 'i', 'm', 'i', 't'],
        AlpacaOrderType::TrailingStop => seq!['t', 'r', 'a', 'i', 'l', 'i', 'n', 'g', '_', 's', 't', 'o', 'p'],
        AlpacaOrderType::Unknown => seq![],
    }
}

/// Reads a wire value; anything unrecognised is [`AlpacaOrderType::Unknown`].
pub open spec fn order_type_from_wire(s: Seq<char>) -> AlpacaOrderType {
    if s == seq!['m', 'a', 'r', 'k', 'e', 't'] {
        AlpacaOrderType::Market
    } else if s == seq!['l', 'i', 'm', 'i', 't'] {
        AlpacaOrderType::Limit
    } else if s == seq!['s', 't', 'o', 'p'] {
        AlpacaOrderType::Stop
    } else if s == seq!['s', 't', 'o', 'p', '_', 'l', 'i', 'm', 'i', 't'] {
        AlpacaOrderType::StopLimit
    } else if s == seq!['t', 'r', 'a', 'i', 'l', 'i', 'n', 'g', '_', 's', 't', 'o', 'p'] {
        AlpacaOrderType::TrailingStop
    } else {
        AlpacaOrderType::Unknown
    }
}

/// Every modelled value's wire spelling reads back as that value.
pub proof fn lemma_order_type_wire_round_trip(v: AlpacaOrderType)
    requires
        v != AlpacaOrderType::Unknown,
    ensures
        order_type_from_wire(order_type_wire(v)) == v,
{
    assert(seq!['l', 'i', 'm', 'i', 't'].len() != seq!['m', 'a', 'r', 'k', 'e', 't'].len());
    assert(seq!['s', 't', 'o', 'p'].len() != seq!['m', 'a', 'r', 'k', 'e', 't'].len());
    assert(seq!['s', 't', 'o', 'p'].len() != seq!['l', 'i', 'm', 'i', 't'].len());
    assert(seq!['s', 't', 'o', 'p', '_', 'l', 'i', 'm', 'i', 't'].len() != seq!['m', 'a', 'r', 'k', 'e', 't'].len());
    assert(seq!['s', 't', 'o', 'p', '_', 'l', 'i', 'm', 'i', 't'].len() != seq!['l', 'i', 'm', 'i', 't'].len());
    assert(seq!['s', 't', 'o', 'p', '_', 'l', 'i', 'm', 'i', 't'].len() != seq!['s', 't', 'o', 'p'].len());
    assert(seq!['t', 'r', 'a', 'i', 'l', 'i', 'n', 'g', '_', 's', 't', 'o', 'p'].len() != seq!['m', 'a', 'r', 'k', 'e', 't'].len());
    assert(seq!['t', 'r', 'a', 'i', 'l', 'i', 'n', 'g', '_', 's', 't', 'o', 'p'].len() != seq!['l', 'i', 'm', 'i', 't'].len());
    assert(seq!['t', 'r', 'a', 'i', 'l', 'i', 'n', 'g', '_', 's', 't', 'o', 'p'].len() != seq!['s', 't', 'o', 'p'].len());
    assert(seq!['t', 'r', 'a', 'i', 'l', 'i', 'n', 'g', '_', 's', 't', 'o', 'p'].len() != seq!['s', 't', 'o', 'p', '_', 'l', 'i', 'm', 'i', 't'].len());
}

/// Alpaca time in force.
#[derive(Copy, Clone, Debug, PartialEq, Eq, Hash, Structural)]
pub enum AlpacaTimeInForce {
    Day,
    Gtc,
    /// Market on open / limit on open.
    Opg,
    /// Market on close / limit on close.
    Cls,
    Ioc,
    Fok,
    /// Any value this adapter does not model.
    Unknown,
}

/// The engine time in force a venue value maps to.
pub open spec fn spec_tif_to_nautilus(t: AlpacaTimeInForce) -> Result<TimeInForce, ConversionError> {
    match t {
        AlpacaTimeInForce::Day => Ok(TimeInForce::Day),
        AlpacaTimeInForce::Gtc => Ok(TimeInForce::Gtc),
        AlpacaTimeInForce::Opg => Ok(TimeInForce::AtTheOpen),
        AlpacaTimeInForce::Cls => Ok(TimeInForce::AtTheClose),
        AlpacaTimeInForce::Ioc => Ok(TimeInForce::Ioc),
        AlpacaTimeInForce::Fok => Ok(TimeInForce::Fok),
        AlpacaTimeInForce::Unknown => Err(ConversionError::UnrecognisedTimeInForce),
    }
}

/// The venue value an engine time in force is submitted as; `GTD` has none.
pub open spec fn spec_tif_from_nautilus(t: TimeInForce) -> Result<AlpacaTimeInForce, ConversionError> {
    match t {
        TimeInForce::Day => Ok(AlpacaTimeInForce::Day),
        TimeInForce::Gtc => Ok(AlpacaTimeInForce::Gtc),
        TimeInForce::AtTheOpen => Ok(AlpacaTimeInForce::Opg),
        TimeInForce::AtTheClose => Ok(AlpacaTimeInForce::Cls),
        TimeInForce::Ioc => Ok(AlpacaTimeInForce::Ioc),
        TimeInForce::Fok => Ok(AlpacaTimeInForce::Fok),
        TimeInForce::Gtd => Err(ConversionError::GtdUnsupported),
    }
}

impl AlpacaTimeInForce {
    /// Converts to the engine time in force.
    pub fn to_nautilus(self) -> (res: Result<TimeInForce, ConversionError>)
        ensures
            res == spec_tif_to_nautilus(self),
    {
        match self {
            Self::Day => Ok(TimeInForce::Day),
            Self::Gtc => Ok(TimeInForce::Gtc),
            Self::Opg => Ok(TimeInForce::AtTheOpen),
            Self::Cls => Ok(TimeInForce::AtTheClose),
            Self::Ioc => Ok(TimeInForce::Ioc),
            Self::Fok => Ok(TimeInForce::Fok),
            Self::Unknown => Err(ConversionError::UnrecognisedTimeInForce),
        }
    }

    /// Converts from the engine time in force.
    ///
    /// `GTD` has no venue equivalent: Alpaca derives an expiry from the time in force rather than
    /// accepting one, so an explicit expiry cannot be honoured and is refused instead of being
    /// silently widened to `GTC`.
    pub fn from_nautilus(time_in_force: TimeInForce) -> (res: Result<Self, ConversionError>)
        ensures
            res == spec_tif_from_nautilus(time_in_force),
    {
        match time_in_force {
            TimeInForce::Day => Ok(Self::Day),
            TimeInForce::Gtc => Ok(Self::Gtc),
            TimeInForce::AtTheOpen => Ok(Self::Opg),
            TimeInForce::AtTheClose => Ok(Self::Cls),
            TimeInForce::Ioc => Ok(Self::Ioc),
            TimeInForce::Fok => Ok(Self::Fok),
            TimeInForce::Gtd => Err(ConversionError::GtdUnsupported),
        }
    }

    /// Returns the venue's wire spelling (empty for `Unknown`).
    pub fn as_str(&self) -> (res: &'static str)
        ensures
            res@ == tif_wire(*self),
    {
        match self {
            AlpacaTimeInForce::Day => {
                proof {
                    reveal_strlit("day");
                }
                "day"
            },
            AlpacaTimeInForce::Gtc => {
                proof {
                    reveal_strlit("gtc");
                }
                "gtc"
            },
            AlpacaTimeInForce::Opg => {
                proof {
                    reveal_strlit("opg");
                }
                "opg"
            },
            AlpacaTimeInForce::Cls => {
                proof {
                    reveal_strlit("cls");
                }
                "cls"
            },
            AlpacaTimeInForce::Ioc => {
                proof {
                    reveal_strlit("ioc");
                }
                "ioc"
            },
            AlpacaTimeInForce::Fok => {
                proof {
                    reveal_strlit("fok");
                }
                "fok"
            },
            AlpacaTimeInForce::Unknown => {
                proof {
                    reveal_strlit("");
                }
                ""
            },
        }
    }

    /// Reads a wire value, mapping anything unrecognised to `Unknown`.
    pub fn from_wire(raw: &str) -> (res: AlpacaTimeInForce)
        ensures
            res == tif_from_wire(raw@),
    {
        if crate::common::text::str_equals(raw, AlpacaTimeInForce::Day.as_str()) {
            return AlpacaTimeInForce::Day;
        }
        if crate::common::text::str_equals(raw, AlpacaTimeInForce::Gtc.as_str()) {
            return AlpacaTimeInForce::Gtc;
        }
        if crate::common::text::str_equals(raw, AlpacaTimeInForce::Opg.as_str()) {
            return AlpacaTimeInForce::Opg;
        }
        if crate::common::text::str_equals(raw, AlpacaTimeInForce::Cls.as_str()) {
            return AlpacaTimeInForce::Cls;
        }
        if crate::common::text::str_equals(raw, AlpacaTimeInForce::Ioc.as_str()) {
            return AlpacaTimeInForce::Ioc;
        }
        if crate::common::text::str_equals(raw, AlpacaTimeInForce::Fok.as_str()) {
            return AlpacaTimeInForce::Fok;
        }
        AlpacaTimeInForce::Unknown
    }
}

/// The venue's wire spelling of each [`AlpacaTimeInForce`].
pub open spec fn tif_wire(v: AlpacaTimeInForce) -> Seq<char> {
    match v {
        AlpacaTimeInForce::Day => seq!['d', 'a', 'y'],
        AlpacaTimeInForce::Gtc => seq!['g', 't', 'c'],
        AlpacaTimeInForce::Opg => seq!['o', 'p', 'g'],
        AlpacaTimeInForce::Cls => seq!['c', 'l', 's'],
        AlpacaTimeInForce::Ioc => seq!['i', 'o', 'c'],
        AlpacaTimeInForce::Fok => seq!['f', 'o', 'k'],
        AlpacaTimeInForce::Unknown => seq![],
    }
}

/// Reads a wire value; anything unrecognised is [`AlpacaTimeInForce::Unknown`].
pub open spec fn tif_from_wire(s: Seq<char>) -> AlpacaTimeInForce {
    if s == seq!['d', 'a', 'y'] {
        AlpacaTimeInForce::Day
    } else if s == seq!['g', 't', 'c'] {
        AlpacaTimeInForce::Gtc
    } else if s == seq!['o', 'p', 'g'] {
        AlpacaTimeInForce::Opg
    } else if s == seq!['c', 'l', 's'] {
        AlpacaTimeInForce::Cls
    } else if s == seq!['i', 'o', 'c'] {
        AlpacaTimeInForce::Ioc
    } else if s == seq!['f', 'o', 'k'] {
        AlpacaTimeInForce::Fok
    } else {
        AlpacaTimeInForce::Unknown
    }
}

/// Every modelled value's wire spelling reads back as that value.
pub proof fn lemma_tif_wire_round_trip(v: AlpacaTimeInForce)
    requires
        v != AlpacaTimeInForce::Unknown,
    ensures
        tif_from_wire(tif_wire(v)) == v,
{
    assert(seq!['g', 't', 'c'][0] != seq!['d', 'a', 'y'][0]);
    assert(seq!['o', 'p', 'g'][0] != seq!['d', 'a', 'y'][0]);
    assert(seq!['o', 'p', 'g'][0] != seq!['g', 't', 'c'][0]);
    assert(seq!['c', 'l', 's'][0] != seq!['d', 'a', 'y'][0]);
    assert(seq!['c', 'l', 's'][0] != seq!['g', 't', 'c'][0]);
    assert(seq!['c', 'l', 's'][0] != seq!['o', 'p', 'g'][0]);
    assert(seq!['i', 'o', 'c'][0] != seq!['d', 'a', 'y'][0]);
    assert(seq!['i', 'o', 'c'][0] != seq!['g', 't', 'c'][0]);
    assert(seq!['i', 'o', 'c'][0] != seq!['o', 'p', 'g'][0]);
    assert(seq!['i', 'o', 'c'][0] != seq!['c', 'l', 's'][0]);
    assert(seq!['f', 'o', 'k'][0] != seq!['d', 'a', 'y'][0]);
    assert(seq!['f', 'o', 'k'][0] != seq!['g', 't', 'c'][0]);
    assert(seq!['f', 'o', 'k'][0] != seq!['o', 'p', 'g'][0]);
    assert(seq!['f', 'o', 'k'][0] != seq!['c', 'l', 's'][0]);
    assert(seq!['f', 'o', 'k'][0] != seq!['i', 'o', 'c'][0]);
}

/// Alpaca order status.
#[derive(Copy, Clone, Debug, PartialEq, Eq, Hash, Structural)]
pub enum AlpacaOrderStatus {
    /// Accepted by the venue and working.
    New,
    /// Received but not yet working.
    PendingNew,
    Accepted,
    AcceptedForBidding,
    PartiallyFilled,
    Filled,
    DoneForDay,
    Canceled,
    Expired,
    Rejected,
    Suspended,
    PendingCancel,
    PendingReplace,
    PendingReview,
    /// Superseded by a replacement order.
    Replaced,
    Stopped,
    Calculated,
    /// Held pending the market session.
    Held,
    /// Any status this adapter does not model.
    Unknown,
}

/// The engine status a venue status maps to.
pub open spec fn spec_status_to_nautilus(s: AlpacaOrderStatus) -> Result<OrderStatus, ConversionError> {
    match s {
        AlpacaOrderStatus::PendingNew => Ok(OrderStatus::Submitted),
        AlpacaOrderStatus::New | AlpacaOrderStatus::Accepted | AlpacaOrderStatus::AcceptedForBidding
        | AlpacaOrderStatus::Held | AlpacaOrderStatus::Calculated | AlpacaOrderStatus::Stopped => Ok(
            OrderStatus::Accepted,
        ),
        AlpacaOrderStatus::PartiallyFilled => Ok(OrderStatus::PartiallyFilled),
        AlpacaOrderStatus::Filled => Ok(OrderStatus::Filled),
        AlpacaOrderStatus::DoneForDay | AlpacaOrderStatus::Expired => Ok(OrderStatus::Expired),
        AlpacaOrderStatus::Canceled => Ok(OrderStatus::Canceled),
        AlpacaOrderStatus::Rejected | AlpacaOrderStatus::Suspended => Ok(OrderStatus::Rejected),
        AlpacaOrderStatus::PendingCancel => Ok(OrderStatus::PendingCancel),
        AlpacaOrderStatus::PendingReplace | AlpacaOrderStatus::PendingReview => Ok(
            OrderStatus::PendingUpdate,
        ),
        AlpacaOrderStatus::Replaced => Err(ConversionError::ReplacedStatus),
        AlpacaOrderStatus::Unknown => Err(ConversionError::UnrecognisedStatus),
    }
}

/// Statuses after which no further activity is expected on the order.
pub open spec fn spec_is_terminal(s: AlpacaOrderStatus) -> bool {
    ||| s == AlpacaOrderStatus::Filled
    ||| s == AlpacaOrderStatus::Canceled
    ||| s == AlpacaOrderStatus::Expired
    ||| s == AlpacaOrderStatus::Rejected
    ||| s == AlpacaOrderStatus::DoneForDay
    ||| s == AlpacaOrderStatus::Replaced
}

impl AlpacaOrderStatus {
    /// Converts to the engine order status.
    ///
    /// `replaced` has no engine equivalent (see [`Self::is_superseded`]) and is refused, as is
    /// an unrecognised status.
    pub fn to_nautilus(self) -> (res: Result<OrderStatus, ConversionError>)
        ensures
            res == spec_status_to_nautilus(self),
    {
        match self {
            Self::PendingNew => Ok(OrderStatus::Submitted),
            Self::New | Self::Accepted | Self::AcceptedForBidding | Self::Held | Self::Calculated
            | Self::Stopped => Ok(OrderStatus::Accepted),
            Self::PartiallyFilled => Ok(OrderStatus::PartiallyFilled),
            Self::Filled => Ok(OrderStatus::Filled),
            // The venue closes out working orders at the end of the session; the order is no
            // longer live, which is what `Expired` conveys.
            Self::DoneForDay | Self::Expired => Ok(OrderStatus::Expired),
            Self::Canceled => Ok(OrderStatus::Canceled),
            Self::Rejected | Self::Suspended => Ok(OrderStatus::Rejected),
            Self::PendingCancel => Ok(OrderStatus::PendingCancel),
            Self::PendingReplace | Self::PendingReview => Ok(OrderStatus::PendingUpdate),
            Self::Replaced => Err(ConversionError::ReplacedStatus),
            Self::Unknown => Err(ConversionError::UnrecognisedStatus),
        }
    }

    /// Returns true when the order was superseded by a replacement rather than ending.
    ///
    /// Alpaca implements an amendment as a new order: the original moves to `replaced` and a
    /// fresh venue identifier takes over.
    pub fn is_superseded(self) -> (res: bool)
        ensures
            res == (self == AlpacaOrderStatus::Replaced),
    {
        matches!(self, Self::Replaced)
    }

    /// Returns true when no further activity is expected on the order.
    pub fn is_terminal(self) -> (res: bool)
        ensures
            res == spec_is_terminal(self),
    {
        matches!(
            self,
            Self::Filled | Self::Canceled | Self::Expired | Self::Rejected | Self::DoneForDay
                | Self::Replaced
        )
    }

    /// Returns the venue's wire spelling (empty for `Unknown`).
    pub fn as_str(&self) -> (res: &'static str)
        ensures
            res@ == status_wire(*self),
    {
        match self {
            AlpacaOrderStatus::New => {
                proof {
                    reveal_strlit("new");
                }
                "new"
            },
            AlpacaOrderStatus::PendingNew => {
                proof {
                    reveal_strlit("pending_new");
                }
                "pending_new"
            },
            AlpacaOrderStatus::Accepted => {
                proof {
                    reveal_strlit("accepted");
                }
                "accepted"
            },
            AlpacaOrderStatus::AcceptedForBidding => {
                proof {
                    reveal_strlit("accepted_for_bidding");
                }
                "accepted_for_bidding"
            },
            AlpacaOrderStatus::PartiallyFilled => {
                proof {
                    reveal_strlit("partially_filled");
                }
                "partially_filled"
            },
            AlpacaOrderStatus::Filled => {
                proof {
                    reveal_strlit("filled");
                }
                "filled"
            },
            AlpacaOrderStatus::DoneForDay => {
                proof {
                    reveal_strlit("done_for_day");
                }
                "done_for_day"
            },
            AlpacaOrderStatus::Canceled => {
                proof {
                    reveal_strlit("canceled");
                }
                "canceled"
            },
            AlpacaOrderStatus::Expired => {
                proof {
                    reveal_strlit("expired");
                }
                "expired"
            },
            AlpacaOrderStatus::Rejected => {
                proof {
                    reveal_strlit("rejected");
                }
                "rejected"
            },
            AlpacaOrderStatus::Suspended => {
                proof {
                    reveal_strlit("suspended");
                }
                "suspended"
            },
            AlpacaOrderStatus::PendingCancel => {
                proof {
                    reveal_strlit("pending_cancel");
                }
                "pending_cancel"
            },
            AlpacaOrderStatus::PendingReplace => {
                proof {
                    reveal_strlit("pending_replace");
                }
                "pending_replace"
            },
            AlpacaOrderStatus::PendingReview => {
                proof {
                    reveal_strlit("pending_review");
                }
                "pending_review"
            },
            AlpacaOrderStatus::Replaced => {
                proof {
                    reveal_strlit("replaced");
                }
                "replaced"
            },
            AlpacaOrderStatus::Stopped => {
                proof {
                    reveal_strlit("stopped");
                }
                "stopped"
            },
            AlpacaOrderStatus::Calculated => {
                proof {
                    reveal_strlit("calculated");
                }
                "calculated"
            },
            AlpacaOrderStatus::Held => {
                proof {
                    reveal_strlit("held");
                }
                "held"
            },
            AlpacaOrderStatus::Unknown => {
                proof {
                    reveal_strlit("");
                }
                ""
            },
        }
    }

    /// Reads a wire value, mapping anything unrecognised to `Unknown`.
    pub fn from_wire(raw: &str) -> (res: AlpacaOrderStatus)
        ensures
            res == status_from_wire(raw@),
    {
        if crate::common::text::str_equals(raw, AlpacaOrderStatus::New.as_str()) {
            return AlpacaOrderStatus::New;
        }
        if crate::common::text::str_equals(raw, AlpacaOrderStatus::PendingNew.as_str()) {
            return AlpacaOrderStatus::PendingNew;
        }
        if crate::common::text::str_equals(raw, AlpacaOrderStatus::Accepted.as_str()) {
            return AlpacaOrderStatus::Accepted;
        }
        if crate::common::text::str_equals(raw, AlpacaOrderStatus::AcceptedForBidding.as_str()) {
            return AlpacaOrderStatus::AcceptedForBidding;
        }
        if crate::common::text::str_equals(raw, AlpacaOrderStatus::PartiallyFilled.as_str()) {
            return AlpacaOrderStatus::PartiallyFilled;
        }
        if crate::common::text::str_equals(raw, AlpacaOrderStatus::Filled.as_str()) {
            return AlpacaOrderStatus::Filled;
        }
        if crate::common::text::str_equals(raw, AlpacaOrderStatus::DoneForDay.as_str()) {
            return AlpacaOrderStatus::DoneForDay;
        }
        if crate::common::text::str_equals(raw, AlpacaOrderStatus::Canceled.as_str()) {
            return AlpacaOrderStatus::Canceled;
        }
        if crate::common::text::str_equals(raw, AlpacaOrderStatus::Expired.as_str()) {
            return AlpacaOrderStatus::Expired;
        }
        if crate::common::text::str_equals(raw, AlpacaOrderStatus::Rejected.as_str()) {
            return AlpacaOrderStatus::Rejected;
        }
        if crate::common::text::str_equals(raw, AlpacaOrderStatus::Suspended.as_str()) {
            return AlpacaOrderStatus::Suspended;
        }
        if crate::common::text::str_equals(raw, AlpacaOrderStatus::PendingCancel.as_str()) {
            return AlpacaOrderStatus::PendingCancel;
        }
        if crate::common::text::str_equals(raw, AlpacaOrderStatus::PendingReplace.as_str()) {
            return AlpacaOrderStatus::PendingReplace;
        }
        if crate::common::text::str_equals(raw, AlpacaOrderStatus::PendingReview.as_str()) {
            return AlpacaOrderStatus::PendingReview;
        }
        if crate::common::text::str_equals(raw, AlpacaOrderStatus::Replaced.as_str()) {
            return AlpacaOrderStatus::Replaced;
        }
        if crate::common::text::str_equals(raw, AlpacaOrderStatus::Stopped.as_str()) {
            return AlpacaOrderStatus::Stopped;
        }
        if crate::common::text::str_equals(raw, AlpacaOrderStatus::Calculated.as_str()) {
            return AlpacaOrderStatus::Calculated;
        }
        if crate::common::text::str_equals(raw, AlpacaOrderStatus::Held.as_str()) {
            return AlpacaOrderStatus::Held;
        }
        AlpacaOrderStatus::Unknown
    }
}

/// The venue's wire spelling of each [`AlpacaOrderStatus`].
pub open spec fn status_wire(v: AlpacaOrderStatus) -> Seq<char> {
    match v {
        AlpacaOrderStatus::New => seq!['n', 'e', 'w'],
        AlpacaOrderStatus::PendingNew => seq!['p', 'e', 'n', 'd', 'i', 'n', 'g', '_', 'n', 'e', 'w'],
        AlpacaOrderStatus::Accepted => seq!['a', 'c', 'c', 'e', 'p', 't', 'e', 'd'],
        AlpacaOrderStatus::AcceptedForBidding => seq!['a', 'c', 'c', 'e', 'p', 't', 'e', 'd', '_', 'f', 'o', 'r', '_', 'b', 'i', 'd', 'd', 'i', 'n', 'g'],
        AlpacaOrderStatus::PartiallyFilled => seq!['p', 'a', 'r', 't', 'i', 'a', 'l', 'l', 'y', '_', 'f', 'i', 'l', 'l', 'e', 'd'],
        AlpacaOrderStatus::Filled => seq!['f', 'i', 'l', 'l', 'e', 'd'],
        AlpacaOrderStatus::DoneForDay => seq!['d', 'o', 'n', 'e', '_', 'f', 'o', 'r', '_', 'd', 'a', 'y'],
        AlpacaOrderStatus::Canceled => seq!['c', 'a', 'n', 'c', 'e', 'l', 'e', 'd'],
        AlpacaOrderStatus::Expired => seq!['e', 'x', 'p', 'i', 'r', 'e', 'd'],
        AlpacaOrderStatus::Rejected => seq!['r', 'e', 'j', 'e', 'c', 't', 'e', 'd'],
        AlpacaOrderStatus::Suspended => seq!['s', 'u', 's', 'p', 'e', 'n', 'd', 'e', 'd'],
        AlpacaOrderStatus::PendingCancel => seq!['p', 'e', 'n', 'd', 'i', 'n', 'g', '_', 'c', 'a', 'n', 'c', 'e', 'l'],
        AlpacaOrderStatus::PendingReplace => seq!['p', 'e', 'n', 'd', 'i', 'n', 'g', '_', 'r', 'e', 'p', 'l', 'a', 'c', 'e'],
        AlpacaOrderStatus::PendingReview => seq!['p', 'e', 'n', 'd', 'i', 'n', 'g', '_', 'r', 'e', 'v', 'i', 'e', 'w'],
        AlpacaOrderStatus::Replaced => seq!['r', 'e', 'p', 'l', 'a', 'c', 'e', 'd'],
        AlpacaOrderStatus::Stopped => seq!['s', 't', 'o', 'p', 'p', 'e', 'd'],
        AlpacaOrderStatus::Calculated => seq!['c', 'a', 'l', 'c', 'u', 'l', 'a', 't', 'e', 'd'],
        AlpacaOrderStatus::Held => seq!['h', 'e', 'l', 'd'],
        AlpacaOrderStatus::Unknown => seq![],
    }
}

/// Reads a wire value; anything unrecognised is [`AlpacaOrderStatus::Unknown`].
pub open spec fn status_from_wire(s: Seq<char>) -> AlpacaOrderStatus {
    if s == seq!['n', 'e', 'w'] {
        AlpacaOrderStatus::New
    } else if s == seq!['p', 'e', 'n', 'd', 'i', 'n', 'g', '_', 'n', 'e', 'w'] {
        AlpacaOrderStatus::PendingNew
    } else if s == seq!['a', 'c', 'c', 'e', 'p', 't', 'e', 'd'] {
        AlpacaOrderStatus::Accepted
    } else if s == seq!['a', 'c', 'c', 'e', 'p', 't', 'e', 'd', '_', 'f', 'o', 'r', '_', 'b', 'i', 'd', 'd', 'i', 'n', 'g'] {
        AlpacaOrderStatus::AcceptedForBidding
    } else if s == seq!['p', 'a', 'r', 't', 'i', 'a', 'l', 'l', 'y', '_', 'f', 'i', 'l', 'l', 'e', 'd'] {
        AlpacaOrderStatus::PartiallyFilled
    } else if s == seq!['f', 'i', 'l', 'l', 'e', 'd'] {
        AlpacaOrderStatus::Filled
    } else if s == seq!['d', 'o', 'n', 'e', '_', 'f', 'o', 'r', '_', 'd', 'a', 'y'] {
        AlpacaOrderStatus::DoneForDay
    } else if s == seq!['c', 'a', 'n', 'c', 'e', 'l', 'e', 'd'] {
        AlpacaOrderStatus::Canceled
    } else if s == seq!['e', 'x', 'p', 'i', 'r', 'e', 'd'] {
        AlpacaOrderStatus::Expired
    } else if s == seq!['r', 'e', 'j', 'e', 'c', 't', 'e', 'd'] {
        AlpacaOrderStatus::Rejected
    } else if s == seq!['s', 'u', 's', 'p', 'e', 'n', 'd', 'e', 'd'] {
        AlpacaOrderStatus::Suspended
    } else if s == seq!['p', 'e', 'n', 'd', 'i', 'n', 'g', '_', 'c', 'a', 'n', 'c', 'e', 'l'] {
        AlpacaOrderStatus::PendingCancel
    } else if s == seq!['p', 'e', 'n', 'd', 'i', 'n', 'g', '_', 'r', 'e', 'p', 'l', 'a', 'c', 'e'] {
        AlpacaOrderStatus::PendingReplace
    } else if s == seq!['p', 'e', 'n', 'd', 'i', 'n', 'g', '_', 'r', 'e', 'v', 'i', 'e', 'w'] {
        AlpacaOrderStatus::PendingReview
    } else if s == seq!['r', 'e', 'p', 'l', 'a', 'c', 'e', 'd'] {
        AlpacaOrderStatus::Replaced
    } else if s == seq!['s', 't', 'o', 'p', 'p', 'e', 'd'] {
        AlpacaOrderStatus::Stopped
    } else if s == seq!['c', 'a', 'l', 'c', 'u', 'l', 'a', 't', 'e', 'd'] {
        AlpacaOrderStatus::Calculated
    } else if s == seq!['h', 'e', 'l', 'd'] {
        AlpacaOrderStatus::Held
    } else {
        AlpacaOrderStatus::Unknown
    }
}

/// Every modelled value's wire spelling reads back as that value.
pub proof fn lemma_status_wire_round_trip(v: AlpacaOrderStatus)
    requires
        v != AlpacaOrderStatus::Unknown,
    ensures
        status_from_wire(status_wire(v)) == v,
{
    assert(seq!['p', 'e', 'n', 'd', 'i', 'n', 'g', '_', 'n', 'e', 'w'].len() != seq!['n', 'e', 'w'].len());
    assert(seq!['a', 'c', 'c', 'e', 'p', 't', 'e', 'd'].len() != seq!['n', 'e', 'w'].len());
    assert(seq!['a', 'c', 'c', 'e', 'p', 't', 'e', 'd'].len() != seq!['p', 'e', 'n', 'd', 'i', 'n', 'g', '_', 'n', 'e', 'w'].len());
    assert(seq!['a', 'c', 'c', 'e', 'p', 't', 'e', 'd', '_', 'f', 'o', 'r', '_', 'b', 'i', 'd', 'd', 'i', 'n', 'g'].len() != seq!['n', 'e', 'w'].len());
    assert(seq!['a', 'c', 'c', 'e', 'p', 't', 'e', 'd', '_', 'f', 'o', 'r', '_', 'b', 'i', 'd', 'd', 'i', 'n', 'g'].len() != seq!['p', 'e', 'n', 'd', 'i', 'n', 'g', '_', 'n', 'e', 'w'].len());
    assert(seq!['a', 'c', 'c', 'e', 'p', 't', 'e', 'd', '_', 'f', 'o', 'r', '_', 'b', 'i', 'd', 'd', 'i', 'n', 'g'].len() != seq!['a', 'c', 'c', 'e', 'p', 't', 'e', 'd'].len());
    assert(seq!['p', 'a', 'r', 't', 'i', 'a', 'l', 'l', 'y', '_', 'f', 'i', 'l', 'l', 'e', 'd'].len() != seq!['n', 'e', 'w'].len());
    assert(seq!['p', 'a', 'r', 't', 'i', 'a', 'l', 'l', 'y', '_', 'f', 'i', 'l', 'l', 'e', 'd'].len() != seq!['p', 'e', 'n', 'd', 'i', 'n', 'g', '_', 'n', 'e', 'w'].len());
    assert(seq!['p', 'a', 'r', 't', 'i', 'a', 'l', 'l', 'y', '_', 'f', 'i', 'l', 'l', 'e', 'd'].len() != seq!['a', 'c', 'c', 'e', 'p', 't', 'e', 'd'].len());
    assert(seq!['p', 'a', 'r', 't', 'i', 'a', 'l', 'l', 'y', '_', 'f', 'i', 'l', 'l', 'e', 'd'].len() != seq!['a', 'c', 'c', 'e', 'p', 't', 'e', 'd', '_', 'f', 'o', 'r', '_', 'b', 'i', 'd', 'd', 'i', 'n', 'g'].len());
    assert(seq!['f', 'i', 'l', 'l', 'e', 'd'].len() != seq!['n', 'e', 'w'].len());
    assert(seq!['f', 'i', 'l', 'l', 'e', 'd'].len() != seq!['p', 'e', 'n', 'd', 'i', 'n', 'g', '_', 'n', 'e', 'w'].len());
    assert(seq!['f', 'i', 'l', 'l', 'e', 'd'].len() != seq!['a', 'c', 'c', 'e', 'p', 't', 'e', 'd'].len());
    assert(seq!['f', 'i', 'l', 'l', 'e', 'd'].len() != seq!['a', 'c', 'c', 'e', 'p', 't', 'e', 'd', '_', 'f', 'o', 'r', '_', 'b', 'i', 'd', 'd', 'i', 'n', 'g'].len());
    assert(seq!['f', 'i', 'l', 'l', 'e', 'd'].len() != seq!['p', 'a', 'r', 't', 'i', 'a', 'l', 'l', 'y', '_', 'f', 'i', 'l', 'l', 'e', 'd'].len());
    assert(seq!['d', 'o', 'n', 'e', '_', 'f', 'o', 'r', '_', 'd', 'a', 'y'].len() != seq!['n', 'e', 'w'].len());
    assert(seq!['d', 'o', 'n', 'e', '_', 'f', 'o', 'r', '_', 'd', 'a', 'y'].len() != seq!['p', 'e', 'n', 'd', 'i', 'n', 'g', '_', 'n', 'e', 'w'].len());
    assert(seq!['d', 'o', 'n', 'e', '_', 'f', 'o', 'r', '_', 'd', 'a', 'y'].len() != seq!['a', 'c', 'c', 'e', 'p', 't', 'e', 'd'].len());
    assert(seq!['d', 'o', 'n', 'e', '_', 'f', 'o', 'r', '_', 'd', 'a', 'y'].len() != seq!['a', 'c', 'c', 'e', 'p', 't', 'e', 'd', '_', 'f', 'o', 'r', '_', 'b', 'i', 'd', 'd', 'i', 'n', 'g'].len());
    assert(seq!['d', 'o', 'n', 'e', '_', 'f', 'o', 'r', '_', 'd', 'a', 'y'].len() != seq!['p', 'a', 'r', 't', 'i', 'a', 'l', 'l', 'y', '_', 'f', 'i', 'l', 'l', 'e', 'd'].len());
    assert(seq!['d', 'o', 'n', 'e', '_', 'f', 'o', 'r', '_', 'd', 'a', 'y'].len() != seq!['f', 'i', 'l', 'l', 'e', 'd'].len());
    assert(seq!['c', 'a', 'n', 'c', 'e', 'l', 'e', 'd'].len() != seq!['n', 'e', 'w'].len());
    assert(seq!['c', 'a', 'n', 'c', 'e', 'l', 'e', 'd'].len() != seq!['p', 'e', 'n', 'd', 'i', 'n', 'g', '_', 'n', 'e', 'w'].len());
    assert(seq!['c', 'a', 'n', 'c', 'e', 'l', 'e', 'd'][0] != seq!['a', 'c', 'c', 'e', 'p', 't', 'e', 'd'][0]);
    assert(seq!['c', 'a', 'n', 'c', 'e', 'l', 'e', 'd'].len() != seq!['a', 'c', 'c', 'e', 'p', 't', 'e', 'd', '_', 'f', 'o', 'r', '_', 'b', 'i', 'd', 'd', 'i', 'n', 'g'].len());
    assert(seq!['c', 'a', 'n', 'c', 'e', 'l', 'e', 'd'].len() != seq!['p', 'a', 'r', 't', 'i', 'a', 'l', 'l', 'y', '_', 'f', 'i', 'l', 'l', 'e', 'd'].len());
    assert(seq!['c', 'a', 'n', 'c', 'e', 'l', 'e', 'd'].len() != seq!['f', 'i', 'l', 'l', 'e', 'd'].len());
    assert(seq!['c', 'a', 'n', 'c', 'e', 'l', 'e', 'd'].len() != seq!['d', 'o', 'n', 'e', '_', 'f', 'o', 'r', '_', 'd', 'a', 'y'].len());
    assert(seq!['e', 'x', 'p', 'i', 'r', 'e', 'd'].len() != seq!['n', 'e', 'w'].len());
    assert(seq!['e', 'x', 'p', 'i', 'r', 'e', 'd'].len() != seq!['p', 'e', 'n', 'd', 'i', 'n', 'g', '_', 'n', 'e', 'w'].len());
    assert(seq!['e', 'x', 'p', 'i', 'r', 'e', 'd'].len() != seq!['a', 'c', 'c', 'e', 'p', 't', 'e', 'd'].len());
    assert(seq!['e', 'x', 'p', 'i', 'r', 'e', 'd'].len() != seq!['a', 'c', 'c', 'e', 'p', 't', 'e', 'd', '_', 'f', 'o', 'r', '_', 'b', 'i', 'd', 'd', 'i', 'n', 'g'].len());
    assert(seq!['e', 'x', 'p', 'i', 'r', 'e', 'd'].len() != seq!['p', 'a', 'r', 't', 'i', 'a', 'l', 'l', 'y', '_', 'f', 'i', 'l', 'l', 'e', 'd'].len());
    assert(seq!['e', 'x', 'p', 'i', 'r', 'e', 'd'].len() != seq!['f', 'i', 'l', 'l', 'e', 'd'].len());
    assert(seq!['e', 'x', 'p', 'i', 'r', 'e', 'd'].len() != seq!['d', 'o', 'n', 'e', '_', 'f', 'o', 'r', '_', 'd', 'a', 'y'].len());
    assert(seq!['e', 'x', 'p', 'i', 'r', 'e', 'd'].len() != seq!['c', 'a', 'n', 'c', 'e', 'l', 'e', 'd'].len());
    assert(seq!['r', 'e', 'j', 'e', 'c', 't', 'e', 'd'].len() != seq!['n', 'e', 'w'].len());
    assert(seq!['r', 'e', 'j', 'e', 'c', 't', 'e', 'd'].len() != seq!['p', 'e', 'n', 'd', 'i', 'n', 'g', '_', 'n', 'e', 'w'].len());
    assert(seq!['r', 'e', 'j', 'e', 'c', 't', 'e', 'd'][0] != seq!['a', 'c', 'c', 'e', 'p', 't', 'e', 'd'][0]);
    assert(seq!['r', 'e', 'j', 'e', 'c', 't', 'e', 'd'].len() != seq!['a', 'c', 'c', 'e', 'p', 't', 'e', 'd', '_', 'f', 'o', 'r', '_', 'b', 'i', 'd', 'd', 'i', 'n', 'g'].len());
    assert(seq!['r', 'e', 'j', 'e', 'c', 't', 'e', 'd'].len() != seq!['p', 'a', 'r', 't', 'i', 'a', 'l', 'l', 'y', '_', 'f', 'i', 'l', 'l', 'e', 'd'].len());
    assert(seq!['r', 'e', 'j', 'e', 'c', 't', 'e', 'd'].len() != seq!['f', 'i', 'l', 'l', 'e', 'd'].len());
    assert(seq!['r', 'e', 'j', 'e', 'c', 't', 'e', 'd'].len() != seq!['d', 'o', 'n', 'e', '_', 'f', 'o', 'r', '_', 'd', 'a', 'y'].len());
    assert(seq!['r', 'e', 'j', 'e', 'c', 't', 'e', 'd'][0] != seq!['c', 'a', 'n', 'c', 'e', 'l', 'e', 'd'][0]);
    assert(seq!['r', 'e', 'j', 'e', 'c', 't', 'e', 'd'].len() != seq!['e', 'x', 'p', 'i', 'r', 'e', 'd'].len());
    assert(seq!['s', 'u', 's', 'p', 'e', 'n', 'd', 'e', 'd'].len() != seq!['n', 'e', 'w'].len());
    assert(seq!['s', 'u', 's', 'p', 'e', 'n', 'd', 'e', 'd'].len() != seq!['p', 'e', 'n', 'd', 'i', 'n', 'g', '_', 'n', 'e', 'w'].len());
    assert(seq!['s', 'u', 's', 'p', 'e', 'n', 'd', 'e', 'd'].len() != seq!['a', 'c', 'c', 'e', 'p', 't', 'e', 'd'].len());
    assert(seq!['s', 'u', 's', 'p', 'e', 'n', 'd', 'e', 'd'].len() != seq!['a', 'c', 'c', 'e', 'p', 't', 'e', 'd', '_', 'f', 'o', 'r', '_', 'b', 'i', 'd', 'd', 'i', 'n', 'g'].len());
    assert(seq!['s', 'u', 's', 'p', 'e', 'n', 'd', 'e', 'd'].len() != seq!['p', 'a', 'r', 't', 'i', 'a', 'l', 'l', 'y', '_', 'f', 'i', 'l', 'l', 'e', 'd'].len());
    assert(seq!['s', 'u', 's', 'p', 'e', 'n', 'd', 'e', 'd'].len() != seq!['f', 'i', 'l', 'l', 'e', 'd'].len());
    assert(seq!['s', 'u', 's', 'p', 'e', 'n', 'd', 'e', 'd'].len() != seq!['d', 'o', 'n', 'e', '_', 'f', 'o', 'r', '_', 'd', 'a', 'y'].len());
    assert(seq!['s', 'u', 's', 'p', 'e', 'n', 'd', 'e', 'd'].len() != seq!['c', 'a', 'n', 'c', 'e', 'l', 'e', 'd'].len());
    assert(seq!['s', 'u', 's', 'p', 'e', 'n', 'd', 'e', 'd'].len() != seq!['e', 'x', 'p', 'i', 'r', 'e', 'd'].len());
    assert(seq!['s', 'u', 's', 'p', 'e', 'n', 'd', 'e', 'd'].len() != seq!['r', 'e', 'j', 'e', 'c', 't', 'e', 'd'].len());
    assert(seq!['p', 'e', 'n', 'd', 'i', 'n', 'g', '_', 'c', 'a', 'n', 'c', 'e', 'l'].len() != seq!['n', 'e', 'w'].len());
    assert(seq!['p', 'e', 'n', 'd', 'i', 'n', 'g', '_', 'c', 'a', 'n', 'c', 'e', 'l'].len() != seq!['p', 'e', 'n', 'd', 'i', 'n', 'g', '_', 'n', 'e', 'w'].len());
    assert(seq!['p', 'e', 'n', 'd', 'i', 'n', 'g', '_', 'c', 'a', 'n', 'c', 'e', 'l'].len() != seq!['a', 'c', 'c', 'e', 'p', 't', 'e', 'd'].len());
    assert(seq!['p', 'e', 'n', 'd', 'i', 'n', 'g', '_', 'c', 'a', 'n', 'c', 'e', 'l'].len() != seq!['a', 'c', 'c', 'e', 'p', 't', 'e', 'd', '_', 'f', 'o', 'r', '_', 'b', 'i', 'd', 'd', 'i', 'n', 'g'].len());
    assert(seq!['p', 'e', 'n', 'd', 'i', 'n', 'g', '_', 'c', 'a', 'n', 'c', 'e', 'l'].len() != seq!['p', 'a', 'r', 't', 'i', 'a', 'l', 'l', 'y', '_', 'f', 'i', 'l', 'l', 'e', 'd'].len());
    assert(seq!['p', 'e', 'n', 'd', 'i', 'n', 'g', '_', 'c', 'a', 'n', 'c', 'e', 'l'].len() != seq!['f', 'i', 'l', 'l', 'e', 'd'].len());
    assert(seq!['p', 'e', 'n', 'd', 'i', 'n', 'g', '_', 'c', 'a', 'n', 'c', 'e', 'l'].len() != seq!['d', 'o', 'n', 'e', '_', 'f', 'o', 'r', '_', 'd', 'a', 'y'].len());
    assert(seq!['p', 'e', 'n', 'd', 'i', 'n', 'g', '_', 'c', 'a', 'n', 'c', 'e', 'l'].len() != seq!['c', 'a', 'n', 'c', 'e', 'l', 'e', 'd'].len());
    assert(seq!['p', 'e', 'n', 'd', 'i', 'n', 'g', '_', 'c', 'a', 'n', 'c', 'e', 'l'].len() != seq!['e', 'x', 'p', 'i', 'r', 'e', 'd'].len());
    assert(seq!['p', 'e', 'n', 'd', 'i', 'n', 'g', '_', 'c', 'a', 'n', 'c', 'e', 'l'].len() != seq!['r', 'e', 'j', 'e', 'c', 't', 'e', 'd'].len());
    assert(seq!['p', 'e', 'n', 'd', 'i', 'n', 'g', '_', 'c', 'a', 'n', 'c', 'e', 'l'].len() != seq!['s', 'u', 's', 'p', 'e', 'n', 'd', 'e', 'd'].len());
    assert(seq!['p', 'e', 'n', 'd', 'i', 'n', 'g', '_', 'r', 'e', 'p', 'l', 'a', 'c', 'e'].len() != seq!['n', 'e', 'w'].len());
    assert(seq!['p', 'e', 'n', 'd', 'i', 'n', 'g', '_', 'r', 'e', 'p', 'l', 'a', 'c', 'e'].len() != seq!['p', 'e', 'n', 'd', 'i', 'n', 'g', '_', 'n', 'e', 'w'].len());
    assert(seq!['p', 'e', 'n', 'd', 'i', 'n', 'g', '_', 'r', 'e', 'p', 'l', 'a', 'c', 'e'].len() != seq!['a', 'c', 'c', 'e', 'p', 't', 'e', 'd'].len());
    assert(seq!['p', 'e', 'n', 'd', 'i', 'n', 'g', '_', 'r', 'e', 'p', 'l', 'a', 'c', 'e'].len() != seq!['a', 'c', 'c', 'e', 'p', 't', 'e', 'd', '_', 'f', 'o', 'r', '_', 'b', 'i', 'd', 'd', 'i', 'n', 'g'].len());
    assert(seq!['p', 'e', 'n', 'd', 'i', 'n', 'g', '_', 'r', 'e', 'p', 'l', 'a', 'c', 'e'].len() != seq!['p', 'a', 'r', 't', 'i', 'a', 'l', 'l', 'y', '_', 'f', 'i', 'l', 'l', 'e', 'd'].len());
    assert(seq!['p', 'e', 'n', 'd', 'i', 'n', 'g', '_', 'r', 'e', 'p', 'l', 'a', 'c', 'e'].len() != seq!['f', 'i', 'l', 'l', 'e', 'd'].len());
    assert(seq!['p', 'e', 'n', 'd', 'i', 'n', 'g', '_', 'r', 'e', 'p', 'l', 'a', 'c', 'e'].len() != seq!['d', 'o', 'n', 'e', '_', 'f', 'o', 'r', '_', 'd', 'a', 'y'].len());
    assert(seq!['p', 'e', 'n', 'd', 'i', 'n', 'g', '_', 'r', 'e', 'p', 'l', 'a', 'c', 'e'].len() != seq!['c', 'a', 'n', 'c', 'e', 'l', 'e', 'd'].len());
    assert(seq!['p', 'e', 'n', 'd', 'i', 'n', 'g', '_', 'r', 'e', 'p', 'l', 'a', 'c', 'e'].len() != seq!['e', 'x', 'p', 'i', 'r', 'e', 'd'].len());
    assert(seq!['p', 'e', 'n', 'd', 'i', 'n', 'g', '_', 'r', 'e', 'p', 'l', 'a', 'c', 'e'].len() != seq!['r', 'e', 'j', 'e', 'c', 't', 'e', 'd'].len());
    assert(seq!['p', 'e', 'n', 'd', 'i', 'n', 'g', '_', 'r', 'e', 'p', 'l', 'a', 'c', 'e'].len() != seq!['s', 'u', 's', 'p', 'e', 'n', 'd', 'e', 'd'].len());
    assert(seq!['p', 'e', 'n', 'd', 'i', 'n', 'g', '_', 'r', 'e', 'p', 'l', 'a', 'c', 'e'].len() != seq!['p', 'e', 'n', 'd', 'i', 'n', 'g', '_', 'c', 'a', 'n', 'c', 'e', 'l'].len());
    assert(seq!['p', 'e', 'n', 'd', 'i', 'n', 'g', '_', 'r', 'e', 'v', 'i', 'e', 'w'].len() != seq!['n', 'e', 'w'].len());
    assert(seq!['p', 'e', 'n', 'd', 'i', 'n', 'g', '_', 'r', 'e', 'v', 'i', 'e', 'w'].len() != seq!['p', 'e', 'n', 'd', 'i', 'n', 'g', '_', 'n', 'e', 'w'].len());
    assert(seq!['p', 'e', 'n', 'd', 'i', 'n', 'g', '_', 'r', 'e', 'v', 'i', 'e', 'w'].len() != seq!['a', 'c', 'c', 'e', 'p', 't', 'e', 'd'].len());
    assert(seq!['p', 'e', 'n', 'd', 'i', 'n', 'g', '_', 'r', 'e', 'v', 'i', 'e', 'w'].len() != seq!['a', 'c', 'c', 'e', 'p', 't', 'e', 'd', '_', 'f', 'o', 'r', '_', 'b', 'i', 'd', 'd', 'i', 'n', 'g'].len());
    assert(seq!['p', 'e', 'n', 'd', 'i', 'n', 'g', '_', 'r', 'e', 'v', 'i', 'e', 'w'].len() != seq!['p', 'a', 'r', 't', 'i', 'a', 'l', 'l', 'y', '_', 'f', 'i', 'l', 'l', 'e', 'd'].len());
    assert(seq!['p', 'e', 'n', 'd', 'i', 'n', 'g', '_', 'r', 'e', 'v', 'i', 'e', 'w'].len() != seq!['f', 'i', 'l', 'l', 'e', 'd'].len());
    assert(seq!['p', 'e', 'n', 'd', 'i', 'n', 'g', '_', 'r', 'e', 'v', 'i', 'e', 'w'].len() != seq!['d', 'o', 'n', 'e', '_', 'f', 'o', 'r', '_', 'd', 'a', 'y'].len());
    assert(seq!['p', 'e', 'n', 'd', 'i', 'n', 'g', '_', 'r', 'e', 'v', 'i', 'e', 'w'].len() != seq!['c', 'a', 'n', 'c', 'e', 'l', 'e', 'd'].len());
    assert(seq!['p', 'e', 'n', 'd', 'i', 'n', 'g', '_', 'r', 'e', 'v', 'i', 'e', 'w'].len() != seq!['e', 'x', 'p', 'i', 'r', 'e', 'd'].len());
    assert(seq!['p', 'e', 'n', 'd', 'i', 'n', 'g', '_', 'r', 'e', 'v', 'i', 'e', 'w'].len() != seq!['r', 'e', 'j', 'e', 'c', 't', 'e', 'd'].len());
    assert(seq!['p', 'e', 'n', 'd', 'i', 'n', 'g', '_', 'r', 'e', 'v', 'i', 'e', 'w'].len() != seq!['s', 'u', 's', 'p', 'e', 'n', 'd', 'e', 'd'].len());
    assert(seq!['p', 'e', 'n', 'd', 'i', 'n', 'g', '_', 'r', 'e', 'v', 'i', 'e', 'w'][8] != seq!['p', 'e', 'n', 'd', 'i', 'n', 'g', '_', 'c', 'a', 'n', 'c', 'e', 'l'][8]);
    assert(seq!['p', 'e', 'n', 'd', 'i', 'n', 'g', '_', 'r', 'e', 'v', 'i', 'e', 'w'].len() != seq!['p', 'e', 'n', 'd', 'i', 'n', 'g', '_', 'r', 'e', 'p', 'l', 'a', 'c', 'e'].len());
    assert(seq!['r', 'e', 'p', 'l', 'a', 'c', 'e', 'd'].len() != seq!['n', 'e', 'w'].len());
    assert(seq!['r', 'e', 'p', 'l', 'a', 'c', 'e', 'd'].len() != seq!['p', 'e', 'n', 'd', 'i', 'n', 'g', '_', 'n', 'e', 'w'].len());
    assert(seq!['r', 'e', 'p', 'l', 'a', 'c', 'e', 'd'][0] != seq!['a', 'c', 'c', 'e', 'p', 't', 'e', 'd'][0]);
    assert(seq!['r', 'e', 'p', 'l', 'a', 'c', 'e', 'd'].len() != seq!['a', 'c', 'c', 'e', 'p', 't', 'e', 'd', '_', 'f', 'o', 'r', '_', 'b', 'i', 'd', 'd', 'i', 'n', 'g'].len());
    assert(seq!['r', 'e', 'p', 'l', 'a', 'c', 'e', 'd'].len() != seq!['p', 'a', 'r', 't', 'i', 'a', 'l', 'l', 'y', '_', 'f', 'i', 'l', 'l', 'e', 'd'].len());
    assert(seq!['r', 'e', 'p', 'l', 'a', 'c', 'e', 'd'].len() != seq!['f', 'i', 'l', 'l', 'e', 'd'].len());
    assert(seq!['r', 'e', 'p', 'l', 'a', 'c', 'e', 'd'].len() != seq!['d', 'o', 'n', 'e', '_', 'f', 'o', 'r', '_', 'd', 'a', 'y'].len());
    assert(seq!['r', 'e', 'p', 'l', 'a', 'c', 'e', 'd'][0] != seq!['c', 'a', 'n', 'c', 'e', 'l', 'e', 'd'][0]);
    assert(seq!['r', 'e', 'p', 'l', 'a', 'c', 'e', 'd'].len() != seq!['e', 'x', 'p', 'i', 'r', 'e', 'd'].len());
    assert(seq!['r', 'e', 'p', 'l', 'a', 'c', 'e', 'd'][2] != seq!['r', 'e', 'j', 'e', 'c', 't', 'e', 'd'][2]);
    assert(seq!['r', 'e', 'p', 'l', 'a', 'c', 'e', 'd'].len() != seq!['s', 'u', 's', 'p', 'e', 'n', 'd', 'e', 'd'].len());
    assert(seq!['r', 'e', 'p', 'l', 'a', 'c', 'e', 'd'].len() != seq!['p', 'e', 'n', 'd', 'i', 'n', 'g', '_', 'c', 'a', 'n', 'c', 'e', 'l'].len());
    assert(seq!['r', 'e', 'p', 'l', 'a', 'c', 'e', 'd'].len() != seq!['p', 'e', 'n', 'd', 'i', 'n', 'g', '_', 'r', 'e', 'p', 'l', 'a', 'c', 'e'].len());
    assert(seq!['r', 'e', 'p', 'l', 'a', 'c', 'e', 'd'].len() != seq!['p', 'e', 'n', 'd', 'i', 'n', 'g', '_', 'r', 'e', 'v', 'i', 'e', 'w'].len());
    assert(seq!['s', 't', 'o', 'p', 'p', 'e', 'd'].len() != seq!['n', 'e', 'w'].len());
    assert(seq!['s', 't', 'o', 'p', 'p', 'e', 'd'].len() != seq!['p', 'e', 'n', 'd', 'i', 'n', 'g', '_', 'n', 'e', 'w'].len());
    assert(seq!['s', 't', 'o', 'p', 'p', 'e', 'd'].len() != seq!['a', 'c', 'c', 'e', 'p', 't', 'e', 'd'].len());
    assert(seq!['s', 't', 'o', 'p', 'p', 'e', 'd'].len() != seq!['a', 'c', 'c', 'e', 'p', 't', 'e', 'd', '_', 'f', 'o', 'r', '_', 'b', 'i', 'd', 'd', 'i', 'n', 'g'].len());
    assert(seq!['s', 't', 'o', 'p', 'p', 'e', 'd'].len() != seq!['p', 'a', 'r', 't', 'i', 'a', 'l', 'l', 'y', '_', 'f', 'i', 'l', 'l', 'e', 'd'].len());
    assert(seq!['s', 't', 'o', 'p', 'p', 'e', 'd'].len() != seq!['f', 'i', 'l', 'l', 'e', 'd'].len());
    assert(seq!['s', 't', 'o', 'p', 'p', 'e', 'd'].len() != seq!['d', 'o', 'n', 'e', '_', 'f', 'o', 'r', '_', 'd', 'a', 'y'].len());
    assert(seq!['s', 't', 'o', 'p', 'p', 'e', 'd'].len() != seq!['c', 'a', 'n', 'c', 'e', 'l', 'e', 'd'].len());
    assert(seq!['s', 't', 'o', 'p', 'p', 'e', 'd'][0] != seq!['e', 'x', 'p', 'i', 'r', 'e', 'd'][0]);
    assert(seq!['s', 't', 'o', 'p', 'p', 'e', 'd'].len() != seq!['r', 'e', 'j', 'e', 'c', 't', 'e', 'd'].len());
    assert(seq!['s', 't', 'o', 'p', 'p', 'e', 'd'].len() != seq!['s', 'u', 's', 'p', 'e', 'n', 'd', 'e', 'd'].len());
    assert(seq!['s', 't', 'o', 'p', 'p', 'e', 'd'].len() != seq!['p', 'e', 'n', 'd', 'i', 'n', 'g', '_', 'c', 'a', 'n', 'c', 'e', 'l'].len());
    assert(seq!['s', 't', 'o', 'p', 'p', 'e', 'd'].len() != seq!['p', 'e', 'n', 'd', 'i', 'n', 'g', '_', 'r', 'e', 'p', 'l', 'a', 'c', 'e'].len());
    assert(seq!['s', 't', 'o', 'p', 'p', 'e', 'd'].len() != seq!['p', 'e', 'n', 'd', 'i', 'n', 'g', '_', 'r', 'e', 'v', 'i', 'e', 'w'].len());
    assert(seq!['s', 't', 'o', 'p', 'p', 'e', 'd'].len() != seq!['r', 'e', 'p', 'l', 'a', 'c', 'e', 'd'].len());
    assert(seq!['c', 'a', 'l', 'c', 'u', 'l', 'a', 't', 'e', 'd'].len() != seq!['n', 'e', 'w'].len());
    assert(seq!['c', 'a', 'l', 'c', 'u', 'l', 'a', 't', 'e', 'd'].len() != seq!['p', 'e', 'n', 'd', 'i', 'n', 'g', '_', 'n', 'e', 'w'].len());
    assert(seq!['c', 'a', 'l', 'c', 'u', 'l', 'a', 't', 'e', 'd'].len() != seq!['a', 'c', 'c', 'e', 'p', 't', 'e', 'd'].len());
    assert(seq!['c', 'a', 'l', 'c', 'u', 'l', 'a', 't', 'e', 'd'].len() != seq!['a', 'c', 'c', 'e', 'p', 't', 'e', 'd', '_', 'f', 'o', 'r', '_', 'b', 'i', 'd', 'd', 'i', 'n', 'g'].len());
    assert(seq!['c', 'a', 'l', 'c', 'u', 'l', 'a', 't', 'e', 'd'].len() != seq!['p', 'a', 'r', 't', 'i', 'a', 'l', 'l', 'y', '_', 'f', 'i', 'l', 'l', 'e', 'd'].len());
    assert(seq!['c', 'a', 'l', 'c', 'u', 'l', 'a', 't', 'e', 'd'].len() != seq!['f', 'i', 'l', 'l', 'e', 'd'].len());
    assert(seq!['c', 'a', 'l', 'c', 'u', 'l', 'a', 't', 'e', 'd'].len() != seq!['d', 'o', 'n', 'e', '_', 'f', 'o', 'r', '_', 'd', 'a', 'y'].len());
    assert(seq!['c', 'a', 'l', 'c', 'u', 'l', 'a', 't', 'e', 'd'].len() != seq!['c', 'a', 'n', 'c', 'e', 'l', 'e', 'd'].len());
    assert(seq!['c', 'a', 'l', 'c', 'u', 'l', 'a', 't', 'e', 'd'].len() != seq!['e', 'x', 'p', 'i', 'r', 'e', 'd'].len());
    assert(seq!['c', 'a', 'l', 'c', 'u', 'l', 'a', 't', 'e', 'd'].len() != seq!['r', 'e', 'j', 'e', 'c', 't', 'e', 'd'].len());
    assert(seq!['c', 'a', 'l', 'c', 'u', 'l', 'a', 't', 'e', 'd'].len() != seq!['s', 'u', 's', 'p', 'e', 'n', 'd', 'e', 'd'].len());
    assert(seq!['c', 'a', 'l', 'c', 'u', 'l', 'a', 't', 'e', 'd'].len() != seq!['p', 'e', 'n', 'd', 'i', 'n', 'g', '_', 'c', 'a', 'n', 'c', 'e', 'l'].len());
    assert(seq!['c', 'a', 'l', 'c', 'u', 'l', 'a', 't', 'e', 'd'].len() != seq!['p', 'e', 'n', 'd', 'i', 'n', 'g', '_', 'r', 'e', 'p', 'l', 'a', 'c', 'e'].len());
    assert(seq!['c', 'a', 'l', 'c', 'u', 'l', 'a', 't', 'e', 'd'].len() != seq!['p', 'e', 'n', 'd', 'i', 'n', 'g', '_', 'r', 'e', 'v', 'i', 'e', 'w'].len());
    assert(seq!['c', 'a', 'l', 'c', 'u', 'l', 'a', 't', 'e', 'd'].len() != seq!['r', 'e', 'p', 'l', 'a', 'c', 'e', 'd'].len());
    assert(seq!['c', 'a', 'l', 'c', 'u', 'l', 'a', 't', 'e', 'd'].len() != seq!['s', 't', 'o', 'p', 'p', 'e', 'd'].len());
    assert(seq!['h', 'e', 'l', 'd'].len() != seq!['n', 'e', 'w'].len());
    assert(seq!['h', 'e', 'l', 'd'].len() != seq!['p', 'e', 'n', 'd', 'i', 'n', 'g', '_', 'n', 'e', 'w'].len());
    assert(seq!['h', 'e', 'l', 'd'].len() != seq!['a', 'c', 'c', 'e', 'p', 't', 'e', 'd'].len());
    assert(seq!['h', 'e', 'l', 'd'].len() != seq!['a', 'c', 'c', 'e', 'p', 't', 'e', 'd', '_', 'f', 'o', 'r', '_', 'b', 'i', 'd', 'd', 'i', 'n', 'g'].len());
    assert(seq!['h', 'e', 'l', 'd'].len() != seq!['p', 'a', 'r', 't', 'i', 'a', 'l', 'l', 'y', '_', 'f', 'i', 'l', 'l', 'e', 'd'].len());
    assert(seq!['h', 'e', 'l', 'd'].len() != seq!['f', 'i', 'l', 'l', 'e', 'd'].len());
    assert(seq!['h', 'e', 'l', 'd'].len() != seq!['d', 'o', 'n', 'e', '_', 'f', 'o', 'r', '_', 'd', 'a', 'y'].len());
    assert(seq!['h', 'e', 'l', 'd'].len() != seq!['c', 'a', 'n', 'c', 'e', 'l', 'e', 'd'].len());
    assert(seq!['h', 'e', 'l', 'd'].len() != seq!['e', 'x', 'p', 'i', 'r', 'e', 'd'].len());
    assert(seq!['h', 'e', 'l', 'd'].len() != seq!['r', 'e', 'j', 'e', 'c', 't', 'e', 'd'].len());
    assert(seq!['h', 'e', 'l', 'd'].len() != seq!['s', 'u', 's', 'p', 'e', 'n', 'd', 'e', 'd'].len());
    assert(seq!['h', 'e', 'l', 'd'].len() != seq!['p', 'e', 'n', 'd', 'i', 'n', 'g', '_', 'c', 'a', 'n', 'c', 'e', 'l'].len());
    assert(seq!['h', 'e', 'l', 'd'].len() != seq!['p', 'e', 'n', 'd', 'i', 'n', 'g', '_', 'r', 'e', 'p', 'l', 'a', 'c', 'e'].len());
    assert(seq!['h', 'e', 'l', 'd'].len() != seq!['p', 'e', 'n', 'd', 'i', 'n', 'g', '_', 'r', 'e', 'v', 'i', 'e', 'w'].len());
    assert(seq!['h', 'e', 'l', 'd'].len() != seq!['r', 'e', 'p', 'l', 'a', 'c', 'e', 'd'].len());
    assert(seq!['h', 'e', 'l', 'd'].len() != seq!['s', 't', 'o', 'p', 'p', 'e', 'd'].len());
    assert(seq!['h', 'e', 'l', 'd'].len() != seq!['c', 'a', 'l', 'c', 'u', 'l', 'a', 't', 'e', 'd'].len());
}

/// Side conversion round-trips for the sides both vocabularies share, and a short sale is a sell.
pub proof fn lemma_side_round_trip(side: OrderSide)
    requires
        side != OrderSide::NoOrderSide,
    ensures
        spec_side_from_nautilus(side) matches Ok(v) && spec_side_to_nautilus(v) == Ok::<
            OrderSide,
            ConversionError,
        >(side),
        spec_side_to_nautilus(AlpacaOrderSide::SellShort) == Ok::<OrderSide, ConversionError>(
            OrderSide::Sell,
        ),
{
}

/// Every engine order type the venue accepts converts there and back unchanged, and every
/// modelled venue order type converts to the engine and back unchanged.
pub proof fn lemma_order_type_round_trip(t: OrderType, v: AlpacaOrderType)
    requires
        v != AlpacaOrderType::Unknown,
    ensures
        spec_order_type_from_nautilus(t) matches Ok(a) ==> spec_order_type_to_nautilus(a) == Ok::<
            OrderType,
            ConversionError,
        >(t),
        spec_order_type_to_nautilus(v) matches Ok(o) && spec_order_type_from_nautilus(o) == Ok::<
            AlpacaOrderType,
            ConversionError,
        >(v),
{
}

/// Every engine time in force except `GTD` converts there and back unchanged, and every modelled
/// venue value converts to the engine and back unchanged.
pub proof fn lemma_tif_round_trip(t: TimeInForce, v: AlpacaTimeInForce)
    requires
        v != AlpacaTimeInForce::Unknown,
    ensures
        t != TimeInForce::Gtd ==> (spec_tif_from_nautilus(t) matches Ok(a)
            && spec_tif_to_nautilus(a) == Ok::<TimeInForce, ConversionError>(t)),
        spec_tif_to_nautilus(v) matches Ok(o) && spec_tif_from_nautilus(o) == Ok::<
            AlpacaTimeInForce,
            ConversionError,
        >(v),
{
}

/// A superseded order is terminal under its own identifier yet has no engine status, so it is
/// never reported as cancelled; and apart from `suspended`, an order's engine status is open
/// exactly when the venue status is not terminal.
pub proof fn lemma_status_classification(s: AlpacaOrderStatus)
    ensures
        s == AlpacaOrderStatus::Replaced ==> spec_is_terminal(s) && spec_status_to_nautilus(s) is Err,
        spec_status_to_nautilus(s) matches Ok(o) ==> (s != AlpacaOrderStatus::Suspended ==> (
        crate::common::model::spec_is_open_status(o) <==> !spec_is_terminal(s))),
{
}

/// The engine's name for each order status, in the venue's lower-case spelling.
pub open spec fn engine_status_name(o: OrderStatus) -> Seq<char> {
    match o {
        OrderStatus::Initialized => seq!['i', 'n', 'i', 't', 'i', 'a', 'l', 'i', 'z', 'e', 'd'],
        OrderStatus::Denied => seq!['d', 'e', 'n', 'i', 'e', 'd'],
        OrderStatus::Emulated => seq!['e', 'm', 'u', 'l', 'a', 't', 'e', 'd'],
        OrderStatus::Released => seq!['r', 'e', 'l', 'e', 'a', 's', 'e', 'd'],
        OrderStatus::Submitted => seq!['s', 'u', 'b', 'm', 'i', 't', 't', 'e', 'd'],
        OrderStatus::Accepted => seq!['a', 'c', 'c', 'e', 'p', 't', 'e', 'd'],
        OrderStatus::Rejected => seq!['r', 'e', 'j', 'e', 'c', 't', 'e', 'd'],
        OrderStatus::Canceled => seq!['c', 'a', 'n', 'c', 'e', 'l', 'e', 'd'],
        OrderStatus::Expired => seq!['e', 'x', 'p', 'i', 'r', 'e', 'd'],
        OrderStatus::Triggered => seq!['t', 'r', 'i', 'g', 'g', 'e', 'r', 'e', 'd'],
        OrderStatus::PendingUpdate => seq!['p', 'e', 'n', 'd', 'i', 'n', 'g', '_', 'u', 'p', 'd', 'a', 't', 'e'],
        OrderStatus::PendingCancel => seq!['p', 'e', 'n', 'd', 'i', 'n', 'g', '_', 'c', 'a', 'n', 'c', 'e', 'l'],
        OrderStatus::PartiallyFilled => seq!['p', 'a', 'r', 't', 'i', 'a', 'l', 'l', 'y', '_', 'f', 'i', 'l', 'l', 'e', 'd'],
        OrderStatus::Filled => seq!['f', 'i', 'l', 'l', 'e', 'd'],
    }
}

/// A venue status that carries an engine status's name means that status: the conversion maps
/// it there (`canceled` to `CANCELED`, `filled` to `FILLED`, `partially_filled` to
/// `PARTIALLY_FILLED`, and so on).
pub proof fn lemma_status_keeps_its_name(s: AlpacaOrderStatus, o: OrderStatus)
    ensures
        status_wire(s) == engine_status_name(o) ==> spec_status_to_nautilus(s) == Ok::<
            OrderStatus,
            ConversionError,
        >(o),
{
    match (s, o) {
        (AlpacaOrderStatus::New, OrderStatus::Initialized) => {assert(status_wire(s).len() != engine_status_name(o).len());},
        (AlpacaOrderStatus::New, OrderStatus::Denied) => {assert(status_wire(s).len() != engine_status_name(o).len());},
        (AlpacaOrderStatus::New, OrderStatus::Emulated) => {assert(status_wire(s).len() != engine_status_name(o).len());},
        (AlpacaOrderStatus::New, OrderStatus::Released) => {assert(status_wire(s).len() != engine_status_name(o).len());},
        (AlpacaOrderStatus::New, OrderStatus::Submitted) => {assert(status_wire(s).len() != engine_status_name(o).len());},
        (AlpacaOrderStatus::New, OrderStatus::Accepted) => {assert(status_wire(s).len() != engine_status_name(o).len());},
        (AlpacaOrderStatus::New, OrderStatus::Rejected) => {assert(status_wire(s).len() != engine_status_name(o).len());},
        (AlpacaOrderStatus::New, OrderStatus::Canceled) => {assert(status_wire(s).len() != engine_status_name(o).len());},
        (AlpacaOrderStatus::New, OrderStatus::Expired) => {assert(status_wire(s).len() != engine_status_name(o).len());},
        (AlpacaOrderStatus::New, OrderStatus::Triggered) => {assert(status_wire(s).len() != engine_status_name(o).len());},
        (AlpacaOrderStatus::New, OrderStatus::PendingUpdate) => {assert(status_wire(s).len() != engine_status_name(o).len());},
        (AlpacaOrderStatus::New, OrderStatus::PendingCancel) => {assert(status_wire(s).len() != engine_status_name(o).len());},
        (AlpacaOrderStatus::New, OrderStatus::PartiallyFilled) => {assert(status_wire(s).len() != engine_status_name(o).len());},
        (AlpacaOrderStatus::New, OrderStatus::Filled) => {assert(status_wire(s).len() != engine_status_name(o).len());},
        (AlpacaOrderStatus::PendingNew, OrderStatus::Initialized) => {assert(status_wire(s)[0] != engine_status_name(o)[0]);},
        (AlpacaOrderStatus::PendingNew, OrderStatus::Denied) => {assert(status_wire(s).len() != engine_status_name(o).len());},
        (AlpacaOrderStatus::PendingNew, OrderStatus::Emulated) => {assert(status_wire(s).len() != engine_status_name(o).len());},
        (AlpacaOrderStatus::PendingNew, OrderStatus::Released) => {assert(status_wire(s).len() != engine_status_name(o).len());},
        (AlpacaOrderStatus::PendingNew, OrderStatus::Submitted) => {assert(status_wire(s).len() != engine_status_name(o).len());},
        (AlpacaOrderStatus::PendingNew, OrderStatus::Accepted) => {assert(status_wire(s).len() != engine_status_name(o).len());},
        (AlpacaOrderStatus::PendingNew, OrderStatus::Rejected) => {assert(status_wire(s).len() != engine_status_name(o).len());},
        (AlpacaOrderStatus::PendingNew, OrderStatus::Canceled) => {assert(status_wire(s).len() != engine_status_name(o).len());},
        (AlpacaOrderStatus::PendingNew, OrderStatus::Expired) => {assert(status_wire(s).len() != engine_status_name(o).len());},
        (AlpacaOrderStatus::PendingNew, OrderStatus::Triggered) => {assert(status_wire(s).len() != engine_status_name(o).len());},
        (AlpacaOrderStatus::PendingNew, OrderStatus::PendingUpdate) => {assert(status_wire(s).len() != engine_status_name(o).len());},
        (AlpacaOrderStatus::PendingNew, OrderStatus::PendingCancel) => {assert(status_wire(s).len() != engine_status_name(o).len());},
        (AlpacaOrderStatus::PendingNew, OrderStatus::PartiallyFilled) => {assert(status_wire(s).len() != engine_status_name(o).len());},
        (AlpacaOrderStatus::PendingNew, OrderStatus::Filled) => {assert(status_wire(s).len() != engine_status_name(o).len());},
        (AlpacaOrderStatus::Accepted, OrderStatus::Initialized) => {assert(status_wire(s).len() != engine_status_name(o).len());},
        (AlpacaOrderStatus::Accepted, OrderStatus::Denied) => {assert(status_wire(s).len() != engine_status_name(o).len());},
        (AlpacaOrderStatus::Accepted, OrderStatus::Emulated) => {assert(status_wire(s)[0] != engine_status_name(o)[0]);},
        (AlpacaOrderStatus::Accepted, OrderStatus::Released) => {assert(status_wire(s)[0] != engine_status_name(o)[0]);},
        (AlpacaOrderStatus::Accepted, OrderStatus::Submitted) => {assert(status_wire(s).len() != engine_status_name(o).len());},
        (AlpacaOrderStatus::Accepted, OrderStatus::Accepted) => {},
        (AlpacaOrderStatus::Accepted, OrderStatus::Rejected) => {assert(status_wire(s)[0] != engine_status_name(o)[0]);},
        (AlpacaOrderStatus::Accepted, OrderStatus::Canceled) => {assert(status_wire(s)[0] != engine_status_name(o)[0]);},
        (AlpacaOrderStatus::Accepted, OrderStatus::Expired) => {assert(status_wire(s).len() != engine_status_name(o).len());},
        (AlpacaOrderStatus::Accepted, OrderStatus::Triggered) => {assert(status_wire(s).len() != engine_status_name(o).len());},
        (AlpacaOrderStatus::Accepted, OrderStatus::PendingUpdate) => {assert(status_wire(s).len() != engine_status_name(o).len());},
        (AlpacaOrderStatus::Accepted, OrderStatus::PendingCancel) => {assert(status_wire(s).len() != engine_status_name(o).len());},
        (AlpacaOrderStatus::Accepted, OrderStatus::PartiallyFilled) => {assert(status_wire(s).len() != engine_status_name(o).len());},
        (AlpacaOrderStatus::Accepted, OrderStatus::Filled) => {assert(status_wire(s).len() != engine_status_name(o).len());},
        (AlpacaOrderStatus::AcceptedForBidding, OrderStatus::Initialized) => {assert(status_wire(s).len() != engine_status_name(o).len());},
        (AlpacaOrderStatus::AcceptedForBidding, OrderStatus::Denied) => {assert(status_wire(s).len() != engine_status_name(o).len());},
        (AlpacaOrderStatus::AcceptedForBidding, OrderStatus::Emulated) => {assert(status_wire(s).len() != engine_status_name(o).len());},
        (AlpacaOrderStatus::AcceptedForBidding, OrderStatus::Released) => {assert(status_wire(s).len() != engine_status_name(o).len());},
        (AlpacaOrderStatus::AcceptedForBidding, OrderStatus::Submitted) => {assert(status_wire(s).len() != engine_status_name(o).len());},
        (AlpacaOrderStatus::AcceptedForBidding, OrderStatus::Accepted) => {assert(status_wire(s).len() != engine_status_name(o).len());},
        (AlpacaOrderStatus::AcceptedForBidding, OrderStatus::Rejected) => {assert(status_wire(s).len() != engine_status_name(o).len());},
        (AlpacaOrderStatus::AcceptedForBidding, OrderStatus::Canceled) => {assert(status_wire(s).len() != engine_status_name(o).len());},
        (AlpacaOrderStatus::AcceptedForBidding, OrderStatus::Expired) => {assert(status_wire(s).len() != engine_status_name(o).len());},
        (AlpacaOrderStatus::AcceptedForBidding, OrderStatus::Triggered) => {assert(status_wire(s).len() != engine_status_name(o).len());},
        (AlpacaOrderStatus::AcceptedForBidding, OrderStatus::PendingUpdate) => {assert(status_wire(s).len() != engine_status_name(o).len());},
        (AlpacaOrderStatus::AcceptedForBidding, OrderStatus::PendingCancel) => {assert(status_wire(s).len() != engine_status_name(o).len());},
        (AlpacaOrderStatus::AcceptedForBidding, OrderStatus::PartiallyFilled) => {assert(status_wire(s).len() != engine_status_name(o).len());},
        (AlpacaOrderStatus::AcceptedForBidding, OrderStatus::Filled) => {assert(status_wire(s).len() != engine_status_name(o).len());},
        (AlpacaOrderStatus::PartiallyFilled, OrderStatus::Initialized) => {assert(status_wire(s).len() != engine_status_name(o).len());},
        (AlpacaOrderStatus::PartiallyFilled, OrderStatus::Denied) => {assert(status_wire(s).len() != engine_status_name(o).len());},
        (AlpacaOrderStatus::PartiallyFilled, OrderStatus::Emulated) => {assert(status_wire(s).len() != engine_status_name(o).len());},
        (AlpacaOrderStatus::PartiallyFilled, OrderStatus::Released) => {assert(status_wire(s).len() != engine_status_name(o).len());},
        (AlpacaOrderStatus::PartiallyFilled, OrderStatus::Submitted) => {assert(status_wire(s).len() != engine_status_name(o).len());},
        (AlpacaOrderStatus::PartiallyFilled, OrderStatus::Accepted) => {assert(status_wire(s).len() != engine_status_name(o).len());},
        (AlpacaOrderStatus::PartiallyFilled, OrderStatus::Rejected) => {assert(status_wire(s).len() != engine_status_name(o).len());},
        (AlpacaOrderStatus::PartiallyFilled, OrderStatus::Canceled) => {assert(status_wire(s).len() != engine_status_name(o).len());},
        (AlpacaOrderStatus::PartiallyFilled, OrderStatus::Expired) => {assert(status_wire(s).len() != engine_status_name(o).len());},
        (AlpacaOrderStatus::PartiallyFilled, OrderStatus::Triggered) => {assert(status_wire(s).len() != engine_status_name(o).len());},
        (AlpacaOrderStatus::PartiallyFilled, OrderStatus::PendingUpdate) => {assert(status_wire(s).len() != engine_status_name(o).len());},
        (AlpacaOrderStatus::PartiallyFilled, OrderStatus::PendingCancel) => {assert(status_wire(s).len() != engine_status_name(o).len());},
        (AlpacaOrderStatus::PartiallyFilled, OrderStatus::PartiallyFilled) => {},
        (AlpacaOrderStatus::PartiallyFilled, OrderStatus::Filled) => {assert(status_wire(s).len() != engine_status_name(o).len());},
        (AlpacaOrderStatus::Filled, OrderStatus::Initialized) => {assert(status_wire(s).len() != engine_status_name(o).len());},
        (AlpacaOrderStatus::Filled, OrderStatus::Denied) => {assert(status_wire(s)[0] != engine_status_name(o)[0]);},
        (AlpacaOrderStatus::Filled, OrderStatus::Emulated) => {assert(status_wire(s).len() != engine_status_name(o).len());},
        (AlpacaOrderStatus::Filled, OrderStatus::Released) => {assert(status_wire(s).len() != engine_status_name(o).len());},
        (AlpacaOrderStatus::Filled, OrderStatus::Submitted) => {assert(status_wire(s).len() != engine_status_name(o).len());},
        (AlpacaOrderStatus::Filled, OrderStatus::Accepted) => {assert(status_wire(s).len() != engine_status_name(o).len());},
        (AlpacaOrderStatus::Filled, OrderStatus::Rejected) => {assert(status_wire(s).len() != engine_status_name(o).len());},
        (AlpacaOrderStatus::Filled, OrderStatus::Canceled) => {assert(status_wire(s).len() != engine_status_name(o).len());},
        (AlpacaOrderStatus::Filled, OrderStatus::Expired) => {assert(status_wire(s).len() != engine_status_name(o).len());},
        (AlpacaOrderStatus::Filled, OrderStatus::Triggered) => {assert(status_wire(s).len() != engine_status_name(o).len());},
        (AlpacaOrderStatus::Filled, OrderStatus::PendingUpdate) => {assert(status_wire(s).len() != engine_status_name(o).len());},
        (AlpacaOrderStatus::Filled, OrderStatus::PendingCancel) => {assert(status_wire(s).len() != engine_status_name(o).len());},
        (AlpacaOrderStatus::Filled, OrderStatus::PartiallyFilled) => {assert(status_wire(s).len() != engine_status_name(o).len());},
        (AlpacaOrderStatus::Filled, OrderStatus::Filled) => {},
        (AlpacaOrderStatus::DoneForDay, OrderStatus::Initialized) => {assert(status_wire(s).len() != engine_status_name(o).len());},
        (AlpacaOrderStatus::DoneForDay, OrderStatus::Denied) => {assert(status_wire(s).len() != engine_status_name(o).len());},
        (AlpacaOrderStatus::DoneForDay, OrderStatus::Emulated) => {assert(status_wire(s).len() != engine_status_name(o).len());},
        (AlpacaOrderStatus::DoneForDay, OrderStatus::Released) => {assert(status_wire(s).len() != engine_status_name(o).len());},
        (AlpacaOrderStatus::DoneForDay, OrderStatus::Submitted) => {assert(status_wire(s).len() != engine_status_name(o).len());},
        (AlpacaOrderStatus::DoneForDay, OrderStatus::Accepted) => {assert(status_wire(s).len() != engine_status_name(o).len());},
        (AlpacaOrderStatus::DoneForDay, OrderStatus::Rejected) => {assert(status_wire(s).len() != engine_status_name(o).len());},
        (AlpacaOrderStatus::DoneForDay, OrderStatus::Canceled) => {assert(status_wire(s).len() != engine_status_name(o).len());},
        (AlpacaOrderStatus::DoneForDay, OrderStatus::Expired) => {assert(status_wire(s).len() != engine_status_name(o).len());},
        (AlpacaOrderStatus::DoneForDay, OrderStatus::Triggered) => {assert(status_wire(s).len() != engine_status_name(o).len());},
        (AlpacaOrderStatus::DoneForDay, OrderStatus::PendingUpdate) => {assert(status_wire(s).len() != engine_status_name(o).len());},
        (AlpacaOrderStatus::DoneForDay, OrderStatus::PendingCancel) => {assert(status_wire(s).len() != engine_status_name(o).len());},
        (AlpacaOrderStatus::DoneForDay, OrderStatus::PartiallyFilled) => {assert(status_wire(s).len() != engine_status_name(o).len());},
        (AlpacaOrderStatus::DoneForDay, OrderStatus::Filled) => {assert(status_wire(s).len() != engine_status_name(o).len());},
        (AlpacaOrderStatus::Canceled, OrderStatus::Initialized) => {assert(status_wire(s).len() != engine_status_name(o).len());},
        (AlpacaOrderStatus::Canceled, OrderStatus::Denied) => {assert(status_wire(s).len() != engine_status_name(o).len());},
        (AlpacaOrderStatus::Canceled, OrderStatus::Emulated) => {assert(status_wire(s)[0] != engine_status_name(o)[0]);},
        (AlpacaOrderStatus::Canceled, OrderStatus::Released) => {assert(status_wire(s)[0] != engine_status_name(o)[0]);},
        (AlpacaOrderStatus::Canceled, OrderStatus::Submitted) => {assert(status_wire(s).len() != engine_status_name(o).len());},
        (AlpacaOrderStatus::Canceled, OrderStatus::Accepted) => {assert(status_wire(s)[0] != engine_status_name(o)[0]);},
        (AlpacaOrderStatus::Canceled, OrderStatus::Rejected) => {assert(status_wire(s)[0] != engine_status_name(o)[0]);},
        (AlpacaOrderStatus::Canceled, OrderStatus::Canceled) => {},
        (AlpacaOrderStatus::Canceled, OrderStatus::Expired) => {assert(status_wire(s).len() != engine_status_name(o).len());},
        (AlpacaOrderStatus::Canceled, OrderStatus::Triggered) => {assert(status_wire(s).len() != engine_status_name(o).len());},
        (AlpacaOrderStatus::Canceled, OrderStatus::PendingUpdate) => {assert(status_wire(s).len() != engine_status_name(o).len());},
        (AlpacaOrderStatus::Canceled, OrderStatus::PendingCancel) => {assert(status_wire(s).len() != engine_status_name(o).len());},
        (AlpacaOrderStatus::Canceled, OrderStatus::PartiallyFilled) => {assert(status_wire(s).len() != engine_status_name(o).len());},
        (AlpacaOrderStatus::Canceled, OrderStatus::Filled) => {assert(status_wire(s).len() != engine_status_name(o).len());},
        (AlpacaOrderStatus::Expired, OrderStatus::Initialized) => {assert(status_wire(s).len() != engine_status_name(o).len());},
        (AlpacaOrderStatus::Expired, OrderStatus::Denied) => {assert(status_wire(s).len() != engine_status_name(o).len());},
        (AlpacaOrderStatus::Expired, OrderStatus::Emulated) => {assert(status_wire(s).len() != engine_status_name(o).len());},
        (AlpacaOrderStatus::Expired, OrderStatus::Released) => {assert(status_wire(s).len() != engine_status_name(o).len());},
        (AlpacaOrderStatus::Expired, OrderStatus::Submitted) => {assert(status_wire(s).len() != engine_status_name(o).len());},
        (AlpacaOrderStatus::Expired, OrderStatus::Accepted) => {assert(status_wire(s).len() != engine_status_name(o).len());},
        (AlpacaOrderStatus::Expired, OrderStatus::Rejected) => {assert(status_wire(s).len() != engine_status_name(o).len());},
        (AlpacaOrderStatus::Expired, OrderStatus::Canceled) => {assert(status_wire(s).len() != engine_status_name(o).len());},
        (AlpacaOrderStatus::Expired, OrderStatus::Expired) => {},
        (AlpacaOrderStatus::Expired, OrderStatus::Triggered) => {assert(status_wire(s).len() != engine_status_name(o).len());},
        (AlpacaOrderStatus::Expired, OrderStatus::PendingUpdate) => {assert(status_wire(s).len() != engine_status_name(o).len());},
        (AlpacaOrderStatus::Expired, OrderStatus::PendingCancel) => {assert(status_wire(s).len() != engine_status_name(o).len());},
        (AlpacaOrderStatus::Expired, OrderStatus::PartiallyFilled) => {assert(status_wire(s).len() != engine_status_name(o).len());},
        (AlpacaOrderStatus::Expired, OrderStatus::Filled) => {assert(status_wire(s).len() != engine_status_name(o).len());},
        (AlpacaOrderStatus::Rejected, OrderStatus::Initialized) => {assert(status_wire(s).len() != engine_status_name(o).len());},
        (AlpacaOrderStatus::Rejected, OrderStatus::Denied) => {assert(status_wire(s).len() != engine_status_name(o).len());},
        (AlpacaOrderStatus::Rejected, OrderStatus::Emulated) => {assert(status_wire(s)[0] != engine_status_name(o)[0]);},
        (AlpacaOrderStatus::Rejected, OrderStatus::Released) => {assert(status_wire(s)[2] != engine_status_name(o)[2]);},
        (AlpacaOrderStatus::Rejected, OrderStatus::Submitted) => {assert(status_wire(s).len() != engine_status_name(o).len());},
        (AlpacaOrderStatus::Rejected, OrderStatus::Accepted) => {assert(status_wire(s)[0] != engine_status_name(o)[0]);},
        (AlpacaOrderStatus::Rejected, OrderStatus::Rejected) => {},
        (AlpacaOrderStatus::Rejected, OrderStatus::Canceled) => {assert(status_wire(s)[0] != engine_status_name(o)[0]);},
        (AlpacaOrderStatus::Rejected, OrderStatus::Expired) => {assert(status_wire(s).len() != engine_status_name(o).len());},
        (AlpacaOrderStatus::Rejected, OrderStatus::Triggered) => {assert(status_wire(s).len() != engine_status_name(o).len());},
        (AlpacaOrderStatus::Rejected, OrderStatus::PendingUpdate) => {assert(status_wire(s).len() != engine_status_name(o).len());},
        (AlpacaOrderStatus::Rejected, OrderStatus::PendingCancel) => {assert(status_wire(s).len() != engine_status_name(o).len());},
        (AlpacaOrderStatus::Rejected, OrderStatus::PartiallyFilled) => {assert(status_wire(s).len() != engine_status_name(o).len());},
        (AlpacaOrderStatus::Rejected, OrderStatus::Filled) => {assert(status_wire(s).len() != engine_status_name(o).len());},
        (AlpacaOrderStatus::Suspended, OrderStatus::Initialized) => {assert(status_wire(s).len() != engine_status_name(o).len());},
        (AlpacaOrderStatus::Suspended, OrderStatus::Denied) => {assert(status_wire(s).len() != engine_status_name(o).len());},
        (AlpacaOrderStatus::Suspended, OrderStatus::Emulated) => {assert(status_wire(s).len() != engine_status_name(o).len());},
        (AlpacaOrderStatus::Suspended, OrderStatus::Released) => {assert(status_wire(s).len() != engine_status_name(o).len());},
        (AlpacaOrderStatus::Suspended, OrderStatus::Submitted) => {assert(status_wire(s)[2] != engine_status_name(o)[2]);},
        (AlpacaOrderStatus::Suspended, OrderStatus::Accepted) => {assert(status_wire(s).len() != engine_status_name(o).len());},
        (AlpacaOrderStatus::Suspended, OrderStatus::Rejected) => {assert(status_wire(s).len() != engine_status_name(o).len());},
        (AlpacaOrderStatus::Suspended, OrderStatus::Canceled) => {assert(status_wire(s).len() != engine_status_name(o).len());},
        (AlpacaOrderStatus::Suspended, OrderStatus::Expired) => {assert(status_wire(s).len() != engine_status_name(o).len());},
        (AlpacaOrderStatus::Suspended, OrderStatus::Triggered) => {assert(status_wire(s)[0] != engine_status_name(o)[0]);},
        (AlpacaOrderStatus::Suspended, OrderStatus::PendingUpdate) => {assert(status_wire(s).len() != engine_status_name(o).len());},
        (AlpacaOrderStatus::Suspended, OrderStatus::PendingCancel) => {assert(status_wire(s).len() != engine_status_name(o).len());},
        (AlpacaOrderStatus::Suspended, OrderStatus::PartiallyFilled) => {assert(status_wire(s).len() != engine_status_name(o).len());},
        (AlpacaOrderStatus::Suspended, OrderStatus::Filled) => {assert(status_wire(s).len() != engine_status_name(o).len());},
        (AlpacaOrderStatus::PendingCancel, OrderStatus::Initialized) => {assert(status_wire(s).len() != engine_status_name(o).len());},
        (AlpacaOrderStatus::PendingCancel, OrderStatus::Denied) => {assert(status_wire(s).len() != engine_status_name(o).len());},
        (AlpacaOrderStatus::PendingCancel, OrderStatus::Emulated) => {assert(status_wire(s).len() != engine_status_name(o).len());},
        (AlpacaOrderStatus::PendingCancel, OrderStatus::Released) => {assert(status_wire(s).len() != engine_status_name(o).len());},
        (AlpacaOrderStatus::PendingCancel, OrderStatus::Submitted) => {assert(status_wire(s).len() != engine_status_name(o).len());},
        (AlpacaOrderStatus::PendingCancel, OrderStatus::Accepted) => {assert(status_wire(s).len() != engine_status_name(o).len());},
        (AlpacaOrderStatus::PendingCancel, OrderStatus::Rejected) => {assert(status_wire(s).len() != engine_status_name(o).len());},
        (AlpacaOrderStatus::PendingCancel, OrderStatus::Canceled) => {assert(status_wire(s).len() != engine_status_name(o).len());},
        (AlpacaOrderStatus::PendingCancel, OrderStatus::Expired) => {assert(status_wire(s).len() != engine_status_name(o).len());},
        (AlpacaOrderStatus::PendingCancel, OrderStatus::Triggered) => {assert(status_wire(s).len() != engine_status_name(o).len());},
        (AlpacaOrderStatus::PendingCancel, OrderStatus::PendingUpdate) => {assert(status_wire(s)[8] != engine_status_name(o)[8]);},
        (AlpacaOrderStatus::PendingCancel, OrderStatus::PendingCancel) => {},
        (AlpacaOrderStatus::PendingCancel, OrderStatus::PartiallyFilled) => {assert(status_wire(s).len() != engine_status_name(o).len());},
        (AlpacaOrderStatus::PendingCancel, OrderStatus::Filled) => {assert(status_wire(s).len() != engine_status_name(o).len());},
        (AlpacaOrderStatus::PendingReplace, OrderStatus::Initialized) => {assert(status_wire(s).len() != engine_status_name(o).len());},
        (AlpacaOrderStatus::PendingReplace, OrderStatus::Denied) => {assert(status_wire(s).len() != engine_status_name(o).len());},
        (AlpacaOrderStatus::PendingReplace, OrderStatus::Emulated) => {assert(status_wire(s).len() != engine_status_name(o).len());},
        (AlpacaOrderStatus::PendingReplace, OrderStatus::Released) => {assert(status_wire(s).len() != engine_status_name(o).len());},
        (AlpacaOrderStatus::PendingReplace, OrderStatus::Submitted) => {assert(status_wire(s).len() != engine_status_name(o).len());},
        (AlpacaOrderStatus::PendingReplace, OrderStatus::Accepted) => {assert(status_wire(s).len() != engine_status_name(o).len());},
        (AlpacaOrderStatus::PendingReplace, OrderStatus::Rejected) => {assert(status_wire(s).len() != engine_status_name(o).len());},
        (AlpacaOrderStatus::PendingReplace, OrderStatus::Canceled) => {assert(status_wire(s).len() != engine_status_name(o).len());},
        (AlpacaOrderStatus::PendingReplace, OrderStatus::Expired) => {assert(status_wire(s).len() != engine_status_name(o).len());},
        (AlpacaOrderStatus::PendingReplace, OrderStatus::Triggered) => {assert(status_wire(s).len() != engine_status_name(o).len());},
        (AlpacaOrderStatus::PendingReplace, OrderStatus::PendingUpdate) => {assert(status_wire(s).len() != engine_status_name(o).len());},
        (AlpacaOrderStatus::PendingReplace, OrderStatus::PendingCancel) => {assert(status_wire(s).len() != engine_status_name(o).len());},
        (AlpacaOrderStatus::PendingReplace, OrderStatus::PartiallyFilled) => {assert(status_wire(s).len() != engine_status_name(o).len());},
        (AlpacaOrderStatus::PendingReplace, OrderStatus::Filled) => {assert(status_wire(s).len() != engine_status_name(o).len());},
        (AlpacaOrderStatus::PendingReview, OrderStatus::Initialized) => {assert(status_wire(s).len() != engine_status_name(o).len());},
        (AlpacaOrderStatus::PendingReview, OrderStatus::Denied) => {assert(status_wire(s).len() != engine_status_name(o).len());},
        (AlpacaOrderStatus::PendingReview, OrderStatus::Emulated) => {assert(status_wire(s).len() != engine_status_name(o).len());},
        (AlpacaOrderStatus::PendingReview, OrderStatus::Released) => {assert(status_wire(s).len() != engine_status_name(o).len());},
        (AlpacaOrderStatus::PendingReview, OrderStatus::Submitted) => {assert(status_wire(s).len() != engine_status_name(o).len());},
        (AlpacaOrderStatus::PendingReview, OrderStatus::Accepted) => {assert(status_wire(s).len() != engine_status_name(o).len());},
        (AlpacaOrderStatus::PendingReview, OrderStatus::Rejected) => {assert(status_wire(s).len() != engine_status_name(o).len());},
        (AlpacaOrderStatus::PendingReview, OrderStatus::Canceled) => {assert(status_wire(s).len() != engine_status_name(o).len());},
        (AlpacaOrderStatus::PendingReview, OrderStatus::Expired) => {assert(status_wire(s).len() != engine_status_name(o).len());},
        (AlpacaOrderStatus::PendingReview, OrderStatus::Triggered) => {assert(status_wire(s).len() != engine_status_name(o).len());},
        (AlpacaOrderStatus::PendingReview, OrderStatus::PendingUpdate) => {assert(status_wire(s)[8] != engine_status_name(o)[8]);},
        (AlpacaOrderStatus::PendingReview, OrderStatus::PendingCancel) => {assert(status_wire(s)[8] != engine_status_name(o)[8]);},
        (AlpacaOrderStatus::PendingReview, OrderStatus::PartiallyFilled) => {assert(status_wire(s).len() != engine_status_name(o).len());},
        (AlpacaOrderStatus::PendingReview, OrderStatus::Filled) => {assert(status_wire(s).len() != engine_status_name(o).len());},
        (AlpacaOrderStatus::Replaced, OrderStatus::Initialized) => {assert(status_wire(s).len() != engine_status_name(o).len());},
        (AlpacaOrderStatus::Replaced, OrderStatus::Denied) => {assert(status_wire(s).len() != engine_status_name(o).len());},
        (AlpacaOrderStatus::Replaced, OrderStatus::Emulated) => {assert(status_wire(s)[0] != engine_status_name(o)[0]);},
        (AlpacaOrderStatus::Replaced, OrderStatus::Released) => {assert(status_wire(s)[2] != engine_status_name(o)[2]);},
        (AlpacaOrderStatus::Replaced, OrderStatus::Submitted) => {assert(status_wire(s).len() != engine_status_name(o).len());},
        (AlpacaOrderStatus::Replaced, OrderStatus::Accepted) => {assert(status_wire(s)[0] != engine_status_name(o)[0]);},
        (AlpacaOrderStatus::Replaced, OrderStatus::Rejected) => {assert(status_wire(s)[2] != engine_status_name(o)[2]);},
        (AlpacaOrderStatus::Replaced, OrderStatus::Canceled) => {assert(status_wire(s)[0] != engine_status_name(o)[0]);},
        (AlpacaOrderStatus::Replaced, OrderStatus::Expired) => {assert(status_wire(s).len() != engine_status_name(o).len());},
        (AlpacaOrderStatus::Replaced, OrderStatus::Triggered) => {assert(status_wire(s).len() != engine_status_name(o).len());},
        (AlpacaOrderStatus::Replaced, OrderStatus::PendingUpdate) => {assert(status_wire(s).len() != engine_status_name(o).len());},
        (AlpacaOrderStatus::Replaced, OrderStatus::PendingCancel) => {assert(status_wire(s).len() != engine_status_name(o).len());},
        (AlpacaOrderStatus::Replaced, OrderStatus::PartiallyFilled) => {assert(status_wire(s).len() != engine_status_name(o).len());},
        (AlpacaOrderStatus::Replaced, OrderStatus::Filled) => {assert(status_wire(s).len() != engine_status_name(o).len());},
        (AlpacaOrderStatus::Stopped, OrderStatus::Initialized) => {assert(status_wire(s).len() != engine_status_name(o).len());},
        (AlpacaOrderStatus::Stopped, OrderStatus::Denied) => {assert(status_wire(s).len() != engine_status_name(o).len());},
        (AlpacaOrderStatus::Stopped, OrderStatus::Emulated) => {assert(status_wire(s).len() != engine_status_name(o).len());},
        (AlpacaOrderStatus::Stopped, OrderStatus::Released) => {assert(status_wire(s).len() != engine_status_name(o).len());},
        (AlpacaOrderStatus::Stopped, OrderStatus::Submitted) => {assert(status_wire(s).len() != engine_status_name(o).len());},
        (AlpacaOrderStatus::Stopped, OrderStatus::Accepted) => {assert(status_wire(s).len() != engine_status_name(o).len());},
        (AlpacaOrderStatus::Stopped, OrderStatus::Rejected) => {assert(status_wire(s).len() != engine_status_name(o).len());},
        (AlpacaOrderStatus::Stopped, OrderStatus::Canceled) => {assert(status_wire(s).len() != engine_status_name(o).len());},
        (AlpacaOrderStatus::Stopped, OrderStatus::Expired) => {assert(status_wire(s)[0] != engine_status_name(o)[0]);},
        (AlpacaOrderStatus::Stopped, OrderStatus::Triggered) => {assert(status_wire(s).len() != engine_status_name(o).len());},
        (AlpacaOrderStatus::Stopped, OrderStatus::PendingUpdate) => {assert(status_wire(s).len() != engine_status_name(o).len());},
        (AlpacaOrderStatus::Stopped, OrderStatus::PendingCancel) => {assert(status_wire(s).len() != engine_status_name(o).len());},
        (AlpacaOrderStatus::Stopped, OrderStatus::PartiallyFilled) => {assert(status_wire(s).len() != engine_status_name(o).len());},
        (AlpacaOrderStatus::Stopped, OrderStatus::Filled) => {assert(status_wire(s).len() != engine_status_name(o).len());},
        (AlpacaOrderStatus::Calculated, OrderStatus::Initialized) => {assert(status_wire(s).len() != engine_status_name(o).len());},
        (AlpacaOrderStatus::Calculated, OrderStatus::Denied) => {assert(status_wire(s).len() != engine_status_name(o).len());},
        (AlpacaOrderStatus::Calculated, OrderStatus::Emulated) => {assert(status_wire(s).len() != engine_status_name(o).len());},
        (AlpacaOrderStatus::Calculated, OrderStatus::Released) => {assert(status_wire(s).len() != engine_status_name(o).len());},
        (AlpacaOrderStatus::Calculated, OrderStatus::Submitted) => {assert(status_wire(s).len() != engine_status_name(o).len());},
        (AlpacaOrderStatus::Calculated, OrderStatus::Accepted) => {assert(status_wire(s).len() != engine_status_name(o).len());},
        (AlpacaOrderStatus::Calculated, OrderStatus::Rejected) => {assert(status_wire(s).len() != engine_status_name(o).len());},
        (AlpacaOrderStatus::Calculated, OrderStatus::Canceled) => {assert(status_wire(s).len() != engine_status_name(o).len());},
        (AlpacaOrderStatus::Calculated, OrderStatus::Expired) => {assert(status_wire(s).len() != engine_status_name(o).len());},
        (AlpacaOrderStatus::Calculated, OrderStatus::Triggered) => {assert(status_wire(s).len() != engine_status_name(o).len());},
        (AlpacaOrderStatus::Calculated, OrderStatus::PendingUpdate) => {assert(status_wire(s).len() != engine_status_name(o).len());},
        (AlpacaOrderStatus::Calculated, OrderStatus::PendingCancel) => {assert(status_wire(s).len() != engine_status_name(o).len());},
        (AlpacaOrderStatus::Calculated, OrderStatus::PartiallyFilled) => {assert(status_wire(s).len() != engine_status_name(o).len());},
        (AlpacaOrderStatus::Calculated, OrderStatus::Filled) => {assert(status_wire(s).len() != engine_status_name(o).len());},
        (AlpacaOrderStatus::Held, OrderStatus::Initialized) => {assert(status_wire(s).len() != engine_status_name(o).len());},
        (AlpacaOrderStatus::Held, OrderStatus::Denied) => {assert(status_wire(s).len() != engine_status_name(o).len());},
        (AlpacaOrderStatus::Held, OrderStatus::Emulated) => {assert(status_wire(s).len() != engine_status_name(o).len());},
        (AlpacaOrderStatus::Held, OrderStatus::Released) => {assert(status_wire(s).len() != engine_status_name(o).len());},
        (AlpacaOrderStatus::Held, OrderStatus::Submitted) => {assert(status_wire(s).len() != engine_status_name(o).len());},
        (AlpacaOrderStatus::Held, OrderStatus::Accepted) => {assert(status_wire(s).len() != engine_status_name(o).len());},
        (AlpacaOrderStatus::Held, OrderStatus::Rejected) => {assert(status_wire(s).len() != engine_status_name(o).len());},
        (AlpacaOrderStatus::Held, OrderStatus::Canceled) => {assert(status_wire(s).len() != engine_status_name(o).len());},
        (AlpacaOrderStatus::Held, OrderStatus::Expired) => {assert(status_wire(s).len() != engine_status_name(o).len());},
        (AlpacaOrderStatus::Held, OrderStatus::Triggered) => {assert(status_wire(s).len() != engine_status_name(o).len());},
        (AlpacaOrderStatus::Held, OrderStatus::PendingUpdate) => {assert(status_wire(s).len() != engine_status_name(o).len());},
        (AlpacaOrderStatus::Held, OrderStatus::PendingCancel) => {assert(status_wire(s).len() != engine_status_name(o).len());},
        (AlpacaOrderStatus::Held, OrderStatus::PartiallyFilled) => {assert(status_wire(s).len() != engine_status_name(o).len());},
        (AlpacaOrderStatus::Held, OrderStatus::Filled) => {assert(status_wire(s).len() != engine_status_name(o).len());},
        (AlpacaOrderStatus::Unknown, OrderStatus::Initialized) => {assert(status_wire(s).len() != engine_status_name(o).len());},
        (AlpacaOrderStatus::Unknown, OrderStatus::Denied) => {assert(status_wire(s).len() != engine_status_name(o).len());},
        (AlpacaOrderStatus::Unknown, OrderStatus::Emulated) => {assert(status_wire(s).len() != engine_status_name(o).len());},
        (AlpacaOrderStatus::Unknown, OrderStatus::Released) => {assert(status_wire(s).len() != engine_status_name(o).len());},
        (AlpacaOrderStatus::Unknown, OrderStatus::Submitted) => {assert(status_wire(s).len() != engine_status_name(o).len());},
        (AlpacaOrderStatus::Unknown, OrderStatus::Accepted) => {assert(status_wire(s).len() != engine_status_name(o).len());},
        (AlpacaOrderStatus::Unknown, OrderStatus::Rejected) => {assert(status_wire(s).len() != engine_status_name(o).len());},
        (AlpacaOrderStatus::Unknown, OrderStatus::Canceled) => {assert(status_wire(s).len() != engine_status_name(o).len());},
        (AlpacaOrderStatus::Unknown, OrderStatus::Expired) => {assert(status_wire(s).len() != engine_status_name(o).len());},
        (AlpacaOrderStatus::Unknown, OrderStatus::Triggered) => {assert(status_wire(s).len() != engine_status_name(o).len());},
        (AlpacaOrderStatus::Unknown, OrderStatus::PendingUpdate) => {assert(status_wire(s).len() != engine_status_name(o).len());},
        (AlpacaOrderStatus::Unknown, OrderStatus::PendingCancel) => {assert(status_wire(s).len() != engine_status_name(o).len());},
        (AlpacaOrderStatus::Unknown, OrderStatus::PartiallyFilled) => {assert(status_wire(s).len() != engine_status_name(o).len());},
        (AlpacaOrderStatus::Unknown, OrderStatus::Filled) => {assert(status_wire(s).len() != engine_status_name(o).len());},
    }
}

/// The engine's name for each time in force, in the venue's lower-case spelling.
pub open spec fn engine_tif_name(t: TimeInForce) -> Seq<char> {
    match t {
        TimeInForce::Gtc => seq!['g', 't', 'c'],
        TimeInForce::Ioc => seq!['i', 'o', 'c'],
        TimeInForce::Fok => seq!['f', 'o', 'k'],
        TimeInForce::Gtd => seq!['g', 't', 'd'],
        TimeInForce::Day => seq!['d', 'a', 'y'],
        TimeInForce::AtTheOpen => seq!['a', 't', '_', 't', 'h', 'e', '_', 'o', 'p', 'e', 'n'],
        TimeInForce::AtTheClose => seq!['a', 't', '_', 't', 'h', 'e', '_', 'c', 'l', 'o', 's', 'e'],
    }
}

/// A time in force is sent under the venue value of the same name, and that value reads back as
/// it (`ioc` for `IOC`, `fok` for `FOK`, `day` for `DAY`, `gtc` for `GTC`); the auctions, which
/// the venue names `opg` and `cls`, go to those.
pub proof fn lemma_tif_keeps_its_name(t: TimeInForce, v: AlpacaTimeInForce)
    ensures
        tif_wire(v) == engine_tif_name(t) ==> spec_tif_from_nautilus(t) == Ok::<
            AlpacaTimeInForce,
            ConversionError,
        >(v) && spec_tif_to_nautilus(v) == Ok::<TimeInForce, ConversionError>(t),
        t == TimeInForce::AtTheOpen <==> (spec_tif_from_nautilus(t) matches Ok(a) && tif_wire(a)
            == seq!['o', 'p', 'g']),
        t == TimeInForce::AtTheClose <==> (spec_tif_from_nautilus(t) matches Ok(a) && tif_wire(a)
            == seq!['c', 'l', 's']),
{
    match (v, t) {
        (AlpacaTimeInForce::Day, TimeInForce::Gtc) => {assert(tif_wire(v)[0] != engine_tif_name(t)[0]);},
        (AlpacaTimeInForce::Day, TimeInForce::Ioc) => {assert(tif_wire(v)[0] != engine_tif_name(t)[0]);},
        (AlpacaTimeInForce::Day, TimeInForce::Fok) => {assert(tif_wire(v)[0] != engine_tif_name(t)[0]);},
        (AlpacaTimeInForce::Day, TimeInForce::Gtd) => {assert(tif_wire(v)[0] != engine_tif_name(t)[0]);},
        (AlpacaTimeInForce::Day, TimeInForce::Day) => {},
        (AlpacaTimeInForce::Day, TimeInForce::AtTheOpen) => {assert(tif_wire(v).len() != engine_tif_name(t).len());},
        (AlpacaTimeInForce::Day, TimeInForce::AtTheClose) => {assert(tif_wire(v).len() != engine_tif_name(t).len());},
        (AlpacaTimeInForce::Gtc, TimeInForce::Gtc) => {},
        (AlpacaTimeInForce::Gtc, TimeInForce::Ioc) => {assert(tif_wire(v)[0] != engine_tif_name(t)[0]);},
        (AlpacaTimeInForce::Gtc, TimeInForce::Fok) => {assert(tif_wire(v)[0] != engine_tif_name(t)[0]);},
        (AlpacaTimeInForce::Gtc, TimeInForce::Gtd) => {assert(tif_wire(v)[2] != engine_tif_name(t)[2]);},
        (AlpacaTimeInForce::Gtc, TimeInForce::Day) => {assert(tif_wire(v)[0] != engine_tif_name(t)[0]);},
        (AlpacaTimeInForce::Gtc, TimeInForce::AtTheOpen) => {assert(tif_wire(v).len() != engine_tif_name(t).len());},
        (AlpacaTimeInForce::Gtc, TimeInForce::AtTheClose) => {assert(tif_wire(v).len() != engine_tif_name(t).len());},
        (AlpacaTimeInForce::Opg, TimeInForce::Gtc) => {assert(tif_wire(v)[0] != engine_tif_name(t)[0]);},
        (AlpacaTimeInForce::Opg, TimeInForce::Ioc) => {assert(tif_wire(v)[0] != engine_tif_name(t)[0]);},
        (AlpacaTimeInForce::Opg, TimeInForce::Fok) => {assert(tif_wire(v)[0] != engine_tif_name(t)[0]);},
        (AlpacaTimeInForce::Opg, TimeInForce::Gtd) => {assert(tif_wire(v)[0] != engine_tif_name(t)[0]);},
        (AlpacaTimeInForce::Opg, TimeInForce::Day) => {assert(tif_wire(v)[0] != engine_tif_name(t)[0]);},
        (AlpacaTimeInForce::Opg, TimeInForce::AtTheOpen) => {assert(tif_wire(v).len() != engine_tif_name(t).len());},
        (AlpacaTimeInForce::Opg, TimeInForce::AtTheClose) => {assert(tif_wire(v).len() != engine_tif_name(t).len());},
        (AlpacaTimeInForce::Cls, TimeInForce::Gtc) => {assert(tif_wire(v)[0] != engine_tif_name(t)[0]);},
        (AlpacaTimeInForce::Cls, TimeInForce::Ioc) => {assert(tif_wire(v)[0] != engine_tif_name(t)[0]);},
        (AlpacaTimeInForce::Cls, TimeInForce::Fok) => {assert(tif_wire(v)[0] != engine_tif_name(t)[0]);},
        (AlpacaTimeInForce::Cls, TimeInForce::Gtd) => {assert(tif_wire(v)[0] != engine_tif_name(t)[0]);},
        (AlpacaTimeInForce::Cls, TimeInForce::Day) => {assert(tif_wire(v)[0] != engine_tif_name(t)[0]);},
        (AlpacaTimeInForce::Cls, TimeInForce::AtTheOpen) => {assert(tif_wire(v).len() != engine_tif_name(t).len());},
        (AlpacaTimeInForce::Cls, TimeInForce::AtTheClose) => {assert(tif_wire(v).len() != engine_tif_name(t).len());},
        (AlpacaTimeInForce::Ioc, TimeInForce::Gtc) => {assert(tif_wire(v)[0] != engine_tif_name(t)[0]);},
        (AlpacaTimeInForce::Ioc, TimeInForce::Ioc) => {},
        (AlpacaTimeInForce::Ioc, TimeInForce::Fok) => {assert(tif_wire(v)[0] != engine_tif_name(t)[0]);},
        (AlpacaTimeInForce::Ioc, TimeInForce::Gtd) => {assert(tif_wire(v)[0] != engine_tif_name(t)[0]);},
        (AlpacaTimeInForce::Ioc, TimeInForce::Day) => {assert(tif_wire(v)[0] != engine_tif_name(t)[0]);},
        (AlpacaTimeInForce::Ioc, TimeInForce::AtTheOpen) => {assert(tif_wire(v).len() != engine_tif_name(t).len());},
        (AlpacaTimeInForce::Ioc, TimeInForce::AtTheClose) => {assert(tif_wire(v).len() != engine_tif_name(t).len());},
        (AlpacaTimeInForce::Fok, TimeInForce::Gtc) => {assert(tif_wire(v)[0] != engine_tif_name(t)[0]);},
        (AlpacaTimeInForce::Fok, TimeInForce::Ioc) => {assert(tif_wire(v)[0] != engine_tif_name(t)[0]);},
        (AlpacaTimeInForce::Fok, TimeInForce::Fok) => {},
        (AlpacaTimeInForce::Fok, TimeInForce::Gtd) => {assert(tif_wire(v)[0] != engine_tif_name(t)[0]);},
        (AlpacaTimeInForce::Fok, TimeInForce::Day) => {assert(tif_wire(v)[0] != engine_tif_name(t)[0]);},
        (AlpacaTimeInForce::Fok, TimeInForce::AtTheOpen) => {assert(tif_wire(v).len() != engine_tif_name(t).len());},
        (AlpacaTimeInForce::Fok, TimeInForce::AtTheClose) => {assert(tif_wire(v).len() != engine_tif_name(t).len());},
        (AlpacaTimeInForce::Unknown, TimeInForce::Gtc) => {assert(tif_wire(v).len() != engine_tif_name(t).len());},
        (AlpacaTimeInForce::Unknown, TimeInForce::Ioc) => {assert(tif_wire(v).len() != engine_tif_name(t).len());},
        (AlpacaTimeInForce::Unknown, TimeInForce::Fok) => {assert(tif_wire(v).len() != engine_tif_name(t).len());},
        (AlpacaTimeInForce::Unknown, TimeInForce::Gtd) => {assert(tif_wire(v).len() != engine_tif_name(t).len());},
        (AlpacaTimeInForce::Unknown, TimeInForce::Day) => {assert(tif_wire(v).len() != engine_tif_name(t).len());},
        (AlpacaTimeInForce::Unknown, TimeInForce::AtTheOpen) => {assert(tif_wire(v).len() != engine_tif_name(t).len());},
        (AlpacaTimeInForce::Unknown, TimeInForce::AtTheClose) => {assert(tif_wire(v).len() != engine_tif_name(t).len());},
    }
    let opg = seq!['o', 'p', 'g'];
    let cls = seq!['c', 'l', 's'];
    assert(seq!['d', 'a', 'y'][0] != opg[0] && seq!['d', 'a', 'y'][0] != cls[0]);
    assert(seq!['g', 't', 'c'][0] != opg[0] && seq!['g', 't', 'c'][0] != cls[0]);
    assert(seq!['i', 'o', 'c'][0] != opg[0] && seq!['i', 'o', 'c'][0] != cls[0]);
    assert(seq!['f', 'o', 'k'][0] != opg[0] && seq!['f', 'o', 'k'][0] != cls[0]);
    assert(opg[0] != cls[0]);
}

/// The engine's name for each order side, in the venue's lower-case spelling.
pub open spec fn engine_side_name(s: OrderSide) -> Seq<char> {
    match s {
        OrderSide::NoOrderSide => seq!['n', 'o', '_', 'o', 'r', 'd', 'e', 'r', '_', 's', 'i', 'd', 'e'],
        OrderSide::Buy => seq!['b', 'u', 'y'],
        OrderSide::Sell => seq!['s', 'e', 'l', 'l'],
    }
}

/// A side is submitted under the venue side of the same name, and that side reads back as it:
/// `buy` is a buy and `sell` a sell.
pub proof fn lemma_side_keeps_its_name(s: OrderSide, v: AlpacaOrderSide)
    ensures
        side_wire(v) == engine_side_name(s) ==> spec_side_from_nautilus(s) == Ok::<
            AlpacaOrderSide,
            ConversionError,
        >(v) && spec_side_to_nautilus(v) == Ok::<OrderSide, ConversionError>(s),
{
    match (v, s) {
        (AlpacaOrderSide::Buy, OrderSide::NoOrderSide) => {assert(side_wire(v).len() != engine_side_name(s).len());},
        (AlpacaOrderSide::Buy, OrderSide::Buy) => {},
        (AlpacaOrderSide::Buy, OrderSide::Sell) => {assert(side_wire(v).len() != engine_side_name(s).len());},
        (AlpacaOrderSide::Sell, OrderSide::NoOrderSide) => {assert(side_wire(v).len() != engine_side_name(s).len());},
        (AlpacaOrderSide::Sell, OrderSide::Buy) => {assert(side_wire(v).len() != engine_side_name(s).len());},
        (AlpacaOrderSide::Sell, OrderSide::Sell) => {},
        (AlpacaOrderSide::SellShort, OrderSide::NoOrderSide) => {assert(side_wire(v).len() != engine_side_name(s).len());},
        (AlpacaOrderSide::SellShort, OrderSide::Buy) => {assert(side_wire(v).len() != engine_side_name(s).len());},
        (AlpacaOrderSide::SellShort, OrderSide::Sell) => {assert(side_wire(v).len() != engine_side_name(s).len());},
        (AlpacaOrderSide::Unknown, OrderSide::NoOrderSide) => {assert(side_wire(v).len() != engine_side_name(s).len());},
        (AlpacaOrderSide::Unknown, OrderSide::Buy) => {assert(side_wire(v).len() != engine_side_name(s).len());},
        (AlpacaOrderSide::Unknown, OrderSide::Sell) => {assert(side_wire(v).len() != engine_side_name(s).len());},
    }
}

/// The engine's name for each order type, in the venue's lower-case spelling.
pub open spec fn engine_order_type_name(t: OrderType) -> Seq<char> {
    match t {
        OrderType::Market => seq!['m', 'a', 'r', 'k', 'e', 't'],
        OrderType::Limit => seq!['l', 'i', 'm', 'i', 't'],
        OrderType::StopMarket => seq!['s', 't', 'o', 'p', '_', 'm', 'a', 'r', 'k', 'e', 't'],
        OrderType::StopLimit => seq!['s', 't', 'o', 'p', '_', 'l', 'i', 'm', 'i', 't'],
        OrderType::MarketToLimit => seq!['m', 'a', 'r', 'k', 'e', 't', '_', 't', 'o', '_', 'l', 'i', 'm', 'i', 't'],
        OrderType::MarketIfTouched => seq!['m', 'a', 'r', 'k', 'e', 't', '_', 'i', 'f', '_', 't', 'o', 'u', 'c', 'h', 'e', 'd'],
        OrderType::LimitIfTouched => seq!['l', 'i', 'm', 'i', 't', '_', 'i', 'f', '_', 't', 'o', 'u', 'c', 'h', 'e', 'd'],
        OrderType::TrailingStopMarket => seq!['t', 'r', 'a', 'i', 'l', 'i', 'n', 'g', '_', 's', 't', 'o', 'p', '_', 'm', 'a', 'r', 'k', 'e', 't'],
        OrderType::TrailingStopLimit => seq!['t', 'r', 'a', 'i', 'l', 'i', 'n', 'g', '_', 's', 't', 'o', 'p', '_', 'l', 'i', 'm', 'i', 't'],
    }
}

/// An order type is submitted under the venue type of the same name, the venue leaving the
/// `_market` of a stop off (`stop` for `STOP_MARKET`, `trailing_stop` for
/// `TRAILING_STOP_MARKET`), and that type reads back as it.
pub proof fn lemma_order_type_keeps_its_name(t: OrderType, v: AlpacaOrderType)
    ensures
        (order_type_wire(v) == engine_order_type_name(t) || order_type_wire(v) + seq!['_', 'm', 'a', 'r', 'k', 'e', 't']
            == engine_order_type_name(t)) ==> spec_order_type_from_nautilus(t) == Ok::<
            AlpacaOrderType,
            ConversionError,
        >(v) && spec_order_type_to_nautilus(v) == Ok::<OrderType, ConversionError>(t),
{
    let suffix = seq!['_', 'm', 'a', 'r', 'k', 'e', 't'];
    match (v, t) {
        (AlpacaOrderType::Market, OrderType::Market) => {assert((order_type_wire(v) + suffix).len() != engine_order_type_name(t).len());},
        (AlpacaOrderType::Market, OrderType::Limit) => {assert(order_type_wire(v).len() != engine_order_type_name(t).len()); assert((order_type_wire(v) + suffix).len() != engine_order_type_name(t).len());},
        (AlpacaOrderType::Market, OrderType::StopMarket) => {assert(order_type_wire(v).len() != engine_order_type_name(t).len()); assert((order_type_wire(v) + suffix).len() != engine_order_type_name(t).len());},
        (AlpacaOrderType::Market, OrderType::StopLimit) => {assert(order_type_wire(v).len() != engine_order_type_name(t).len()); assert((order_type_wire(v) + suffix).len() != engine_order_type_name(t).len());},
        (AlpacaOrderType::Market, OrderType::MarketToLimit) => {assert(order_type_wire(v).len() != engine_order_type_name(t).len()); assert((order_type_wire(v) + suffix).len() != engine_order_type_name(t).len());},
        (AlpacaOrderType::Market, OrderType::MarketIfTouched) => {assert(order_type_wire(v).len() != engine_order_type_name(t).len()); assert((order_type_wire(v) + suffix).len() != engine_order_type_name(t).len());},
        (AlpacaOrderType::Market, OrderType::LimitIfTouched) => {assert(order_type_wire(v).len() != engine_order_type_name(t).len()); assert((order_type_wire(v) + suffix).len() != engine_order_type_name(t).len());},
        (AlpacaOrderType::Market, OrderType::TrailingStopMarket) => {assert(order_type_wire(v).len() != engine_order_type_name(t).len()); assert((order_type_wire(v) + suffix).len() != engine_order_type_name(t).len());},
        (AlpacaOrderType::Market, OrderType::TrailingStopLimit) => {assert(order_type_wire(v).len() != engine_order_type_name(t).len()); assert((order_type_wire(v) + suffix).len() != engine_order_type_name(t).len());},
        (AlpacaOrderType::Limit, OrderType::Market) => {assert(order_type_wire(v).len() != engine_order_type_name(t).len()); assert((order_type_wire(v) + suffix).len() != engine_order_type_name(t).len());},
        (AlpacaOrderType::Limit, OrderType::Limit) => {assert((order_type_wire(v) + suffix).len() != engine_order_type_name(t).len());},
        (AlpacaOrderType::Limit, OrderType::StopMarket) => {assert(order_type_wire(v).len() != engine_order_type_name(t).len()); assert((order_type_wire(v) + suffix).len() != engine_order_type_name(t).len());},
        (AlpacaOrderType::Limit, OrderType::StopLimit) => {assert(order_type_wire(v).len() != engine_order_type_name(t).len()); assert((order_type_wire(v) + suffix).len() != engine_order_type_name(t).len());},
        (AlpacaOrderType::Limit, OrderType::MarketToLimit) => {assert(order_type_wire(v).len() != engine_order_type_name(t).len()); assert((order_type_wire(v) + suffix).len() != engine_order_type_name(t).len());},
        (AlpacaOrderType::Limit, OrderType::MarketIfTouched) => {assert(order_type_wire(v).len() != engine_order_type_name(t).len()); assert((order_type_wire(v) + suffix).len() != engine_order_type_name(t).len());},
        (AlpacaOrderType::Limit, OrderType::LimitIfTouched) => {assert(order_type_wire(v).len() != engine_order_type_name(t).len()); assert((order_type_wire(v) + suffix).len() != engine_order_type_name(t).len());},
        (AlpacaOrderType::Limit, OrderType::TrailingStopMarket) => {assert(order_type_wire(v).len() != engine_order_type_name(t).len()); assert((order_type_wire(v) + suffix).len() != engine_order_type_name(t).len());},
        (AlpacaOrderType::Limit, OrderType::TrailingStopLimit) => {assert(order_type_wire(v).len() != engine_order_type_name(t).len()); assert((order_type_wire(v) + suffix).len() != engine_order_type_name(t).len());},
        (AlpacaOrderType::Stop, OrderType::Market) => {assert(order_type_wire(v).len() != engine_order_type_name(t).len()); assert((order_type_wire(v) + suffix).len() != engine_order_type_name(t).len());},
        (AlpacaOrderType::Stop, OrderType::Limit) => {assert(order_type_wire(v).len() != engine_order_type_name(t).len()); assert((order_type_wire(v) + suffix).len() != engine_order_type_name(t).len());},
        (AlpacaOrderType::Stop, OrderType::StopMarket) => {assert(order_type_wire(v).len() != engine_order_type_name(t).len());},
        (AlpacaOrderType::Stop, OrderType::StopLimit) => {assert(order_type_wire(v).len() != engine_order_type_name(t).len()); assert((order_type_wire(v) + suffix).len() != engine_order_type_name(t).len());},
        (AlpacaOrderType::Stop, OrderType::MarketToLimit) => {assert(order_type_wire(v).len() != engine_order_type_name(t).len()); assert((order_type_wire(v) + suffix).len() != engine_order_type_name(t).len());},
        (AlpacaOrderType::Stop, OrderType::MarketIfTouched) => {assert(order_type_wire(v).len() != engine_order_type_name(t).len()); assert((order_type_wire(v) + suffix).len() != engine_order_type_name(t).len());},
        (AlpacaOrderType::Stop, OrderType::LimitIfTouched) => {assert(order_type_wire(v).len() != engine_order_type_name(t).len()); assert((order_type_wire(v) + suffix).len() != engine_order_type_name(t).len());},
        (AlpacaOrderType::Stop, OrderType::TrailingStopMarket) => {assert(order_type_wire(v).len() != engine_order_type_name(t).len()); assert((order_type_wire(v) + suffix).len() != engine_order_type_name(t).len());},
        (AlpacaOrderType::Stop, OrderType::TrailingStopLimit) => {assert(order_type_wire(v).len() != engine_order_type_name(t).len()); assert((order_type_wire(v) + suffix).len() != engine_order_type_name(t).len());},
        (AlpacaOrderType::StopLimit, OrderType::Market) => {assert(order_type_wire(v).len() != engine_order_type_name(t).len()); assert((order_type_wire(v) + suffix).len() != engine_order_type_name(t).len());},
        (AlpacaOrderType::StopLimit, OrderType::Limit) => {assert(order_type_wire(v).len() != engine_order_type_name(t).len()); assert((order_type_wire(v) + suffix).len() != engine_order_type_name(t).len());},
        (AlpacaOrderType::StopLimit, OrderType::StopMarket) => {assert(order_type_wire(v).len() != engine_order_type_name(t).len()); assert((order_type_wire(v) + suffix).len() != engine_order_type_name(t).len());},
        (AlpacaOrderType::StopLimit, OrderType::StopLimit) => {assert((order_type_wire(v) + suffix).len() != engine_order_type_name(t).len());},
        (AlpacaOrderType::StopLimit, OrderType::MarketToLimit) => {assert(order_type_wire(v).len() != engine_order_type_name(t).len()); assert((order_type_wire(v) + suffix).len() != engine_order_type_name(t).len());},
        (AlpacaOrderType::StopLimit, OrderType::MarketIfTouched) => {assert(order_type_wire(v).len() != engine_order_type_name(t).len()); assert((order_type_wire(v) + suffix)[0] != engine_order_type_name(t)[0]);},
        (AlpacaOrderType::StopLimit, OrderType::LimitIfTouched) => {assert(order_type_wire(v).len() != engine_order_type_name(t).len()); assert((order_type_wire(v) + suffix).len() != engine_order_type_name(t).len());},
        (AlpacaOrderType::StopLimit, OrderType::TrailingStopMarket) => {assert(order_type_wire(v).len() != engine_order_type_name(t).len()); assert((order_type_wire(v) + suffix).len() != engine_order_type_name(t).len());},
        (AlpacaOrderType::StopLimit, OrderType::TrailingStopLimit) => {assert(order_type_wire(v).len() != engine_order_type_name(t).len()); assert((order_type_wire(v) + suffix).len() != engine_order_type_name(t).len());},
        (AlpacaOrderType::TrailingStop, OrderType::Market) => {assert(order_type_wire(v).len() != engine_order_type_name(t).len()); assert((order_type_wire(v) + suffix).len() != engine_order_type_name(t).len());},
        (AlpacaOrderType::TrailingStop, OrderType::Limit) => {assert(order_type_wire(v).len() != engine_order_type_name(t).len()); assert((order_type_wire(v) + suffix).len() != engine_order_type_name(t).len());},
        (AlpacaOrderType::TrailingStop, OrderType::StopMarket) => {assert(order_type_wire(v).len() != engine_order_type_name(t).len()); assert((order_type_wire(v) + suffix).len() != engine_order_type_name(t).len());},
        (AlpacaOrderType::TrailingStop, OrderType::StopLimit) => {assert(order_type_wire(v).len() != engine_order_type_name(t).len()); assert((order_type_wire(v) + suffix).len() != engine_order_type_name(t).len());},
        (AlpacaOrderType::TrailingStop, OrderType::MarketToLimit) => {assert(order_type_wire(v).len() != engine_order_type_name(t).len()); assert((order_type_wire(v) + suffix).len() != engine_order_type_name(t).len());},
        (AlpacaOrderType::TrailingStop, OrderType::MarketIfTouched) => {assert(order_type_wire(v).len() != engine_order_type_name(t).len()); assert((order_type_wire(v) + suffix).len() != engine_order_type_name(t).len());},
        (AlpacaOrderType::TrailingStop, OrderType::LimitIfTouched) => {assert(order_type_wire(v).len() != engine_order_type_name(t).len()); assert((order_type_wire(v) + suffix).len() != engine_order_type_name(t).len());},
        (AlpacaOrderType::TrailingStop, OrderType::TrailingStopMarket) => {assert(order_type_wire(v).len() != engine_order_type_name(t).len());},
        (AlpacaOrderType::TrailingStop, OrderType::TrailingStopLimit) => {assert(order_type_wire(v).len() != engine_order_type_name(t).len()); assert((order_type_wire(v) + suffix).len() != engine_order_type_name(t).len());},
        (AlpacaOrderType::Unknown, OrderType::Market) => {assert(order_type_wire(v).len() != engine_order_type_name(t).len()); assert((order_type_wire(v) + suffix).len() != engine_order_type_name(t).len());},
        (AlpacaOrderType::Unknown, OrderType::Limit) => {assert(order_type_wire(v).len() != engine_order_type_name(t).len()); assert((order_type_wire(v) + suffix).len() != engine_order_type_name(t).len());},
        (AlpacaOrderType::Unknown, OrderType::StopMarket) => {assert(order_type_wire(v).len() != engine_order_type_name(t).len()); assert((order_type_wire(v) + suffix).len() != engine_order_type_name(t).len());},
        (AlpacaOrderType::Unknown, OrderType::StopLimit) => {assert(order_type_wire(v).len() != engine_order_type_name(t).len()); assert((order_type_wire(v) + suffix).len() != engine_order_type_name(t).len());},
        (AlpacaOrderType::Unknown, OrderType::MarketToLimit) => {assert(order_type_wire(v).len() != engine_order_type_name(t).len()); assert((order_type_wire(v) + suffix).len() != engine_order_type_name(t).len());},
        (AlpacaOrderType::Unknown, OrderType::MarketIfTouched) => {assert(order_type_wire(v).len() != engine_order_type_name(t).len()); assert((order_type_wire(v) + suffix).len() != engine_order_type_name(t).len());},
        (AlpacaOrderType::Unknown, OrderType::LimitIfTouched) => {assert(order_type_wire(v).len() != engine_order_type_name(t).len()); assert((order_type_wire(v) + suffix).len() != engine_order_type_name(t).len());},
        (AlpacaOrderType::Unknown, OrderType::TrailingStopMarket) => {assert(order_type_wire(v).len() != engine_order_type_name(t).len()); assert((order_type_wire(v) + suffix).len() != engine_order_type_name(t).len());},
        (AlpacaOrderType::Unknown, OrderType::TrailingStopLimit) => {assert(order_type_wire(v).len() != engine_order_type_name(t).len()); assert((order_type_wire(v) + suffix).len() != engine_order_type_name(t).len());},
    }
}

} // verus!
