//! Frames and payloads of the Alpaca trading event stream.

use vstd::prelude::*;

use crate::{common::text::{eq_ignore_ascii_case, str_eq_ignore_ascii_case}, http::models::AlpacaOrder};

verus! {

/// Name of the trade update stream.
pub const STREAM_TRADE_UPDATES: &'static str = "trade_updates";

/// Name of the stream answering authentication.
pub const STREAM_AUTHORIZATION: &'static str = "authorization";

/// Name of the stream confirming a subscription.
pub const STREAM_LISTENING: &'static str = "listening";

/// Returns true when a frame's stream is the trade update stream: only its frames are payloads
/// for the update reader, and frames of other streams (the venue may add some) are passed over.
pub fn is_trade_update_stream(name: &str) -> (res: bool)
    ensures
        res == (name@ == STREAM_TRADE_UPDATES@),
{
    crate::common::text::str_equals(name, STREAM_TRADE_UPDATES)
}

/// Authentication frame.
#[derive(Clone)]
pub struct AuthMessage {
    /// Always `auth`.
    pub action: &'static str,
    /// API key ID.
    pub key: String,
    /// API secret key.
    pub secret: String,
}

impl AuthMessage {
    /// Creates an authentication frame.
    pub fn new(key: &str, secret: &str) -> (res: Self)
        ensures
            res.action@ == "auth"@,
            res.key@ == key@,
            res.secret@ == secret@,
    {
        AuthMessage { action: "auth", key: String::from_str(key), secret: String::from_str(secret) }
    }
}

/// A list of stream names.
#[derive(Clone, Debug, PartialEq, Eq)]
pub struct StreamList {
    /// Stream names.
    pub streams: Vec<String>,
}

/// Subscription frame.
#[derive(Clone, Debug)]
pub struct ListenMessage {
    /// Always `listen`.
    pub action: &'static str,
    /// Streams to subscribe to.
    pub data: StreamList,
}

impl ListenMessage {
    /// Creates a subscription frame for the trade update stream.
    pub fn trade_updates() -> (res: Self)
        ensures
            res.action@ == "listen"@,
            res.data.streams@.len() == 1,
            res.data.streams@[0]@ == STREAM_TRADE_UPDATES@,
    {
        let mut streams = Vec::new();
        streams.push(String::from_str(STREAM_TRADE_UPDATES));
        ListenMessage { action: "listen", data: StreamList { streams } }
    }
}

/// Payload of the authorization stream.
#[derive(Clone, Debug, PartialEq, Eq)]
pub struct AuthorizationData {
    /// `authorized` on success.
    pub status: String,
    /// The action being answered.
    pub action: Option<String>,
}

impl AuthorizationData {
    /// Returns true when the connection was authorized (`authorized`, in any ASCII case).
    pub fn is_authorized(&self) -> (res: bool)
        ensures
            res == eq_ignore_ascii_case(self.status@, "authorized"@),
    {
        str_eq_ignore_ascii_case(self.status.as_str(), "authorized")
    }
}

/// Trade update event kinds.
#[derive(Copy, Clone, Debug, PartialEq, Eq, Hash, Structural)]
pub enum AlpacaTradeEvent {
    /// Order accepted and working.
    New,
    /// Order received by the venue but not yet routed.
    Accepted,
    /// Order accepted for bidding.
    AcceptedForBidding,
    /// Order held pending the market session.
    Held,
    /// Order under venue review.
    PendingReview,
    /// Order fully filled.
    Fill,
    /// Order partially filled.
    PartialFill,
    Canceled,
    Expired,
    DoneForDay,
    /// Order replaced by an amendment.
    Replaced,
    Rejected,
    PendingNew,
    PendingCancel,
    PendingReplace,
    Stopped,
    Calculated,
    Suspended,
    /// An amendment was refused; the original order is unchanged.
    OrderReplaceRejected,
    /// A cancellation was refused; the order is still working.
    OrderCancelRejected,
    /// Any event this adapter does not model.
    Unknown,
}

/// The venue's wire spelling of each [`AlpacaTradeEvent`].
pub open spec fn event_wire(v: AlpacaTradeEvent) -> Seq<char> {
    match v {
        AlpacaTradeEvent::New => seq!['n', 'e', 'w'],
        AlpacaTradeEvent::Accepted => seq!['a', 'c', 'c', 'e', 'p', 't', 'e', 'd'],
        AlpacaTradeEvent::AcceptedForBidding => seq!['a', 'c', 'c', 'e', 'p', 't', 'e', 'd', '_', 'f', 'o', 'r', '_', 'b', 'i', 'd', 'd', 'i', 'n', 'g'],
        AlpacaTradeEvent::Held => seq!['h', 'e', 'l', 'd'],
        AlpacaTradeEvent::PendingReview => seq!['p', 'e', 'n', 'd', 'i', 'n', 'g', '_', 'r', 'e', 'v', 'i', 'e', 'w'],
        AlpacaTradeEvent::Fill => seq!['f', 'i', 'l', 'l'],
        AlpacaTradeEvent::PartialFill => seq!['p', 'a', 'r', 't', 'i', 'a', 'l', '_', 'f', 'i', 'l', 'l'],
        AlpacaTradeEvent::Canceled => seq!['c', 'a', 'n', 'c', 'e', 'l', 'e', 'd'],
        AlpacaTradeEvent::Expired => seq!['e', 'x', 'p', 'i', 'r', 'e', 'd'],
        AlpacaTradeEvent::DoneForDay => seq!['d', 'o', 'n', 'e', '_', 'f', 'o', 'r', '_', 'd', 'a', 'y'],
        AlpacaTradeEvent::Replaced => seq!['r', 'e', 'p', 'l', 'a', 'c', 'e', 'd'],
        AlpacaTradeEvent::Rejected => seq!['r', 'e', 'j', 'e', 'c', 't', 'e', 'd'],
        AlpacaTradeEvent::PendingNew => seq!['p', 'e', 'n', 'd', 'i', 'n', 'g', '_', 'n', 'e', 'w'],
        AlpacaTradeEvent::PendingCancel => seq!['p', 'e', 'n', 'd', 'i', 'n', 'g', '_', 'c', 'a', 'n', 'c', 'e', 'l'],
        AlpacaTradeEvent::PendingReplace => seq!['p', 'e', 'n', 'd', 'i', 'n', 'g', '_', 'r', 'e', 'p', 'l', 'a', 'c', 'e'],
        AlpacaTradeEvent::Stopped => seq!['s', 't', 'o', 'p', 'p', 'e', 'd'],
        AlpacaTradeEvent::Calculated => seq!['c', 'a', 'l', 'c', 'u', 'l', 'a', 't', 'e', 'd'],
        AlpacaTradeEvent::Suspended => seq!['s', 'u', 's', 'p', 'e', 'n', 'd', 'e', 'd'],
        AlpacaTradeEvent::OrderReplaceRejected => seq!['o', 'r', 'd', 'e', 'r', '_', 'r', 'e', 'p', 'l', 'a', 'c', 'e', '_', 'r', 'e', 'j', 'e', 'c', 't', 'e', 'd'],
        AlpacaTradeEvent::OrderCancelRejected => seq!['o', 'r', 'd', 'e', 'r', '_', 'c', 'a', 'n', 'c', 'e', 'l', '_', 'r', 'e', 'j', 'e', 'c', 't', 'e', 'd'],
        AlpacaTradeEvent::Unknown => seq![],
    }
}

/// Reads a wire value; anything unrecognised is [`AlpacaTradeEvent::Unknown`].
pub open spec fn event_from_wire(s: Seq<char>) -> AlpacaTradeEvent {
    if s == seq!['n', 'e', 'w'] {
        AlpacaTradeEvent::New
    } else if s == seq!['a', 'c', 'c', 'e', 'p', 't', 'e', 'd'] {
        AlpacaTradeEvent::Accepted
    } else if s == seq!['a', 'c', 'c', 'e', 'p', 't', 'e', 'd', '_', 'f', 'o', 'r', '_', 'b', 'i', 'd', 'd', 'i', 'n', 'g'] {
        AlpacaTradeEvent::AcceptedForBidding
    } else if s == seq!['h', 'e', 'l', 'd'] {
        AlpacaTradeEvent::Held
    } else if s == seq!['p', 'e', 'n', 'd', 'i', 'n', 'g', '_', 'r', 'e', 'v', 'i', 'e', 'w'] {
        AlpacaTradeEvent::PendingReview
    } else if s == seq!['f', 'i', 'l', 'l'] {
        AlpacaTradeEvent::Fill
    } else if s == seq!['p', 'a', 'r', 't', 'i', 'a', 'l', '_', 'f', 'i', 'l', 'l'] {
        AlpacaTradeEvent::PartialFill
    } else if s == seq!['c', 'a', 'n', 'c', 'e', 'l', 'e', 'd'] {
        AlpacaTradeEvent::Canceled
    } else if s == seq!['e', 'x', 'p', 'i', 'r', 'e', 'd'] {
        AlpacaTradeEvent::Expired
    } else if s == seq!['d', 'o', 'n', 'e', '_', 'f', 'o', 'r', '_', 'd', 'a', 'y'] {
        AlpacaTradeEvent::DoneForDay
    } else if s == seq!['r', 'e', 'p', 'l', 'a', 'c', 'e', 'd'] {
        AlpacaTradeEvent::Replaced
    } else if s == seq!['r', 'e', 'j', 'e', 'c', 't', 'e', 'd'] {
        AlpacaTradeEvent::Rejected
    } else if s == seq!['p', 'e', 'n', 'd', 'i', 'n', 'g', '_', 'n', 'e', 'w'] {
        AlpacaTradeEvent::PendingNew
    } else if s == seq!['p', 'e', 'n', 'd', 'i', 'n', 'g', '_', 'c', 'a', 'n', 'c', 'e', 'l'] {
        AlpacaTradeEvent::PendingCancel
    } else if s == seq!['p', 'e', 'n', 'd', 'i', 'n', 'g', '_', 'r', 'e', 'p', 'l', 'a', 'c', 'e'] {
        AlpacaTradeEvent::PendingReplace
    } else if s == seq!['s', 't', 'o', 'p', 'p', 'e', 'd'] {
        AlpacaTradeEvent::Stopped
    } else if s == seq!['c', 'a', 'l', 'c', 'u', 'l', 'a', 't', 'e', 'd'] {
        AlpacaTradeEvent::Calculated
    } else if s == seq!['s', 'u', 's', 'p', 'e', 'n', 'd', 'e', 'd'] {
        AlpacaTradeEvent::Suspended
    } else if s == seq!['o', 'r', 'd', 'e', 'r', '_', 'r', 'e', 'p', 'l', 'a', 'c', 'e', '_', 'r', 'e', 'j', 'e', 'c', 't', 'e', 'd'] {
        AlpacaTradeEvent::OrderReplaceRejected
    } else if s == seq!['o', 'r', 'd', 'e', 'r', '_', 'c', 'a', 'n', 'c', 'e', 'l', '_', 'r', 'e', 'j', 'e', 'c', 't', 'e', 'd'] {
        AlpacaTradeEvent::OrderCancelRejected
    } else {
        AlpacaTradeEvent::Unknown
    }
}

impl AlpacaTradeEvent {
    /// Returns true when the event carries execution detail.
    pub fn is_fill(self) -> (res: bool)
        ensures
            res == (self == AlpacaTradeEvent::Fill || self == AlpacaTradeEvent::PartialFill),
    {
        matches!(self, Self::Fill | Self::PartialFill)
    }

    /// Returns true when the event means the order is working or on its way there.
    ///
    /// The pending states are included: the venue has not finished with the order.
    pub fn is_working(self) -> (res: bool)
        ensures
            res == (self == AlpacaTradeEvent::New || self == AlpacaTradeEvent::Accepted || self
                == AlpacaTradeEvent::AcceptedForBidding || self == AlpacaTradeEvent::Held || self
                == AlpacaTradeEvent::PendingNew || self == AlpacaTradeEvent::PendingReview),
    {
        matches!(
            self,
            Self::New | Self::Accepted | Self::AcceptedForBidding | Self::Held | Self::PendingNew
                | Self::PendingReview
        )
    }

    /// Returns true when the event means an amendment or cancellation was refused, which leaves
    /// the order working.
    pub fn is_request_rejection(self) -> (res: bool)
        ensures
            res == (self == AlpacaTradeEvent::OrderReplaceRejected || self
                == AlpacaTradeEvent::OrderCancelRejected),
    {
        matches!(self, Self::OrderReplaceRejected | Self::OrderCancelRejected)
    }

    /// Returns the venue's wire spelling (empty for `Unknown`).
    pub fn as_str(&self) -> (res: &'static str)
        ensures
            res@ == event_wire(*self),
    {
        match self {
            AlpacaTradeEvent::New => {
                proof {
                    reveal_strlit("new");
                }
                "new"
            },
            AlpacaTradeEvent::Accepted => {
                proof {
                    reveal_strlit("accepted");
                }
                "accepted"
            },
            AlpacaTradeEvent::AcceptedForBidding => {
                proof {
                    reveal_strlit("accepted_for_bidding");
                }
                "accepted_for_bidding"
            },
            AlpacaTradeEvent::Held => {
                proof {
                    reveal_strlit("held");
                }
                "held"
            },
            AlpacaTradeEvent::PendingReview => {
                proof {
                    reveal_strlit("pending_review");
                }
                "pending_review"
            },
            AlpacaTradeEvent::Fill => {
                proof {
                    reveal_strlit("fill");
                }
                "fill"
            },
            AlpacaTradeEvent::PartialFill => {
                proof {
                    reveal_strlit("partial_fill");
                }
                "partial_fill"
            },
            AlpacaTradeEvent::Canceled => {
                proof {
                    reveal_strlit("canceled");
                }
                "canceled"
            },
            AlpacaTradeEvent::Expired => {
                proof {
                    reveal_strlit("expired");
                }
                "expired"
            },
            AlpacaTradeEvent::DoneForDay => {
                proof {
                    reveal_strlit("done_for_day");
                }
                "done_for_day"
            },
            AlpacaTradeEvent::Replaced => {
                proof {
                    reveal_strlit("replaced");
                }
                "replaced"
            },
            AlpacaTradeEvent::Rejected => {
                proof {
                    reveal_strlit("rejected");
                }
                "rejected"
            },
            AlpacaTradeEvent::PendingNew => {
                proof {
                    reveal_strlit("pending_new");
                }
                "pending_new"
            },
            AlpacaTradeEvent::PendingCancel => {
                proof {
                    reveal_strlit("pending_cancel");
                }
                "pending_cancel"
            },
            AlpacaTradeEvent::PendingReplace => {
                proof {
                    reveal_strlit("pending_replace");
                }
                "pending_replace"
            },
            AlpacaTradeEvent::Stopped => {
                proof {
                    reveal_strlit("stopped");
                }
                "stopped"
            },
            AlpacaTradeEvent::Calculated => {
                proof {
                    reveal_strlit("calculated");
                }
                "calculated"
            },
            AlpacaTradeEvent::Suspended => {
                proof {
                    reveal_strlit("suspended");
                }
                "suspended"
            },
            AlpacaTradeEvent::OrderReplaceRejected => {
                proof {
                    reveal_strlit("order_replace_rejected");
                }
                "order_replace_rejected"
            },
            AlpacaTradeEvent::OrderCancelRejected => {
                proof {
                    reveal_strlit("order_cancel_rejected");
                }
                "order_cancel_rejected"
            },
            AlpacaTradeEvent::Unknown => {
                proof {
                    reveal_strlit("");
                }
                ""
            },
        }
    }

    /// Reads a wire value, mapping anything unrecognised to `Unknown`.
    pub fn from_wire(raw: &str) -> (res: AlpacaTradeEvent)
        ensures
            res == event_from_wire(raw@),
    {
        if crate::common::text::str_equals(raw, AlpacaTradeEvent::New.as_str()) {
            return AlpacaTradeEvent::New;
        }
        if crate::common::text::str_equals(raw, AlpacaTradeEvent::Accepted.as_str()) {
            return AlpacaTradeEvent::Accepted;
        }
        if crate::common::text::str_equals(raw, AlpacaTradeEvent::AcceptedForBidding.as_str()) {
            return AlpacaTradeEvent::AcceptedForBidding;
        }
        if crate::common::text::str_equals(raw, AlpacaTradeEvent::Held.as_str()) {
            return AlpacaTradeEvent::Held;
        }
        if crate::common::text::str_equals(raw, AlpacaTradeEvent::PendingReview.as_str()) {
            return AlpacaTradeEvent::PendingReview;
        }
        if crate::common::text::str_equals(raw, AlpacaTradeEvent::Fill.as_str()) {
            return AlpacaTradeEvent::Fill;
        }
        if crate::common::text::str_equals(raw, AlpacaTradeEvent::PartialFill.as_str()) {
            return AlpacaTradeEvent::PartialFill;
        }
        if crate::common::text::str_equals(raw, AlpacaTradeEvent::Canceled.as_str()) {
            return AlpacaTradeEvent::Canceled;
        }
        if crate::common::text::str_equals(raw, AlpacaTradeEvent::Expired.as_str()) {
            return AlpacaTradeEvent::Expired;
        }
        if crate::common::text::str_equals(raw, AlpacaTradeEvent::DoneForDay.as_str()) {
            return AlpacaTradeEvent::DoneForDay;
        }
        if crate::common::text::str_equals(raw, AlpacaTradeEvent::Replaced.as_str()) {
            return AlpacaTradeEvent::Replaced;
        }
        if crate::common::text::str_equals(raw, AlpacaTradeEvent::Rejected.as_str()) {
            return AlpacaTradeEvent::Rejected;
        }
        if crate::common::text::str_equals(raw, AlpacaTradeEvent::PendingNew.as_str()) {
            return AlpacaTradeEvent::PendingNew;
        }
        if crate::common::text::str_equals(raw, AlpacaTradeEvent::PendingCancel.as_str()) {
            return AlpacaTradeEvent::PendingCancel;
        }
        if crate::common::text::str_equals(raw, AlpacaTradeEvent::PendingReplace.as_str()) {
            return AlpacaTradeEvent::PendingReplace;
        }
        if crate::common::text::str_equals(raw, AlpacaTradeEvent::Stopped.as_str()) {
            return AlpacaTradeEvent::Stopped;
        }
        if crate::common::text::str_equals(raw, AlpacaTradeEvent::Calculated.as_str()) {
            return AlpacaTradeEvent::Calculated;
        }
        if crate::common::text::str_equals(raw, AlpacaTradeEvent::Suspended.as_str()) {
            return AlpacaTradeEvent::Suspended;
        }
        if crate::common::text::str_equals(raw, AlpacaTradeEvent::OrderReplaceRejected.as_str()) {
            return AlpacaTradeEvent::OrderReplaceRejected;
        }
        if crate::common::text::str_equals(raw, AlpacaTradeEvent::OrderCancelRejected.as_str()) {
            return AlpacaTradeEvent::OrderCancelRejected;
        }
        AlpacaTradeEvent::Unknown
    }
}

/// Every modelled value's wire spelling reads back as that value.
pub proof fn lemma_event_wire_round_trip(v: AlpacaTradeEvent)
    requires
        v != AlpacaTradeEvent::Unknown,
    ensures
        event_from_wire(event_wire(v)) == v,
{
    assert(seq!['a', 'c', 'c', 'e', 'p', 't', 'e', 'd'].len() != seq!['n', 'e', 'w'].len());
    assert(seq!['a', 'c', 'c', 'e', 'p', 't', 'e', 'd', '_', 'f', 'o', 'r', '_', 'b', 'i', 'd', 'd', 'i', 'n', 'g'].len() != seq!['n', 'e', 'w'].len());
    assert(seq!['a', 'c', 'c', 'e', 'p', 't', 'e', 'd', '_', 'f', 'o', 'r', '_', 'b', 'i', 'd', 'd', 'i', 'n', 'g'].len() != seq!['a', 'c', 'c', 'e', 'p', 't', 'e', 'd'].len());
    assert(seq!['h', 'e', 'l', 'd'].len() != seq!['n', 'e', 'w'].len());
    assert(seq!['h', 'e', 'l', 'd'].len() != seq!['a', 'c', 'c', 'e', 'p', 't', 'e', 'd'].len());
    assert(seq!['h', 'e', 'l', 'd'].len() != seq!['a', 'c', 'c', 'e', 'p', 't', 'e', 'd', '_', 'f', 'o', 'r', '_', 'b', 'i', 'd', 'd', 'i', 'n', 'g'].len());
    assert(seq!['p', 'e', 'n', 'd', 'i', 'n', 'g', '_', 'r', 'e', 'v', 'i', 'e', 'w'].len() != seq!['n', 'e', 'w'].len());
    assert(seq!['p', 'e', 'n', 'd', 'i', 'n', 'g', '_', 'r', 'e', 'v', 'i', 'e', 'w'].len() != seq!['a', 'c', 'c', 'e', 'p', 't', 'e', 'd'].len());
    assert(seq!['p', 'e', 'n', 'd', 'i', 'n', 'g', '_', 'r', 'e', 'v', 'i', 'e', 'w'].len() != seq!['a', 'c', 'c', 'e', 'p', 't', 'e', 'd', '_', 'f', 'o', 'r', '_', 'b', 'i', 'd', 'd', 'i', 'n', 'g'].len());
    assert(seq!['p', 'e', 'n', 'd', 'i', 'n', 'g', '_', 'r', 'e', 'v', 'i', 'e', 'w'].len() != seq!['h', 'e', 'l', 'd'].len());
    assert(seq!['f', 'i', 'l', 'l'].len() != seq!['n', 'e', 'w'].len());
    assert(seq!['f', 'i', 'l', 'l'].len() != seq!['a', 'c', 'c', 'e', 'p', 't', 'e', 'd'].len());
    assert(seq!['f', 'i', 'l', 'l'].len() != seq!['a', 'c', 'c', 'e', 'p', 't', 'e', 'd', '_', 'f', 'o', 'r', '_', 'b', 'i', 'd', 'd', 'i', 'n', 'g'].len());
    assert(seq!['f', 'i', 'l', 'l'][0] != seq!['h', 'e', 'l', 'd'][0]);
    assert(seq!['f', 'i', 'l', 'l'].len() != seq!['p', 'e', 'n', 'd', 'i', 'n', 'g', '_', 'r', 'e', 'v', 'i', 'e', 'w'].len());
    assert(seq!['p', 'a', 'r', 't', 'i', 'a', 'l', '_', 'f', 'i', 'l', 'l'].len() != seq!['n', 'e', 'w'].len());
    assert(seq!['p', 'a', 'r', 't', 'i', 'a', 'l', '_', 'f', 'i', 'l', 'l'].len() != seq!['a', 'c', 'c', 'e', 'p', 't', 'e', 'd'].len());
    assert(seq!['p', 'a', 'r', 't', 'i', 'a', 'l', '_', 'f', 'i', 'l', 'l'].len() != seq!['a', 'c', 'c', 'e', 'p', 't', 'e', 'd', '_', 'f', 'o', 'r', '_', 'b', 'i', 'd', 'd', 'i', 'n', 'g'].len());
    assert(seq!['p', 'a', 'r', 't', 'i', 'a', 'l', '_', 'f', 'i', 'l', 'l'].len() != seq!['h', 'e', 'l', 'd'].len());
    assert(seq!['p', 'a', 'r', 't', 'i', 'a', 'l', '_', 'f', 'i', 'l', 'l'].len() != seq!['p', 'e', 'n', 'd', 'i', 'n', 'g', '_', 'r', 'e', 'v', 'i', 'e', 'w'].len());
    assert(seq!['p', 'a', 'r', 't', 'i', 'a', 'l', '_', 'f', 'i', 'l', 'l'].len() != seq!['f', 'i', 'l', 'l'].len());
    assert(seq!['c', 'a', 'n', 'c', 'e', 'l', 'e', 'd'].len() != seq!['n', 'e', 'w'].len());
    assert(seq!['c', 'a', 'n', 'c', 'e', 'l', 'e', 'd'][0] != seq!['a', 'c', 'c', 'e', 'p', 't', 'e', 'd'][0]);
    assert(seq!['c', 'a', 'n', 'c', 'e', 'l', 'e', 'd'].len() != seq!['a', 'c', 'c', 'e', 'p', 't', 'e', 'd', '_', 'f', 'o', 'r', '_', 'b', 'i', 'd', 'd', 'i', 'n', 'g'].len());
    assert(seq!['c', 'a', 'n', 'c', 'e', 'l', 'e', 'd'].len() != seq!['h', 'e', 'l', 'd'].len());
    assert(seq!['c', 'a', 'n', 'c', 'e', 'l', 'e', 'd'].len() != seq!['p', 'e', 'n', 'd', 'i', 'n', 'g', '_', 'r', 'e', 'v', 'i', 'e', 'w'].len());
    assert(seq!['c', 'a', 'n', 'c', 'e', 'l', 'e', 'd'].len() != seq!['f', 'i', 'l', 'l'].len());
    assert(seq!['c', 'a', 'n', 'c', 'e', 'l', 'e', 'd'].len() != seq!['p', 'a', 'r', 't', 'i', 'a', 'l', '_', 'f', 'i', 'l', 'l'].len());
    assert(seq!['e', 'x', 'p', 'i', 'r', 'e', 'd'].len() != seq!['n', 'e', 'w'].len());
    assert(seq!['e', 'x', 'p', 'i', 'r', 'e', 'd'].len() != seq!['a', 'c', 'c', 'e', 'p', 't', 'e', 'd'].len());
    assert(seq!['e', 'x', 'p', 'i', 'r', 'e', 'd'].len() != seq!['a', 'c', 'c', 'e', 'p', 't', 'e', 'd', '_', 'f', 'o', 'r', '_', 'b', 'i', 'd', 'd', 'i', 'n', 'g'].len());
    assert(seq!['e', 'x', 'p', 'i', 'r', 'e', 'd'].len() != seq!['h', 'e', 'l', 'd'].len());
    assert(seq!['e', 'x', 'p', 'i', 'r', 'e', 'd'].len() != seq!['p', 'e', 'n', 'd', 'i', 'n', 'g', '_', 'r', 'e', 'v', 'i', 'e', 'w'].len());
    assert(seq!['e', 'x', 'p', 'i', 'r', 'e', 'd'].len() != seq!['f', 'i', 'l', 'l'].len());
    assert(seq!['e', 'x', 'p', 'i', 'r', 'e', 'd'].len() != seq!['p', 'a', 'r', 't', 'i', 'a', 'l', '_', 'f', 'i', 'l', 'l'].len());
    assert(seq!['e', 'x', 'p', 'i', 'r', 'e', 'd'].len() != seq!['c', 'a', 'n', 'c', 'e', 'l', 'e', 'd'].len());
    assert(seq!['d', 'o', 'n', 'e', '_', 'f', 'o', 'r', '_', 'd', 'a', 'y'].len() != seq!['n', 'e', 'w'].len());
    assert(seq!['d', 'o', 'n', 'e', '_', 'f', 'o', 'r', '_', 'd', 'a', 'y'].len() != seq!['a', 'c', 'c', 'e', 'p', 't', 'e', 'd'].len());
    assert(seq!['d', 'o', 'n', 'e', '_', 'f', 'o', 'r', '_', 'd', 'a', 'y'].len() != seq!['a', 'c', 'c', 'e', 'p', 't', 'e', 'd', '_', 'f', 'o', 'r', '_', 'b', 'i', 'd', 'd', 'i', 'n', 'g'].len());
    assert(seq!['d', 'o', 'n', 'e', '_', 'f', 'o', 'r', '_', 'd', 'a', 'y'].len() != seq!['h', 'e', 'l', 'd'].len());
    assert(seq!['d', 'o', 'n', 'e', '_', 'f', 'o', 'r', '_', 'd', 'a', 'y'].len() != seq!['p', 'e', 'n', 'd', 'i', 'n', 'g', '_', 'r', 'e', 'v', 'i', 'e', 'w'].len());
    assert(seq!['d', 'o', 'n', 'e', '_', 'f', 'o', 'r', '_', 'd', 'a', 'y'].len() != seq!['f', 'i', 'l', 'l'].len());
    assert(seq!['d', 'o', 'n', 'e', '_', 'f', 'o', 'r', '_', 'd', 'a', 'y'][0] != seq!['p', 'a', 'r', 't', 'i', 'a', 'l', '_', 'f', 'i', 'l', 'l'][0]);
    assert(seq!['d', 'o', 'n', 'e', '_', 'f', 'o', 'r', '_', 'd', 'a', 'y'].len() != seq!['c', 'a', 'n', 'c', 'e', 'l', 'e', 'd'].len());
    assert(seq!['d', 'o', 'n', 'e', '_', 'f', 'o', 'r', '_', 'd', 'a', 'y'].len() != seq!['e', 'x', 'p', 'i', 'r', 'e', 'd'].len());
    assert(seq!['r', 'e', 'p', 'l', 'a', 'c', 'e', 'd'].len() != seq!['n', 'e', 'w'].len());
    assert(seq!['r', 'e', 'p', 'l', 'a', 'c', 'e', 'd'][0] != seq!['a', 'c', 'c', 'e', 'p', 't', 'e', 'd'][0]);
    assert(seq!['r', 'e', 'p', 'l', 'a', 'c', 'e', 'd'].len() != seq!['a', 'c', 'c', 'e', 'p', 't', 'e', 'd', '_', 'f', 'o', 'r', '_', 'b', 'i', 'd', 'd', 'i', 'n', 'g'].len());
    assert(seq!['r', 'e', 'p', 'l', 'a', 'c', 'e', 'd'].len() != seq!['h', 'e', 'l', 'd'].len());
    assert(seq!['r', 'e', 'p', 'l', 'a', 'c', 'e', 'd'].len() != seq!['p', 'e', 'n', 'd', 'i', 'n', 'g', '_', 'r', 'e', 'v', 'i', 'e', 'w'].len());
    assert(seq!['r', 'e', 'p', 'l', 'a', 'c', 'e', 'd'].len() != seq!['f', 'i', 'l', 'l'].len());
    assert(seq!['r', 'e', 'p', 'l', 'a', 'c', 'e', 'd'].len() != seq!['p', 'a', 'r', 't', 'i', 'a', 'l', '_', 'f', 'i', 'l', 'l'].len());
    assert(seq!['r', 'e', 'p', 'l', 'a', 'c', 'e', 'd'][0] != seq!['c', 'a', 'n', 'c', 'e', 'l', 'e', 'd'][0]);
    assert(seq!['r', 'e', 'p', 'l', 'a', 'c', 'e', 'd'].len() != seq!['e', 'x', 'p', 'i', 'r', 'e', 'd'].len());
    assert(seq!['r', 'e', 'p', 'l', 'a', 'c', 'e', 'd'].len() != seq!['d', 'o', 'n', 'e', '_', 'f', 'o', 'r', '_', 'd', 'a', 'y'].len());
    assert(seq!['r', 'e', 'j', 'e', 'c', 't', 'e', 'd'].len() != seq!['n', 'e', 'w'].len());
    assert(seq!['r', 'e', 'j', 'e', 'c', 't', 'e', 'd'][0] != seq!['a', 'c', 'c', 'e', 'p', 't', 'e', 'd'][0]);
    assert(seq!['r', 'e', 'j', 'e', 'c', 't', 'e', 'd'].len() != seq!['a', 'c', 'c', 'e', 'p', 't', 'e', 'd', '_', 'f', 'o', 'r', '_', 'b', 'i', 'd', 'd', 'i', 'n', 'g'].len());
    assert(seq!['r', 'e', 'j', 'e', 'c', 't', 'e', 'd'].len() != seq!['h', 'e', 'l', 'd'].len());
    assert(seq!['r', 'e', 'j', 'e', 'c', 't', 'e', 'd'].len() != seq!['p', 'e', 'n', 'd', 'i', 'n', 'g', '_', 'r', 'e', 'v', 'i', 'e', 'w'].len());
    assert(seq!['r', 'e', 'j', 'e', 'c', 't', 'e', 'd'].len() != seq!['f', 'i', 'l', 'l'].len());
    assert(seq!['r', 'e', 'j', 'e', 'c', 't', 'e', 'd'].len() != seq!['p', 'a', 'r', 't', 'i', 'a', 'l', '_', 'f', 'i', 'l', 'l'].len());
    assert(seq!['r', 'e', 'j', 'e', 'c', 't', 'e', 'd'][0] != seq!['c', 'a', 'n', 'c', 'e', 'l', 'e', 'd'][0]);
    assert(seq!['r', 'e', 'j', 'e', 'c', 't', 'e', 'd'].len() != seq!['e', 'x', 'p', 'i', 'r', 'e', 'd'].len());
    assert(seq!['r', 'e', 'j', 'e', 'c', 't', 'e', 'd'].len() != seq!['d', 'o', 'n', 'e', '_', 'f', 'o', 'r', '_', 'd', 'a', 'y'].len());
    assert(seq!['r', 'e', 'j', 'e', 'c', 't', 'e', 'd'][2] != seq!['r', 'e', 'p', 'l', 'a', 'c', 'e', 'd'][2]);
    assert(seq!['p', 'e', 'n', 'd', 'i', 'n', 'g', '_', 'n', 'e', 'w'].len() != seq!['n', 'e', 'w'].len());
    assert(seq!['p', 'e', 'n', 'd', 'i', 'n', 'g', '_', 'n', 'e', 'w'].len() != seq!['a', 'c', 'c', 'e', 'p', 't', 'e', 'd'].len());
    assert(seq!['p', 'e', 'n', 'd', 'i', 'n', 'g', '_', 'n', 'e', 'w'].len() != seq!['a', 'c', 'c', 'e', 'p', 't', 'e', 'd', '_', 'f', 'o', 'r', '_', 'b', 'i', 'd', 'd', 'i', 'n', 'g'].len());
    assert(seq!['p', 'e', 'n', 'd', 'i', 'n', 'g', '_', 'n', 'e', 'w'].len() != seq!['h', 'e', 'l', 'd'].len());
    assert(seq!['p', 'e', 'n', 'd', 'i', 'n', 'g', '_', 'n', 'e', 'w'].len() != seq!['p', 'e', 'n', 'd', 'i', 'n', 'g', '_', 'r', 'e', 'v', 'i', 'e', 'w'].len());
    assert(seq!['p', 'e', 'n', 'd', 'i', 'n', 'g', '_', 'n', 'e', 'w'].len() != seq!['f', 'i', 'l', 'l'].len());
    assert(seq!['p', 'e', 'n', 'd', 'i', 'n', 'g', '_', 'n', 'e', 'w'].len() != seq!['p', 'a', 'r', 't', 'i', 'a', 'l', '_', 'f', 'i', 'l', 'l'].len());
    assert(seq!['p', 'e', 'n', 'd', 'i', 'n', 'g', '_', 'n', 'e', 'w'].len() != seq!['c', 'a', 'n', 'c', 'e', 'l', 'e', 'd'].len());
    assert(seq!['p', 'e', 'n', 'd', 'i', 'n', 'g', '_', 'n', 'e', 'w'].len() != seq!['e', 'x', 'p', 'i', 'r', 'e', 'd'].len());
    assert(seq!['p', 'e', 'n', 'd', 'i', 'n', 'g', '_', 'n', 'e', 'w'].len() != seq!['d', 'o', 'n', 'e', '_', 'f', 'o', 'r', '_', 'd', 'a', 'y'].len());
    assert(seq!['p', 'e', 'n', 'd', 'i', 'n', 'g', '_', 'n', 'e', 'w'].len() != seq!['r', 'e', 'p', 'l', 'a', 'c', 'e', 'd'].len());
    assert(seq!['p', 'e', 'n', 'd', 'i', 'n', 'g', '_', 'n', 'e', 'w'].len() != seq!['r', 'e', 'j', 'e', 'c', 't', 'e', 'd'].len());
    assert(seq!['p', 'e', 'n', 'd', 'i', 'n', 'g', '_', 'c', 'a', 'n', 'c', 'e', 'l'].len() != seq!['n', 'e', 'w'].len());
    assert(seq!['p', 'e', 'n', 'd', 'i', 'n', 'g', '_', 'c', 'a', 'n', 'c', 'e', 'l'].len() != seq!['a', 'c', 'c', 'e', 'p', 't', 'e', 'd'].len());
    assert(seq!['p', 'e', 'n', 'd', 'i', 'n', 'g', '_', 'c', 'a', 'n', 'c', 'e', 'l'].len() != seq!['a', 'c', 'c', 'e', 'p', 't', 'e', 'd', '_', 'f', 'o', 'r', '_', 'b', 'i', 'd', 'd', 'i', 'n', 'g'].len());
    assert(seq!['p', 'e', 'n', 'd', 'i', 'n', 'g', '_', 'c', 'a', 'n', 'c', 'e', 'l'].len() != seq!['h', 'e', 'l', 'd'].len());
    assert(seq!['p', 'e', 'n', 'd', 'i', 'n', 'g', '_', 'c', 'a', 'n', 'c', 'e', 'l'][8] != seq!['p', 'e', 'n', 'd', 'i', 'n', 'g', '_', 'r', 'e', 'v', 'i', 'e', 'w'][8]);
    assert(seq!['p', 'e', 'n', 'd', 'i', 'n', 'g', '_', 'c', 'a', 'n', 'c', 'e', 'l'].len() != seq!['f', 'i', 'l', 'l'].len());
    assert(seq!['p', 'e', 'n', 'd', 'i', 'n', 'g', '_', 'c', 'a', 'n', 'c', 'e', 'l'].len() != seq!['p', 'a', 'r', 't', 'i', 'a', 'l', '_', 'f', 'i', 'l', 'l'].len());
    assert(seq!['p', 'e', 'n', 'd', 'i', 'n', 'g', '_', 'c', 'a', 'n', 'c', 'e', 'l'].len() != seq!['c', 'a', 'n', 'c', 'e', 'l', 'e', 'd'].len());
    assert(seq!['p', 'e', 'n', 'd', 'i', 'n', 'g', '_', 'c', 'a', 'n', 'c', 'e', 'l'].len() != seq!['e', 'x', 'p', 'i', 'r', 'e', 'd'].len());
    assert(seq!['p', 'e', 'n', 'd', 'i', 'n', 'g', '_', 'c', 'a', 'n', 'c', 'e', 'l'].len() != seq!['d', 'o', 'n', 'e', '_', 'f', 'o', 'r', '_', 'd', 'a', 'y'].len());
    assert(seq!['p', 'e', 'n', 'd', 'i', 'n', 'g', '_', 'c', 'a', 'n', 'c', 'e', 'l'].len() != seq!['r', 'e', 'p', 'l', 'a', 'c', 'e', 'd'].len());
    assert(seq!['p', 'e', 'n', 'd', 'i', 'n', 'g', '_', 'c', 'a', 'n', 'c', 'e', 'l'].len() != seq!['r', 'e', 'j', 'e', 'c', 't', 'e', 'd'].len());
    assert(seq!['p', 'e', 'n', 'd', 'i', 'n', 'g', '_', 'c', 'a', 'n', 'c', 'e', 'l'].len() != seq!['p', 'e', 'n', 'd', 'i', 'n', 'g', '_', 'n', 'e', 'w'].len());
    assert(seq!['p', 'e', 'n', 'd', 'i', 'n', 'g', '_', 'r', 'e', 'p', 'l', 'a', 'c', 'e'].len() != seq!['n', 'e', 'w'].len());
    assert(seq!['p', 'e', 'n', 'd', 'i', 'n', 'g', '_', 'r', 'e', 'p', 'l', 'a', 'c', 'e'].len() != seq!['a', 'c', 'c', 'e', 'p', 't', 'e', 'd'].len());
    assert(seq!['p', 'e', 'n', 'd', 'i', 'n', 'g', '_', 'r', 'e', 'p', 'l', 'a', 'c', 'e'].len() != seq!['a', 'c', 'c', 'e', 'p', 't', 'e', 'd', '_', 'f', 'o', 'r', '_', 'b', 'i', 'd', 'd', 'i', 'n', 'g'].len());
    assert(seq!['p', 'e', 'n', 'd', 'i', 'n', 'g', '_', 'r', 'e', 'p', 'l', 'a', 'c', 'e'].len() != seq!['h', 'e', 'l', 'd'].len());
    assert(seq!['p', 'e', 'n', 'd', 'i', 'n', 'g', '_', 'r', 'e', 'p', 'l', 'a', 'c', 'e'].len() != seq!['p', 'e', 'n', 'd', 'i', 'n', 'g', '_', 'r', 'e', 'v', 'i', 'e', 'w'].len());
    assert(seq!['p', 'e', 'n', 'd', 'i', 'n', 'g', '_', 'r', 'e', 'p', 'l', 'a', 'c', 'e'].len() != seq!['f', 'i', 'l', 'l'].len());
    assert(seq!['p', 'e', 'n', 'd', 'i', 'n', 'g', '_', 'r', 'e', 'p', 'l', 'a', 'c', 'e'].len() != seq!['p', 'a', 'r', 't', 'i', 'a', 'l', '_', 'f', 'i', 'l', 'l'].len());
    assert(seq!['p', 'e', 'n', 'd', 'i', 'n', 'g', '_', 'r', 'e', 'p', 'l', 'a', 'c', 'e'].len() != seq!['c', 'a', 'n', 'c', 'e', 'l', 'e', 'd'].len());
    assert(seq!['p', 'e', 'n', 'd', 'i', 'n', 'g', '_', 'r', 'e', 'p', 'l', 'a', 'c', 'e'].len() != seq!['e', 'x', 'p', 'i', 'r', 'e', 'd'].len());
    assert(seq!['p', 'e', 'n', 'd', 'i', 'n', 'g', '_', 'r', 'e', 'p', 'l', 'a', 'c', 'e'].len() != seq!['d', 'o', 'n', 'e', '_', 'f', 'o', 'r', '_', 'd', 'a', 'y'].len());
    assert(seq!['p', 'e', 'n', 'd', 'i', 'n', 'g', '_', 'r', 'e', 'p', 'l', 'a', 'c', 'e'].len() != seq!['r', 'e', 'p', 'l', 'a', 'c', 'e', 'd'].len());
    assert(seq!['p', 'e', 'n', 'd', 'i', 'n', 'g', '_', 'r', 'e', 'p', 'l', 'a', 'c', 'e'].len() != seq!['r', 'e', 'j', 'e', 'c', 't', 'e', 'd'].len());
    assert(seq!['p', 'e', 'n', 'd', 'i', 'n', 'g', '_', 'r', 'e', 'p', 'l', 'a', 'c', 'e'].len() != seq!['p', 'e', 'n', 'd', 'i', 'n', 'g', '_', 'n', 'e', 'w'].len());
    assert(seq!['p', 'e', 'n', 'd', 'i', 'n', 'g', '_', 'r', 'e', 'p', 'l', 'a', 'c', 'e'].len() != seq!['p', 'e', 'n', 'd', 'i', 'n', 'g', '_', 'c', 'a', 'n', 'c', 'e', 'l'].len());
    assert(seq!['s', 't', 'o', 'p', 'p', 'e', 'd'].len() != seq!['n', 'e', 'w'].len());
    assert(seq!['s', 't', 'o', 'p', 'p', 'e', 'd'].len() != seq!['a', 'c', 'c', 'e', 'p', 't', 'e', 'd'].len());
    assert(seq!['s', 't', 'o', 'p', 'p', 'e', 'd'].len() != seq!['a', 'c', 'c', 'e', 'p', 't', 'e', 'd', '_', 'f', 'o', 'r', '_', 'b', 'i', 'd', 'd', 'i', 'n', 'g'].len());
    assert(seq!['s', 't', 'o', 'p', 'p', 'e', 'd'].len() != seq!['h', 'e', 'l', 'd'].len());
    assert(seq!['s', 't', 'o', 'p', 'p', 'e', 'd'].len() != seq!['p', 'e', 'n', 'd', 'i', 'n', 'g', '_', 'r', 'e', 'v', 'i', 'e', 'w'].len());
    assert(seq!['s', 't', 'o', 'p', 'p', 'e', 'd'].len() != seq!['f', 'i', 'l', 'l'].len());
    assert(seq!['s', 't', 'o', 'p', 'p', 'e', 'd'].len() != seq!['p', 'a', 'r', 't', 'i', 'a', 'l', '_', 'f', 'i', 'l', 'l'].len());
    assert(seq!['s', 't', 'o', 'p', 'p', 'e', 'd'].len() != seq!['c', 'a', 'n', 'c', 'e', 'l', 'e', 'd'].len());
    assert(seq!['s', 't', 'o', 'p', 'p', 'e', 'd'][0] != seq!['e', 'x', 'p', 'i', 'r', 'e', 'd'][0]);
    assert(seq!['s', 't', 'o', 'p', 'p', 'e', 'd'].len() != seq!['d', 'o', 'n', 'e', '_', 'f', 'o', 'r', '_', 'd', 'a', 'y'].len());
    assert(seq!['s', 't', 'o', 'p', 'p', 'e', 'd'].len() != seq!['r', 'e', 'p', 'l', 'a', 'c', 'e', 'd'].len());
    assert(seq!['s', 't', 'o', 'p', 'p', 'e', 'd'].len() != seq!['r', 'e', 'j', 'e', 'c', 't', 'e', 'd'].len());
    assert(seq!['s', 't', 'o', 'p', 'p', 'e', 'd'].len() != seq!['p', 'e', 'n', 'd', 'i', 'n', 'g', '_', 'n', 'e', 'w'].len());
    assert(seq!['s', 't', 'o', 'p', 'p', 'e', 'd'].len() != seq!['p', 'e', 'n', 'd', 'i', 'n', 'g', '_', 'c', 'a', 'n', 'c', 'e', 'l'].len());
    assert(seq!['s', 't', 'o', 'p', 'p', 'e', 'd'].len() != seq!['p', 'e', 'n', 'd', 'i', 'n', 'g', '_', 'r', 'e', 'p', 'l', 'a', 'c', 'e'].len());
    assert(seq!['c', 'a', 'l', 'c', 'u', 'l', 'a', 't', 'e', 'd'].len() != seq!['n', 'e', 'w'].len());
    assert(seq!['c', 'a', 'l', 'c', 'u', 'l', 'a', 't', 'e', 'd'].len() != seq!['a', 'c', 'c', 'e', 'p', 't', 'e', 'd'].len());
    assert(seq!['c', 'a', 'l', 'c', 'u', 'l', 'a', 't', 'e', 'd'].len() != seq!['a', 'c', 'c', 'e', 'p', 't', 'e', 'd', '_', 'f', 'o', 'r', '_', 'b', 'i', 'd', 'd', 'i', 'n', 'g'].len());
    assert(seq!['c', 'a', 'l', 'c', 'u', 'l', 'a', 't', 'e', 'd'].len() != seq!['h', 'e', 'l', 'd'].len());
    assert(seq!['c', 'a', 'l', 'c', 'u', 'l', 'a', 't', 'e', 'd'].len() != seq!['p', 'e', 'n', 'd', 'i', 'n', 'g', '_', 'r', 'e', 'v', 'i', 'e', 'w'].len());
    assert(seq!['c', 'a', 'l', 'c', 'u', 'l', 'a', 't', 'e', 'd'].len() != seq!['f', 'i', 'l', 'l'].len());
    assert(seq!['c', 'a', 'l', 'c', 'u', 'l', 'a', 't', 'e', 'd'].len() != seq!['p', 'a', 'r', 't', 'i', 'a', 'l', '_', 'f', 'i', 'l', 'l'].len());
    assert(seq!['c', 'a', 'l', 'c', 'u', 'l', 'a', 't', 'e', 'd'].len() != seq!['c', 'a', 'n', 'c', 'e', 'l', 'e', 'd'].len());
    assert(seq!['c', 'a', 'l', 'c', 'u', 'l', 'a', 't', 'e', 'd'].len() != seq!['e', 'x', 'p', 'i', 'r', 'e', 'd'].len());
    assert(seq!['c', 'a', 'l', 'c', 'u', 'l', 'a', 't', 'e', 'd'].len() != seq!['d', 'o', 'n', 'e', '_', 'f', 'o', 'r', '_', 'd', 'a', 'y'].len());
    assert(seq!['c', 'a', 'l', 'c', 'u', 'l', 'a', 't', 'e', 'd'].len() != seq!['r', 'e', 'p', 'l', 'a', 'c', 'e', 'd'].len());
    assert(seq!['c', 'a', 'l', 'c', 'u', 'l', 'a', 't', 'e', 'd'].len() != seq!['r', 'e', 'j', 'e', 'c', 't', 'e', 'd'].len());
    assert(seq!['c', 'a', 'l', 'c', 'u', 'l', 'a', 't', 'e', 'd'].len() != seq!['p', 'e', 'n', 'd', 'i', 'n', 'g', '_', 'n', 'e', 'w'].len());
    assert(seq!['c', 'a', 'l', 'c', 'u', 'l', 'a', 't', 'e', 'd'].len() != seq!['p', 'e', 'n', 'd', 'i', 'n', 'g', '_', 'c', 'a', 'n', 'c', 'e', 'l'].len());
    assert(seq!['c', 'a', 'l', 'c', 'u', 'l', 'a', 't', 'e', 'd'].len() != seq!['p', 'e', 'n', 'd', 'i', 'n', 'g', '_', 'r', 'e', 'p', 'l', 'a', 'c', 'e'].len());
    assert(seq!['c', 'a', 'l', 'c', 'u', 'l', 'a', 't', 'e', 'd'].len() != seq!['s', 't', 'o', 'p', 'p', 'e', 'd'].len());
    assert(seq!['s', 'u', 's', 'p', 'e', 'n', 'd', 'e', 'd'].len() != seq!['n', 'e', 'w'].len());
    assert(seq!['s', 'u', 's', 'p', 'e', 'n', 'd', 'e', 'd'].len() != seq!['a', 'c', 'c', 'e', 'p', 't', 'e', 'd'].len());
    assert(seq!['s', 'u', 's', 'p', 'e', 'n', 'd', 'e', 'd'].len() != seq!['a', 'c', 'c', 'e', 'p', 't', 'e', 'd', '_', 'f', 'o', 'r', '_', 'b', 'i', 'd', 'd', 'i', 'n', 'g'].len());
    assert(seq!['s', 'u', 's', 'p', 'e', 'n', 'd', 'e', 'd'].len() != seq!['h', 'e', 'l', 'd'].len());
    assert(seq!['s', 'u', 's', 'p', 'e', 'n', 'd', 'e', 'd'].len() != seq!['p', 'e', 'n', 'd', 'i', 'n', 'g', '_', 'r', 'e', 'v', 'i', 'e', 'w'].len());
    assert(seq!['s', 'u', 's', 'p', 'e', 'n', 'd', 'e', 'd'].len() != seq!['f', 'i', 'l', 'l'].len());
    assert(seq!['s', 'u', 's', 'p', 'e', 'n', 'd', 'e', 'd'].len() != seq!['p', 'a', 'r', 't', 'i', 'a', 'l', '_', 'f', 'i', 'l', 'l'].len());
    assert(seq!['s', 'u', 's', 'p', 'e', 'n', 'd', 'e', 'd'].len() != seq!['c', 'a', 'n', 'c', 'e', 'l', 'e', 'd'].len());
    assert(seq!['s', 'u', 's', 'p', 'e', 'n', 'd', 'e', 'd'].len() != seq!['e', 'x', 'p', 'i', 'r', 'e', 'd'].len());
    assert(seq!['s', 'u', 's', 'p', 'e', 'n', 'd', 'e', 'd'].len() != seq!['d', 'o', 'n', 'e', '_', 'f', 'o', 'r', '_', 'd', 'a', 'y'].len());
    assert(seq!['s', 'u', 's', 'p', 'e', 'n', 'd', 'e', 'd'].len() != seq!['r', 'e', 'p', 'l', 'a', 'c', 'e', 'd'].len());
    assert(seq!['s', 'u', 's', 'p', 'e', 'n', 'd', 'e', 'd'].len() != seq!['r', 'e', 'j', 'e', 'c', 't', 'e', 'd'].len());
    assert(seq!['s', 'u', 's', 'p', 'e', 'n', 'd', 'e', 'd'].len() != seq!['p', 'e', 'n', 'd', 'i', 'n', 'g', '_', 'n', 'e', 'w'].len());
    assert(seq!['s', 'u', 's', 'p', 'e', 'n', 'd', 'e', 'd'].len() != seq!['p', 'e', 'n', 'd', 'i', 'n', 'g', '_', 'c', 'a', 'n', 'c', 'e', 'l'].len());
    assert(seq!['s', 'u', 's', 'p', 'e', 'n', 'd', 'e', 'd'].len() != seq!['p', 'e', 'n', 'd', 'i', 'n', 'g', '_', 'r', 'e', 'p', 'l', 'a', 'c', 'e'].len());
    assert(seq!['s', 'u', 's', 'p', 'e', 'n', 'd', 'e', 'd'].len() != seq!['s', 't', 'o', 'p', 'p', 'e', 'd'].len());
    assert(seq!['s', 'u', 's', 'p', 'e', 'n', 'd', 'e', 'd'].len() != seq!['c', 'a', 'l', 'c', 'u', 'l', 'a', 't', 'e', 'd'].len());
    assert(seq!['o', 'r', 'd', 'e', 'r', '_', 'r', 'e', 'p', 'l', 'a', 'c', 'e', '_', 'r', 'e', 'j', 'e', 'c', 't', 'e', 'd'].len() != seq!['n', 'e', 'w'].len());
    assert(seq!['o', 'r', 'd', 'e', 'r', '_', 'r', 'e', 'p', 'l', 'a', 'c', 'e', '_', 'r', 'e', 'j', 'e', 'c', 't', 'e', 'd'].len() != seq!['a', 'c', 'c', 'e', 'p', 't', 'e', 'd'].len());
    assert(seq!['o', 'r', 'd', 'e', 'r', '_', 'r', 'e', 'p', 'l', 'a', 'c', 'e', '_', 'r', 'e', 'j', 'e', 'c', 't', 'e', 'd'].len() != seq!['a', 'c', 'c', 'e', 'p', 't', 'e', 'd', '_', 'f', 'o', 'r', '_', 'b', 'i', 'd', 'd', 'i', 'n', 'g'].len());
    assert(seq!['o', 'r', 'd', 'e', 'r', '_', 'r', 'e', 'p', 'l', 'a', 'c', 'e', '_', 'r', 'e', 'j', 'e', 'c', 't', 'e', 'd'].len() != seq!['h', 'e', 'l', 'd'].len());
    assert(seq!['o', 'r', 'd', 'e', 'r', '_', 'r', 'e', 'p', 'l', 'a', 'c', 'e', '_', 'r', 'e', 'j', 'e', 'c', 't', 'e', 'd'].len() != seq!['p', 'e', 'n', 'd', 'i', 'n', 'g', '_', 'r', 'e', 'v', 'i', 'e', 'w'].len());
    assert(seq!['o', 'r', 'd', 'e', 'r', '_', 'r', 'e', 'p', 'l', 'a', 'c', 'e', '_', 'r', 'e', 'j', 'e', 'c', 't', 'e', 'd'].len() != seq!['f', 'i', 'l', 'l'].len());
    assert(seq!['o', 'r', 'd', 'e', 'r', '_', 'r', 'e', 'p', 'l', 'a', 'c', 'e', '_', 'r', 'e', 'j', 'e', 'c', 't', 'e', 'd'].len() != seq!['p', 'a', 'r', 't', 'i', 'a', 'l', '_', 'f', 'i', 'l', 'l'].len());
    assert(seq!['o', 'r', 'd', 'e', 'r', '_', 'r', 'e', 'p', 'l', 'a', 'c', 'e', '_', 'r', 'e', 'j', 'e', 'c', 't', 'e', 'd'].len() != seq!['c', 'a', 'n', 'c', 'e', 'l', 'e', 'd'].len());
    assert(seq!['o', 'r', 'd', 'e', 'r', '_', 'r', 'e', 'p', 'l', 'a', 'c', 'e', '_', 'r', 'e', 'j', 'e', 'c', 't', 'e', 'd'].len() != seq!['e', 'x', 'p', 'i', 'r', 'e', 'd'].len());
    assert(seq!['o', 'r', 'd', 'e', 'r', '_', 'r', 'e', 'p', 'l', 'a', 'c', 'e', '_', 'r', 'e', 'j', 'e', 'c', 't', 'e', 'd'].len() != seq!['d', 'o', 'n', 'e', '_', 'f', 'o', 'r', '_', 'd', 'a', 'y'].len());
    assert(seq!['o', 'r', 'd', 'e', 'r', '_', 'r', 'e', 'p', 'l', 'a', 'c', 'e', '_', 'r', 'e', 'j', 'e', 'c', 't', 'e', 'd'].len() != seq!['r', 'e', 'p', 'l', 'a', 'c', 'e', 'd'].len());
    assert(seq!['o', 'r', 'd', 'e', 'r', '_', 'r', 'e', 'p', 'l', 'a', 'c', 'e', '_', 'r', 'e', 'j', 'e', 'c', 't', 'e', 'd'].len() != seq!['r', 'e', 'j', 'e', 'c', 't', 'e', 'd'].len());
    assert(seq!['o', 'r', 'd', 'e', 'r', '_', 'r', 'e', 'p', 'l', 'a', 'c', 'e', '_', 'r', 'e', 'j', 'e', 'c', 't', 'e', 'd'].len() != seq!['p', 'e', 'n', 'd', 'i', 'n', 'g', '_', 'n', 'e', 'w'].len());
    assert(seq!['o', 'r', 'd', 'e', 'r', '_', 'r', 'e', 'p', 'l', 'a', 'c', 'e', '_', 'r', 'e', 'j', 'e', 'c', 't', 'e', 'd'].len() != seq!['p', 'e', 'n', 'd', 'i', 'n', 'g', '_', 'c', 'a', 'n', 'c', 'e', 'l'].len());
    assert(seq!['o', 'r', 'd', 'e', 'r', '_', 'r', 'e', 'p', 'l', 'a', 'c', 'e', '_', 'r', 'e', 'j', 'e', 'c', 't', 'e', 'd'].len() != seq!['p', 'e', 'n', 'd', 'i', 'n', 'g', '_', 'r', 'e', 'p', 'l', 'a', 'c', 'e'].len());
    assert(seq!['o', 'r', 'd', 'e', 'r', '_', 'r', 'e', 'p', 'l', 'a', 'c', 'e', '_', 'r', 'e', 'j', 'e', 'c', 't', 'e', 'd'].len() != seq!['s', 't', 'o', 'p', 'p', 'e', 'd'].len());
    assert(seq!['o', 'r', 'd', 'e', 'r', '_', 'r', 'e', 'p', 'l', 'a', 'c', 'e', '_', 'r', 'e', 'j', 'e', 'c', 't', 'e', 'd'].len() != seq!['c', 'a', 'l', 'c', 'u', 'l', 'a', 't', 'e', 'd'].len());
    assert(seq!['o', 'r', 'd', 'e', 'r', '_', 'r', 'e', 'p', 'l', 'a', 'c', 'e', '_', 'r', 'e', 'j', 'e', 'c', 't', 'e', 'd'].len() != seq!['s', 'u', 's', 'p', 'e', 'n', 'd', 'e', 'd'].len());
    assert(seq!['o', 'r', 'd', 'e', 'r', '_', 'c', 'a', 'n', 'c', 'e', 'l', '_', 'r', 'e', 'j', 'e', 'c', 't', 'e', 'd'].len() != seq!['n', 'e', 'w'].len());
    assert(seq!['o', 'r', 'd', 'e', 'r', '_', 'c', 'a', 'n', 'c', 'e', 'l', '_', 'r', 'e', 'j', 'e', 'c', 't', 'e', 'd'].len() != seq!['a', 'c', 'c', 'e', 'p', 't', 'e', 'd'].len());
    assert(seq!['o', 'r', 'd', 'e', 'r', '_', 'c', 'a', 'n', 'c', 'e', 'l', '_', 'r', 'e', 'j', 'e', 'c', 't', 'e', 'd'].len() != seq!['a', 'c', 'c', 'e', 'p', 't', 'e', 'd', '_', 'f', 'o', 'r', '_', 'b', 'i', 'd', 'd', 'i', 'n', 'g'].len());
    assert(seq!['o', 'r', 'd', 'e', 'r', '_', 'c', 'a', 'n', 'c', 'e', 'l', '_', 'r', 'e', 'j', 'e', 'c', 't', 'e', 'd'].len() != seq!['h', 'e', 'l', 'd'].len());
    assert(seq!['o', 'r', 'd', 'e', 'r', '_', 'c', 'a', 'n', 'c', 'e', 'l', '_', 'r', 'e', 'j', 'e', 'c', 't', 'e', 'd'].len() != seq!['p', 'e', 'n', 'd', 'i', 'n', 'g', '_', 'r', 'e', 'v', 'i', 'e', 'w'].len());
    assert(seq!['o', 'r', 'd', 'e', 'r', '_', 'c', 'a', 'n', 'c', 'e', 'l', '_', 'r', 'e', 'j', 'e', 'c', 't', 'e', 'd'].len() != seq!['f', 'i', 'l', 'l'].len());
    assert(seq!['o', 'r', 'd', 'e', 'r', '_', 'c', 'a', 'n', 'c', 'e', 'l', '_', 'r', 'e', 'j', 'e', 'c', 't', 'e', 'd'].len() != seq!['p', 'a', 'r', 't', 'i', 'a', 'l', '_', 'f', 'i', 'l', 'l'].len());
    assert(seq!['o', 'r', 'd', 'e', 'r', '_', 'c', 'a', 'n', 'c', 'e', 'l', '_', 'r', 'e', 'j', 'e', 'c', 't', 'e', 'd'].len() != seq!['c', 'a', 'n', 'c', 'e', 'l', 'e', 'd'].len());
    assert(seq!['o', 'r', 'd', 'e', 'r', '_', 'c', 'a', 'n', 'c', 'e', 'l', '_', 'r', 'e', 'j', 'e', 'c', 't', 'e', 'd'].len() != seq!['e', 'x', 'p', 'i', 'r', 'e', 'd'].len());
    assert(seq!['o', 'r', 'd', 'e', 'r', '_', 'c', 'a', 'n', 'c', 'e', 'l', '_', 'r', 'e', 'j', 'e', 'c', 't', 'e', 'd'].len() != seq!['d', 'o', 'n', 'e', '_', 'f', 'o', 'r', '_', 'd', 'a', 'y'].len());
    assert(seq!['o', 'r', 'd', 'e', 'r', '_', 'c', 'a', 'n', 'c', 'e', 'l', '_', 'r', 'e', 'j', 'e', 'c', 't', 'e', 'd'].len() != seq!['r', 'e', 'p', 'l', 'a', 'c', 'e', 'd'].len());
    assert(seq!['o', 'r', 'd', 'e', 'r', '_', 'c', 'a', 'n', 'c', 'e', 'l', '_', 'r', 'e', 'j', 'e', 'c', 't', 'e', 'd'].len() != seq!['r', 'e', 'j', 'e', 'c', 't', 'e', 'd'].len());
    assert(seq!['o', 'r', 'd', 'e', 'r', '_', 'c', 'a', 'n', 'c', 'e', 'l', '_', 'r', 'e', 'j', 'e', 'c', 't', 'e', 'd'].len() != seq!['p', 'e', 'n', 'd', 'i', 'n', 'g', '_', 'n', 'e', 'w'].len());
    assert(seq!['o', 'r', 'd', 'e', 'r', '_', 'c', 'a', 'n', 'c', 'e', 'l', '_', 'r', 'e', 'j', 'e', 'c', 't', 'e', 'd'].len() != seq!['p', 'e', 'n', 'd', 'i', 'n', 'g', '_', 'c', 'a', 'n', 'c', 'e', 'l'].len());
    assert(seq!['o', 'r', 'd', 'e', 'r', '_', 'c', 'a', 'n', 'c', 'e', 'l', '_', 'r', 'e', 'j', 'e', 'c', 't', 'e', 'd'].len() != seq!['p', 'e', 'n', 'd', 'i', 'n', 'g', '_', 'r', 'e', 'p', 'l', 'a', 'c', 'e'].len());
    assert(seq!['o', 'r', 'd', 'e', 'r', '_', 'c', 'a', 'n', 'c', 'e', 'l', '_', 'r', 'e', 'j', 'e', 'c', 't', 'e', 'd'].len() != seq!['s', 't', 'o', 'p', 'p', 'e', 'd'].len());
    assert(seq!['o', 'r', 'd', 'e', 'r', '_', 'c', 'a', 'n', 'c', 'e', 'l', '_', 'r', 'e', 'j', 'e', 'c', 't', 'e', 'd'].len() != seq!['c', 'a', 'l', 'c', 'u', 'l', 'a', 't', 'e', 'd'].len());
    assert(seq!['o', 'r', 'd', 'e', 'r', '_', 'c', 'a', 'n', 'c', 'e', 'l', '_', 'r', 'e', 'j', 'e', 'c', 't', 'e', 'd'].len() != seq!['s', 'u', 's', 'p', 'e', 'n', 'd', 'e', 'd'].len());
    assert(seq!['o', 'r', 'd', 'e', 'r', '_', 'c', 'a', 'n', 'c', 'e', 'l', '_', 'r', 'e', 'j', 'e', 'c', 't', 'e', 'd'].len() != seq!['o', 'r', 'd', 'e', 'r', '_', 'r', 'e', 'p', 'l', 'a', 'c', 'e', '_', 'r', 'e', 'j', 'e', 'c', 't', 'e', 'd'].len());
}

/// One trade update.
#[derive(Clone, Debug, PartialEq, Eq)]
pub struct TradeUpdate {
    /// What happened, as the venue named it; read it through [`TradeUpdate::event_kind`].
    pub event: String,
    /// When it happened (RFC 3339).
    pub timestamp: Option<String>,
    /// The order in its state after the event.
    pub order: AlpacaOrder,
    /// Execution price, present on fills.
    pub price: Option<String>,
    /// Executed quantity, present on fills.
    pub qty: Option<String>,
    /// Resulting position size, present on fills.
    pub position_qty: Option<String>,
    /// Venue execution identifier, present on fills.
    pub execution_id: Option<String>,
}

/// True when an update is a fill or partial fill that reports its price and quantity.
pub open spec fn spec_carries_fill_figures(update: TradeUpdate) -> bool {
    let kind = event_from_wire(update.event@);
    &&& (kind == AlpacaTradeEvent::Fill || kind == AlpacaTradeEvent::PartialFill)
    &&& update.price is Some
    &&& update.qty is Some
}

/// True when an update carries enough detail to build a fill report: a fill with its price, its
/// quantity and the execution identifier that tells a redelivered fill from a new one.
pub open spec fn spec_has_fill_detail(update: TradeUpdate) -> bool {
    &&& spec_carries_fill_figures(update)
    &&& update.execution_id is Some
}

impl TradeUpdate {
    /// Returns the typed event, or [`AlpacaTradeEvent::Unknown`] for one this adapter does not
    /// model.
    pub fn event_kind(&self) -> (res: AlpacaTradeEvent)
        ensures
            res == event_from_wire(self.event@),
    {
        AlpacaTradeEvent::from_wire(self.event.as_str())
    }

    /// Returns true when the update is a fill that reports its price and quantity.
    pub fn carries_fill_figures(&self) -> (res: bool)
        ensures
            res == spec_carries_fill_figures(*self),
    {
        self.event_kind().is_fill() && self.price.is_some() && self.qty.is_some()
    }

    /// Returns true when the update carries enough detail to build a fill report.
    pub fn has_fill_detail(&self) -> (res: bool)
        ensures
            res == spec_has_fill_detail(*self),
    {
        self.carries_fill_figures() && self.execution_id.is_some()
    }
}

/// A `fill` or a `partial_fill` that reports its price, its quantity and its execution identifier
/// carries fill detail, so partial fills are reported as fills too; and only such updates do.
pub proof fn lemma_fills_and_partial_fills_carry_detail(update: TradeUpdate)
    ensures
        (update.event@ == event_wire(AlpacaTradeEvent::Fill) || update.event@ == event_wire(
            AlpacaTradeEvent::PartialFill,
        )) && update.price is Some && update.qty is Some && update.execution_id is Some
            ==> spec_has_fill_detail(update),
        spec_has_fill_detail(update) ==> {
            &&& (update.event@ == event_wire(AlpacaTradeEvent::Fill) || update.event@ == event_wire(
                AlpacaTradeEvent::PartialFill,
            ))
            &&& update.price is Some
            &&& update.qty is Some
            &&& update.execution_id is Some
        },
{
    lemma_event_wire_round_trip(AlpacaTradeEvent::Fill);
    lemma_event_wire_round_trip(AlpacaTradeEvent::PartialFill);
    let kind = event_from_wire(update.event@);
    if kind == AlpacaTradeEvent::Fill || kind == AlpacaTradeEvent::PartialFill {
        lemma_wire_of_read_event(update.event@);
    }
}

/// A wire value read as a modelled event is that event's spelling.
proof fn lemma_wire_of_read_event(s: Seq<char>)
    requires
        event_from_wire(s) != AlpacaTradeEvent::Unknown,
    ensures
        event_wire(event_from_wire(s)) == s,
{
}

} // verus!
