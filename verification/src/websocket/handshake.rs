//! The trading stream handshake: authenticate, then subscribe to trade updates.
//!
//! Frames from other streams may arrive in between, so each phase reads up to a fixed number of
//! text frames for its answer before giving up.

use vstd::prelude::*;

use crate::{
    common::text::{eq_ignore_ascii_case, str_equals},
    websocket::messages::{
        AuthorizationData, StreamList, STREAM_AUTHORIZATION, STREAM_LISTENING,
        STREAM_TRADE_UPDATES,
    },
};

verus! {

/// Text frames read for each answer before the handshake gives up.
pub const HANDSHAKE_FRAME_LIMIT: u32 = 16;

/// Where a handshake stands.
#[derive(Copy, Clone, Debug, PartialEq, Eq, Structural)]
pub enum HandshakePhase {
    /// Credentials sent; waiting for the authorization answer.
    Authorizing,
    /// Subscription sent; waiting for the listening answer.
    Subscribing,
    /// Authorized and subscribed to trade updates.
    Connected,
    /// The handshake failed.
    Failed,
}

/// Why a handshake failed.
#[derive(Clone, Debug, PartialEq, Eq)]
pub enum HandshakeError {
    /// The stream closed before the authorization answer.
    ClosedBeforeAuthorization,
    /// The authorization answer could not be decoded.
    AuthorizationUndecodable,
    /// The venue refused the credentials, with this status (never the credentials themselves).
    Refused(String),
    /// No authorization answer within the frame limit.
    NoAuthorizationResponse,
    /// The stream closed before the listening answer.
    ClosedBeforeSubscription,
    /// The listening answer could not be decoded.
    ListeningUndecodable,
    /// The venue did not subscribe the trade update stream; the streams it did list.
    NotSubscribed(Vec<String>),
    /// No listening answer within the frame limit.
    NoSubscriptionResponse,
}

/// What the connection reports back to the handshake.
#[derive(Clone, Debug, PartialEq, Eq)]
pub enum HandshakeEvent {
    /// The stream ended.
    StreamEnded,
    /// A text frame arrived: the name of the stream its envelope names, or `None` when it is
    /// not an envelope at all.
    TextFrame(Option<String>),
    /// The authorization frame's data, or `None` when it could not be decoded.
    Authorization(Option<AuthorizationData>),
    /// The listening frame's data, or `None` when it could not be decoded.
    Listening(Option<StreamList>),
}

/// What the handshake asks the connection to do next.
#[derive(Clone, Debug, PartialEq, Eq)]
pub enum HandshakeAction {
    /// Read the next text frame.
    ReadFrame,
    /// Decode the frame just read as the authorization answer.
    DecodeAuthorization,
    /// Send the subscription frame, then read.
    SendListen,
    /// Decode the frame just read as the listening answer.
    DecodeListening,
    /// The stream is ready for trade updates.
    Connected,
    /// Give up.
    Fail(HandshakeError),
    /// The event does not belong to the current phase.
    Ignore,
}

/// A handshake in progress.
#[derive(Copy, Clone, Debug, PartialEq, Eq, Structural)]
pub struct Handshake {
    /// Where it stands.
    pub phase: HandshakePhase,
    /// Text frames read in the current phase that were not its answer.
    pub frames_read: u32,
}

/// True when a listed stream is the trade update stream.
pub open spec fn lists_trade_updates(streams: Seq<String>) -> bool {
    exists|i: int| 0 <= i < streams.len() && (#[trigger] streams[i])@ == STREAM_TRADE_UPDATES@
}

/// True when an optional stream name is `name`.
pub open spec fn names_stream(stream: Option<String>, name: Seq<char>) -> bool {
    match stream {
        Some(s) => s@ == name,
        None => false,
    }
}

/// One step of the handshake.
pub open spec fn spec_handshake_step(
    before: Handshake,
    event: HandshakeEvent,
    after: Handshake,
    action: HandshakeAction,
) -> bool {
    match (before.phase, event) {
        (HandshakePhase::Authorizing, HandshakeEvent::StreamEnded) => after.phase
            == HandshakePhase::Failed && action == HandshakeAction::Fail(
            HandshakeError::ClosedBeforeAuthorization,
        ),
        (HandshakePhase::Authorizing, HandshakeEvent::TextFrame(stream)) => if names_stream(
            stream,
            STREAM_AUTHORIZATION@,
        ) {
            after == before && action == HandshakeAction::DecodeAuthorization
        } else if before.frames_read + 1 >= HANDSHAKE_FRAME_LIMIT {
            after.phase == HandshakePhase::Failed && action == HandshakeAction::Fail(
                HandshakeError::NoAuthorizationResponse,
            )
        } else {
            after == (Handshake { frames_read: (before.frames_read + 1) as u32, ..before })
                && action == HandshakeAction::ReadFrame
        },
        (HandshakePhase::Authorizing, HandshakeEvent::Authorization(None)) => after.phase
            == HandshakePhase::Failed && action == HandshakeAction::Fail(
            HandshakeError::AuthorizationUndecodable,
        ),
        (HandshakePhase::Authorizing, HandshakeEvent::Authorization(Some(d))) => if eq_ignore_ascii_case(
            d.status@,
            "authorized"@,
        ) {
            after == (Handshake { phase: HandshakePhase::Subscribing, frames_read: 0 }) && action
                == HandshakeAction::SendListen
        } else {
            after.phase == HandshakePhase::Failed && match action {
                HandshakeAction::Fail(HandshakeError::Refused(status)) => status@ == d.status@,
                _ => false,
            }
        },
        (HandshakePhase::Subscribing, HandshakeEvent::StreamEnded) => after.phase
            == HandshakePhase::Failed && action == HandshakeAction::Fail(
            HandshakeError::ClosedBeforeSubscription,
        ),
        (HandshakePhase::Subscribing, HandshakeEvent::TextFrame(stream)) => if names_stream(
            stream,
            STREAM_LISTENING@,
        ) {
            after == before && action == HandshakeAction::DecodeListening
        } else if before.frames_read + 1 >= HANDSHAKE_FRAME_LIMIT {
            after.phase == HandshakePhase::Failed && action == HandshakeAction::Fail(
                HandshakeError::NoSubscriptionResponse,
            )
        } else {
            after == (Handshake { frames_read: (before.frames_read + 1) as u32, ..before })
                && action == HandshakeAction::ReadFrame
        },
        (HandshakePhase::Subscribing, HandshakeEvent::Listening(None)) => after.phase
            == HandshakePhase::Failed && action == HandshakeAction::Fail(
            HandshakeError::ListeningUndecodable,
        ),
        (HandshakePhase::Subscribing, HandshakeEvent::Listening(Some(l))) => if lists_trade_updates(
            l.streams@,
        ) {
            after.phase == HandshakePhase::Connected && action == HandshakeAction::Connected
        } else {
            after.phase == HandshakePhase::Failed && match action {
                HandshakeAction::Fail(HandshakeError::NotSubscribed(streams)) => streams@.map_values(
                    |s: String| s@,
                ) == l.streams@.map_values(|s: String| s@),
                _ => false,
            }
        },
        _ => after == before && action == HandshakeAction::Ignore,
    }
}

fn lists_trade_updates_exec(streams: &Vec<String>) -> (res: bool)
    ensures
        res == lists_trade_updates(streams@),
{
    let mut i: usize = 0;
    while i < streams.len()
        invariant
            i <= streams@.len(),
            forall|j: int| 0 <= j < i ==> (#[trigger] streams@[j])@ != STREAM_TRADE_UPDATES@,
        decreases streams@.len() - i,
    {
        if str_equals(streams[i].as_str(), STREAM_TRADE_UPDATES) {
            return true;
        }
        i = i + 1;
    }
    false
}

fn copy_strings(v: &Vec<String>) -> (res: Vec<String>)
    ensures
        res@.map_values(|s: String| s@) == v@.map_values(|s: String| s@),
{
    let mut out: Vec<String> = Vec::new();
    let mut i: usize = 0;
    while i < v.len()
        invariant
            i <= v@.len(),
            out@.len() == i,
            forall|j: int| 0 <= j < i ==> (#[trigger] out@[j])@ == v@[j]@,
        decreases v@.len() - i,
    {
        out.push(v[i].clone());
        i = i + 1;
    }
    assert(out@.map_values(|s: String| s@) =~= v@.map_values(|s: String| s@));
    out
}

fn is_stream(stream: &Option<String>, name: &str) -> (res: bool)
    ensures
        res == names_stream(*stream, name@),
{
    match stream {
        Some(s) => str_equals(s.as_str(), name),
        None => false,
    }
}

impl Handshake {
    /// Starts a handshake once the credentials have been sent: the first thing to do is read.
    pub fn new() -> (res: Self)
        ensures
            res.phase == HandshakePhase::Authorizing,
            res.frames_read == 0,
    {
        Handshake { phase: HandshakePhase::Authorizing, frames_read: 0 }
    }

    fn fail(&mut self, error: HandshakeError) -> (res: HandshakeAction)
        ensures
            final(self).phase == HandshakePhase::Failed,
            final(self).frames_read == old(self).frames_read,
            res == HandshakeAction::Fail(error),
    {
        self.phase = HandshakePhase::Failed;
        HandshakeAction::Fail(error)
    }

    /// Takes what the connection reported and returns what to do next.
    pub fn on_event(&mut self, event: HandshakeEvent) -> (res: HandshakeAction)
        requires
            old(self).frames_read < HANDSHAKE_FRAME_LIMIT,
        ensures
            spec_handshake_step(*old(self), event, *final(self), res),
            final(self).frames_read < HANDSHAKE_FRAME_LIMIT,
    {
        match (self.phase, event) {
            (HandshakePhase::Authorizing, HandshakeEvent::StreamEnded) => {
                self.fail(HandshakeError::ClosedBeforeAuthorization)
            },
            (HandshakePhase::Authorizing, HandshakeEvent::TextFrame(stream)) => {
                if is_stream(&stream, STREAM_AUTHORIZATION) {
                    HandshakeAction::DecodeAuthorization
                } else if self.frames_read + 1 >= HANDSHAKE_FRAME_LIMIT {
                    self.fail(HandshakeError::NoAuthorizationResponse)
                } else {
                    self.frames_read = self.frames_read + 1;
                    HandshakeAction::ReadFrame
                }
            },
            (HandshakePhase::Authorizing, HandshakeEvent::Authorization(None)) => {
                self.fail(HandshakeError::AuthorizationUndecodable)
            },
            (HandshakePhase::Authorizing, HandshakeEvent::Authorization(Some(d))) => {
                if d.is_authorized() {
                    self.phase = HandshakePhase::Subscribing;
                    self.frames_read = 0;
                    HandshakeAction::SendListen
                } else {
                    self.fail(HandshakeError::Refused(d.status))
                }
            },
            (HandshakePhase::Subscribing, HandshakeEvent::StreamEnded) => {
                self.fail(HandshakeError::ClosedBeforeSubscription)
            },
            (HandshakePhase::Subscribing, HandshakeEvent::TextFrame(stream)) => {
                if is_stream(&stream, STREAM_LISTENING) {
                    HandshakeAction::DecodeListening
                } else if self.frames_read + 1 >= HANDSHAKE_FRAME_LIMIT {
                    self.fail(HandshakeError::NoSubscriptionResponse)
                } else {
                    self.frames_read = self.frames_read + 1;
                    HandshakeAction::ReadFrame
                }
            },
            (HandshakePhase::Subscribing, HandshakeEvent::Listening(None)) => {
                self.fail(HandshakeError::ListeningUndecodable)
            },
            (HandshakePhase::Subscribing, HandshakeEvent::Listening(Some(l))) => {
                if lists_trade_updates_exec(&l.streams) {
                    self.phase = HandshakePhase::Connected;
                    HandshakeAction::Connected
                } else {
                    let streams = copy_strings(&l.streams);
                    self.fail(HandshakeError::NotSubscribed(streams))
                }
            },
            (_, _) => HandshakeAction::Ignore,
        }
    }
}

/// The handshake connects only after the venue authorized the credentials and then listed the
/// trade update stream among those subscribed.
pub proof fn lemma_connected_only_when_subscribed(
    before: Handshake,
    event: HandshakeEvent,
    after: Handshake,
    action: HandshakeAction,
)
    requires
        spec_handshake_step(before, event, after, action),
        action == HandshakeAction::Connected,
    ensures
        before.phase == HandshakePhase::Subscribing,
        event matches HandshakeEvent::Listening(Some(l)) && lists_trade_updates(l.streams@),
{
}

/// Each phase reads at most [`HANDSHAKE_FRAME_LIMIT`] frames: a step that asks for another frame
/// leaves fewer than the limit read.
pub proof fn lemma_frame_budget_is_bounded(
    before: Handshake,
    event: HandshakeEvent,
    after: Handshake,
    action: HandshakeAction,
)
    requires
        spec_handshake_step(before, event, after, action),
        before.frames_read < HANDSHAKE_FRAME_LIMIT,
        action == HandshakeAction::ReadFrame,
    ensures
        after.frames_read < HANDSHAKE_FRAME_LIMIT,
        after.frames_read == before.frames_read + 1,
{
}

} // verus!
