//! Signaling envelopes exchanged between the matchmaker and its clients.
//!
//! Every type here has a mathematical view in which strings are sequences of
//! characters and lists are sequences; the contracts of the other modules are
//! stated over those views.

use vstd::prelude::*;

verus! {

/// Identity of a connected client: the 128 bits of its UUID.
pub type ClientId = u128;

/// What role a session description plays in an offer/answer exchange.
#[derive(Clone, Copy, Debug, PartialEq, Eq, Structural)]
pub enum SdpKind {
    Unspecified,
    Offer,
    Pranswer,
    Answer,
    Rollback,
}

/// A session description as the media engine produces and consumes it.
#[derive(Debug, PartialEq, Eq)]
pub struct SessionDescription {
    pub kind: SdpKind,
    pub sdp: String,
}

/// Mathematical value of a [`SessionDescription`].
pub struct SessionDescriptionView {
    pub kind: SdpKind,
    pub sdp: Seq<char>,
}

impl View for SessionDescription {
    type V = SessionDescriptionView;

    open spec fn view(&self) -> SessionDescriptionView {
        SessionDescriptionView { kind: self.kind, sdp: self.sdp@ }
    }
}

impl Clone for SessionDescription {
    fn clone(&self) -> (r: Self)
        ensures
            r@ == self@,
    {
        SessionDescription { kind: self.kind, sdp: self.sdp.clone() }
    }
}

impl SessionDescription {
    /// A description of the given kind.
    pub fn new(kind: SdpKind, sdp: String) -> (r: Self)
        ensures
            r@ == (SessionDescriptionView { kind, sdp: sdp@ }),
    {
        SessionDescription { kind, sdp }
    }
}

/// A signaling envelope.
///
/// In `Offer`, `Answer` and `IceCandidate` the `id` names the sender. `Id`,
/// `NewPeer`, `Peers` and `PeerDisconnected` originate at the matchmaker.
#[derive(Debug, PartialEq, Eq)]
pub enum Message {
    /// The identity assigned to the receiving session.
    Id(ClientId),
    /// A session joined after the receiver did.
    NewPeer { id: ClientId },
    /// The sessions that were connected when the receiver joined.
    Peers(Vec<ClientId>),
    /// A session left.
    PeerDisconnected { id: ClientId },
    Offer { id: ClientId, offer: SessionDescription },
    Answer { id: ClientId, answer: SessionDescription },
    IceCandidate { id: ClientId, candidate: String },
}

/// Mathematical value of a [`Message`].
pub enum MessageView {
    Id(ClientId),
    NewPeer { id: ClientId },
    Peers(Seq<ClientId>),
    PeerDisconnected { id: ClientId },
    Offer { id: ClientId, offer: SessionDescriptionView },
    Answer { id: ClientId, answer: SessionDescriptionView },
    IceCandidate { id: ClientId, candidate: Seq<char> },
}

impl MessageView {
    /// Whether clients may address this envelope to one another.
    pub open spec fn is_routable(self) -> bool {
        self is Offer || self is Answer || self is IceCandidate
    }

    /// Whether the envelope speaks of `who`: as its sender, as the peer that
    /// joined or left, or as a member of a snapshot. `Id` speaks of nobody.
    pub open spec fn names(self, who: ClientId) -> bool {
        match self {
            MessageView::Id(_) => false,
            MessageView::NewPeer { id } => id == who,
            MessageView::Peers(ids) => ids.contains(who),
            MessageView::PeerDisconnected { id } => id == who,
            MessageView::Offer { id, .. } => id == who,
            MessageView::Answer { id, .. } => id == who,
            MessageView::IceCandidate { id, .. } => id == who,
        }
    }

    /// The envelope with `from` as its sender. Envelopes that have no sender
    /// are unchanged.
    pub open spec fn with_sender(self, from: ClientId) -> MessageView {
        match self {
            MessageView::Offer { id, offer } => MessageView::Offer { id: from, offer },
            MessageView::Answer { id, answer } => MessageView::Answer { id: from, answer },
            MessageView::IceCandidate { id, candidate } => MessageView::IceCandidate {
                id: from,
                candidate,
            },
            other => other,
        }
    }
}

impl View for Message {
    type V = MessageView;

    open spec fn view(&self) -> MessageView {
        match *self {
            Message::Id(id) => MessageView::Id(id),
            Message::NewPeer { id } => MessageView::NewPeer { id },
            Message::Peers(ids) => MessageView::Peers(ids@),
            Message::PeerDisconnected { id } => MessageView::PeerDisconnected { id },
            Message::Offer { id, offer } => MessageView::Offer { id, offer: offer@ },
            Message::Answer { id, answer } => MessageView::Answer { id, answer: answer@ },
            Message::IceCandidate { id, candidate } => MessageView::IceCandidate {
                id,
                candidate: candidate@,
            },
        }
    }
}

impl Clone for Message {
    fn clone(&self) -> (r: Self)
        ensures
            r@ == self@,
    {
        match self {
            Message::Id(id) => Message::Id(*id),
            Message::NewPeer { id } => Message::NewPeer { id: *id },
            Message::Peers(ids) => Message::Peers(ids.clone()),
            Message::PeerDisconnected { id } => Message::PeerDisconnected { id: *id },
            Message::Offer { id, offer } => Message::Offer { id: *id, offer: offer.clone() },
            Message::Answer { id, answer } => Message::Answer { id: *id, answer: answer.clone() },
            Message::IceCandidate { id, candidate } => Message::IceCandidate {
                id: *id,
                candidate: candidate.clone(),
            },
        }
    }
}

impl Message {
    /// Whether clients may address this envelope to one another.
    pub fn is_routable(&self) -> (r: bool)
        ensures
            r == self@.is_routable(),
    {
        match self {
            Message::Offer { .. } => true,
            Message::Answer { .. } => true,
            Message::IceCandidate { .. } => true,
            _ => false,
        }
    }

    /// The envelope with `from` as its sender.
    pub fn with_sender(self, from: ClientId) -> (r: Self)
        ensures
            r@ == self@.with_sender(from),
    {
        match self {
            Message::Offer { id: _, offer } => Message::Offer { id: from, offer },
            Message::Answer { id: _, answer } => Message::Answer { id: from, answer },
            Message::IceCandidate { id: _, candidate } => Message::IceCandidate {
                id: from,
                candidate,
            },
            other => other,
        }
    }

    /// The sender of a routable envelope.
    pub fn sender(&self) -> (r: Option<ClientId>)
        ensures
            r == match self@ {
                MessageView::Offer { id, .. } => Some(id),
                MessageView::Answer { id, .. } => Some(id),
                MessageView::IceCandidate { id, .. } => Some(id),
                _ => None,
            },
    {
        match self {
            Message::Offer { id, .. } => Some(*id),
            Message::Answer { id, .. } => Some(*id),
            Message::IceCandidate { id, .. } => Some(*id),
            _ => None,
        }
    }
}

/// An envelope a client asks the matchmaker to pass on to `peer_id`.
#[derive(Debug, PartialEq, Eq)]
pub struct PeerMessage {
    pub peer_id: ClientId,
    pub content: Message,
}

/// Mathematical value of a [`PeerMessage`].
pub struct PeerMessageView {
    pub peer_id: ClientId,
    pub content: MessageView,
}

impl View for PeerMessage {
    type V = PeerMessageView;

    open spec fn view(&self) -> PeerMessageView {
        PeerMessageView { peer_id: self.peer_id, content: self.content@ }
    }
}

impl Clone for PeerMessage {
    fn clone(&self) -> (r: Self)
        ensures
            r@ == self@,
    {
        PeerMessage { peer_id: self.peer_id, content: self.content.clone() }
    }
}

} // verus!
