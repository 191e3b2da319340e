//! The driver of the media session with one remote peer.
//!
//! The driver decides; the media engine acts. Each step of a negotiation is
//! asked of the engine as an [`EngineRequest`], and what the engine made of
//! it is handed back to the driver, which then says what goes to the remote
//! peer through the matchmaker.

use vstd::prelude::*;
use crate::message::{
    ClientId, Message, MessageView, PeerMessage, PeerMessageView, SessionDescription,
    SessionDescriptionView,
};

verus! {

/// Where the negotiation with a remote peer stands.
#[derive(Clone, Copy, Debug, PartialEq, Eq, Structural)]
pub enum PeerState {
    /// Nothing was negotiated yet.
    New,
    /// An offer was asked of the engine or sent; the answer is awaited.
    Offering,
    /// An offer came in; the engine is making the answer.
    Answering,
    /// Descriptions are exchanged; candidates trickle.
    WaitingForIce,
    /// A data channel is open.
    ChannelOpen,
    /// The negotiation failed or the peer left.
    Closed,
}

/// What the media engine reports of the connection to a peer.
#[derive(Clone, Copy, Debug, PartialEq, Eq, Structural)]
pub enum ConnectionState {
    Unspecified,
    New,
    Connecting,
    Connected,
    Disconnected,
    Failed,
    Closed,
}

/// Why the driver could not go on.
#[derive(Clone, Copy, Debug, PartialEq, Eq, Structural)]
pub enum PeerError {
    /// The engine could not make or apply a session description.
    NegotiationFailed,
    /// The engine reported a description that the driver had not asked for.
    NotNegotiating,
}

/// The label of the data channel that each driver opens.
pub open spec fn channel_label() -> Seq<char> {
    "data"@
}

/// The properties of a data channel.
#[derive(Debug, PartialEq, Eq)]
pub struct DataChannelInit {
    pub label: String,
    /// Whether messages arrive in the order of sending.
    pub ordered: bool,
    /// How often a lost message is sent again.
    pub max_retransmits: u16,
    /// The number of the channel.
    pub id: u16,
}

impl DataChannelInit {
    /// Whether the channel is the unreliable one that drivers open: labelled
    /// `data`, unordered, never retransmitting, channel 0.
    pub open spec fn is_unreliable(&self) -> bool {
        &&& self.label@ == channel_label()
        &&& !self.ordered
        &&& self.max_retransmits == 0
        &&& self.id == 0
    }

    /// The unreliable, unordered channel that each driver opens.
    pub fn unreliable() -> (r: Self)
        ensures
            r.is_unreliable(),
    {
        DataChannelInit { label: "data".to_owned(), ordered: false, max_retransmits: 0, id: 0 }
    }
}

/// A candidate as it is handed to the media engine.
#[derive(Debug, PartialEq, Eq)]
pub struct IceCandidateInit {
    pub candidate: String,
    pub sdp_mid: Option<String>,
    pub sdp_mline_index: Option<u16>,
    pub username_fragment: Option<String>,
}

/// What a driver asks of the media engine.
#[derive(Debug, PartialEq, Eq)]
pub enum EngineRequest {
    /// Create an offer, make it the local description, and report the local
    /// description.
    CreateOffer,
    /// Make the offer the remote description, create an answer, make it the
    /// local description, and report it.
    AcceptOffer(SessionDescription),
    /// Make the answer the remote description.
    ApplyAnswer(SessionDescription),
    AddIceCandidate(IceCandidateInit),
    /// Write the payload to the outbound data channel.
    Send(Vec<u8>),
}

/// Mathematical value of an [`EngineRequest`].
pub enum EngineRequestView {
    CreateOffer,
    AcceptOffer(SessionDescriptionView),
    ApplyAnswer(SessionDescriptionView),
    /// A candidate line, with no media id, line index or user name fragment.
    AddIceCandidate(Seq<char>),
    Send(Seq<u8>),
}

impl View for EngineRequest {
    type V = EngineRequestView;

    open spec fn view(&self) -> EngineRequestView {
        match *self {
            EngineRequest::CreateOffer => EngineRequestView::CreateOffer,
            EngineRequest::AcceptOffer(d) => EngineRequestView::AcceptOffer(d@),
            EngineRequest::ApplyAnswer(d) => EngineRequestView::ApplyAnswer(d@),
            EngineRequest::AddIceCandidate(c) => EngineRequestView::AddIceCandidate(c.candidate@),
            EngineRequest::Send(p) => EngineRequestView::Send(p@),
        }
    }
}

impl EngineRequest {
    /// Whether a candidate that is asked to be added carries the line alone.
    pub open spec fn candidate_is_bare(&self) -> bool {
        match *self {
            EngineRequest::AddIceCandidate(c) => c.sdp_mid is None && c.sdp_mline_index is None
                && c.username_fragment is None,
            _ => true,
        }
    }
}

/// The value of an optional request.
pub open spec fn request_view(request: Option<EngineRequest>) -> Option<EngineRequestView> {
    match request {
        Some(r) => Some(r@),
        None => None,
    }
}

/// A payload received from, or to be sent to, the peer `id`.
#[derive(Debug, PartialEq, Eq)]
pub struct Packet {
    pub id: ClientId,
    pub payload: Vec<u8>,
}

/// Mathematical value of a [`Packet`].
pub struct PacketView {
    pub id: ClientId,
    pub payload: Seq<u8>,
}

impl View for Packet {
    type V = PacketView;

    open spec fn view(&self) -> PacketView {
        PacketView { id: self.id, payload: self.payload@ }
    }
}

impl Packet {
    /// A packet for, or from, the peer `id`.
    pub fn new(id: ClientId, payload: Vec<u8>) -> (r: Self)
        ensures
            r@ == (PacketView { id, payload: payload@ }),
    {
        Packet { id, payload }
    }
}

/// Mathematical value of a [`Peer`].
pub struct PeerView {
    /// The local client.
    pub id: ClientId,
    /// The remote peer.
    pub peer_id: ClientId,
    pub state: PeerState,
}

impl PeerView {
    /// The driver in the given state.
    pub open spec fn in_state(self, state: PeerState) -> PeerView {
        PeerView { id: self.id, peer_id: self.peer_id, state }
    }

    /// Whether a data channel to the peer is open.
    pub open spec fn ready(self) -> bool {
        self.state == PeerState::ChannelOpen
    }

    /// The offer as it goes to the remote peer.
    pub open spec fn offer_message(self, offer: SessionDescriptionView) -> PeerMessageView {
        PeerMessageView {
            peer_id: self.peer_id,
            content: MessageView::Offer { id: self.id, offer },
        }
    }

    /// The answer as it goes to the remote peer.
    pub open spec fn answer_message(self, answer: SessionDescriptionView) -> PeerMessageView {
        PeerMessageView {
            peer_id: self.peer_id,
            content: MessageView::Answer { id: self.id, answer },
        }
    }

    /// A local candidate as it goes to the remote peer.
    pub open spec fn candidate_message(self, candidate: Seq<char>) -> PeerMessageView {
        PeerMessageView {
            peer_id: self.peer_id,
            content: MessageView::IceCandidate { id: self.id, candidate },
        }
    }
}

/// The value of the description in a result of the engine.
pub open spec fn outcome_view(outcome: Result<SessionDescription, PeerError>) -> Option<
    SessionDescriptionView,
> {
    match outcome {
        Ok(d) => Some(d@),
        Err(_) => None,
    }
}

/// The value of an addressed envelope in a result of the driver.
pub open spec fn signal_view(signal: Result<PeerMessage, PeerError>) -> Result<
    PeerMessageView,
    PeerError,
> {
    match signal {
        Ok(m) => Ok(m@),
        Err(e) => Err(e),
    }
}

/// The driver of the media session between the local client and one remote
/// peer.
#[derive(Clone, Copy, Debug)]
pub struct Peer {
    id: ClientId,
    peer_id: ClientId,
    state: PeerState,
}

impl View for Peer {
    type V = PeerView;

    closed spec fn view(&self) -> PeerView {
        PeerView { id: self.id, peer_id: self.peer_id, state: self.state }
    }
}

impl Peer {
    /// A driver for the session of the local client `id` with the remote
    /// peer `peer_id`. Nothing is negotiated yet.
    pub fn new(id: ClientId, peer_id: ClientId) -> (r: Self)
        ensures
            r@ == (PeerView { id, peer_id, state: PeerState::New }),
    {
        Peer { id, peer_id, state: PeerState::New }
    }

    /// The local client.
    pub fn id(&self) -> (r: ClientId)
        ensures
            r == self@.id,
    {
        self.id
    }

    /// The remote peer.
    pub fn peer_id(&self) -> (r: ClientId)
        ensures
            r == self@.peer_id,
    {
        self.peer_id
    }

    /// Where the negotiation stands.
    pub fn state(&self) -> (r: PeerState)
        ensures
            r == self@.state,
    {
        self.state
    }

    /// Whether a data channel to the peer is open, in either direction.
    pub fn ready(&self) -> (r: bool)
        ensures
            r == self@.ready(),
    {
        self.state == PeerState::ChannelOpen
    }

    /// Starts a negotiation as the offering side. Only a driver that has not
    /// negotiated yet offers; any other asks nothing of the engine.
    pub fn create_offer(&mut self) -> (r: Option<EngineRequest>)
        ensures
            old(self)@.state == PeerState::New ==> final(self)@ == old(self)@.in_state(
                PeerState::Offering,
            ) && request_view(r) == Some(EngineRequestView::CreateOffer),
            old(self)@.state != PeerState::New ==> final(self)@ == old(self)@ && r is None,
    {
        if self.state == PeerState::New {
            self.state = PeerState::Offering;
            Some(EngineRequest::CreateOffer)
        } else {
            None
        }
    }

    /// Takes the local description that the engine made for an offer, and
    /// gives the offer as it goes to the remote peer.
    ///
    /// Where the engine failed the driver is closed and the error is
    /// `NegotiationFailed`; a driver that is not offering is unchanged and
    /// the error is `NotNegotiating`.
    pub fn handshake_offer(&mut self, offer: Result<SessionDescription, PeerError>) -> (r: Result<PeerMessage, PeerError>)
        ensures
            old(self)@.state != PeerState::Offering ==> final(self)@ == old(self)@ && r is Err
                && r->Err_0 == PeerError::NotNegotiating,
            old(self)@.state == PeerState::Offering && offer is Ok ==> final(self)@ == old(self)@
                && signal_view(r) == Ok::<PeerMessageView, PeerError>(
                old(self)@.offer_message(offer->Ok_0@),
            ),
            old(self)@.state == PeerState::Offering && offer is Err ==> final(self)@ == old(
                self,
            )@.in_state(PeerState::Closed) && r is Err && r->Err_0 == PeerError::NegotiationFailed,
    {
        if self.state != PeerState::Offering {
            return Err(PeerError::NotNegotiating);
        }
        match offer {
            Ok(offer) => Ok(
                PeerMessage { peer_id: self.peer_id, content: Message::Offer { id: self.id, offer } },
            ),
            Err(_) => {
                self.state = PeerState::Closed;
                Err(PeerError::NegotiationFailed)
            },
        }
    }

    /// Takes an offer of the remote peer. Only a driver that has not
    /// negotiated yet answers; any other asks nothing of the engine.
    pub fn accept_offer(&mut self, offer: SessionDescription) -> (r: Option<EngineRequest>)
        ensures
            old(self)@.state == PeerState::New ==> final(self)@ == old(self)@.in_state(
                PeerState::Answering,
            ) && request_view(r) == Some(EngineRequestView::AcceptOffer(offer@)),
            old(self)@.state != PeerState::New ==> final(self)@ == old(self)@ && r is None,
    {
        if self.state == PeerState::New {
            self.state = PeerState::Answering;
            Some(EngineRequest::AcceptOffer(offer))
        } else {
            None
        }
    }

    /// Takes the answer that the engine made, and gives it as it goes to the
    /// remote peer. From then on the driver waits for candidates.
    ///
    /// Where the engine failed the driver is closed and the error is
    /// `NegotiationFailed`; a driver that is not answering is unchanged and
    /// the error is `NotNegotiating`.
    pub fn handshake_accept(&mut self, answer: Result<SessionDescription, PeerError>) -> (r: Result<PeerMessage, PeerError>)
        ensures
            old(self)@.state != PeerState::Answering ==> final(self)@ == old(self)@ && r is Err
                && r->Err_0 == PeerError::NotNegotiating,
            old(self)@.state == PeerState::Answering && answer is Ok ==> final(self)@ == old(
                self,
            )@.in_state(PeerState::WaitingForIce) && signal_view(r) == Ok::<
                PeerMessageView,
                PeerError,
            >(old(self)@.answer_message(answer->Ok_0@)),
            old(self)@.state == PeerState::Answering && answer is Err ==> final(self)@ == old(
                self,
            )@.in_state(PeerState::Closed) && r is Err && r->Err_0 == PeerError::NegotiationFailed,
    {
        if self.state != PeerState::Answering {
            return Err(PeerError::NotNegotiating);
        }
        match answer {
            Ok(answer) => {
                self.state = PeerState::WaitingForIce;
                Ok(
                    PeerMessage {
                        peer_id: self.peer_id,
                        content: Message::Answer { id: self.id, answer },
                    },
                )
            },
            Err(_) => {
                self.state = PeerState::Closed;
                Err(PeerError::NegotiationFailed)
            },
        }
    }

    /// Takes the answer of the remote peer to the offer. Only a driver that
    /// is offering applies it, and then waits for candidates.
    pub fn handle_answer(&mut self, answer: SessionDescription) -> (r: Option<EngineRequest>)
        ensures
            old(self)@.state == PeerState::Offering ==> final(self)@ == old(self)@.in_state(
                PeerState::WaitingForIce,
            ) && request_view(r) == Some(EngineRequestView::ApplyAnswer(answer@)),
            old(self)@.state != PeerState::Offering ==> final(self)@ == old(self)@ && r is None,
    {
        if self.state == PeerState::Offering {
            self.state = PeerState::WaitingForIce;
            Some(EngineRequest::ApplyAnswer(answer))
        } else {
            None
        }
    }

    /// Takes a candidate of the remote peer: unless the driver is closed the
    /// engine is asked to add it, the line alone, with no media id and no
    /// line index.
    pub fn apply_ice(&self, candidate: String) -> (r: Option<EngineRequest>)
        ensures
            self@.state != PeerState::Closed ==> request_view(r) == Some(
                EngineRequestView::AddIceCandidate(candidate@),
            ) && r.unwrap().candidate_is_bare(),
            self@.state == PeerState::Closed ==> r is None,
    {
        if self.state == PeerState::Closed {
            None
        } else {
            Some(
                EngineRequest::AddIceCandidate(
                    IceCandidateInit {
                        candidate,
                        sdp_mid: None,
                        sdp_mline_index: None,
                        username_fragment: None,
                    },
                ),
            )
        }
    }

    /// Takes what the engine reports of its gathering: a candidate goes to
    /// the remote peer at once, each in an envelope of its own; the end of
    /// the gathering is not passed on.
    pub fn ice_candidate(&self, candidate: Option<String>) -> (r: Option<PeerMessage>)
        ensures
            candidate is Some ==> r is Some && r.unwrap()@ == self@.candidate_message(
                candidate.unwrap()@,
            ),
            candidate is None ==> r is None,
    {
        match candidate {
            Some(candidate) => Some(
                PeerMessage {
                    peer_id: self.peer_id,
                    content: Message::IceCandidate { id: self.id, candidate },
                },
            ),
            None => None,
        }
    }

    /// A data channel opened, the one that this side created or the one of
    /// the remote peer: unless the driver is closed, the peer is ready.
    pub fn channel_opened(&mut self)
        ensures
            old(self)@.state != PeerState::Closed ==> final(self)@ == old(self)@.in_state(
                PeerState::ChannelOpen,
            ),
            old(self)@.state == PeerState::Closed ==> final(self)@ == old(self)@,
    {
        if self.state != PeerState::Closed {
            self.state = PeerState::ChannelOpen;
        }
    }

    /// The engine could not make or apply a description: the driver is
    /// closed.
    pub fn negotiation_failed(&mut self) -> (r: PeerError)
        ensures
            final(self)@ == old(self)@.in_state(PeerState::Closed),
            r == PeerError::NegotiationFailed,
    {
        self.state = PeerState::Closed;
        PeerError::NegotiationFailed
    }

    /// Takes what the engine reports of the connection. A failed connection
    /// is worth a note and leaves the driver as it is.
    pub fn connection_state_changed(&self, state: ConnectionState) -> (failed: bool)
        ensures
            failed == (state == ConnectionState::Failed),
    {
        state == ConnectionState::Failed
    }

    /// Asks the engine to write `payload` to the outbound data channel.
    pub fn send(&self, payload: Vec<u8>) -> (r: EngineRequest)
        ensures
            r@ == EngineRequestView::Send(payload@),
    {
        EngineRequest::Send(payload)
    }

    /// Wraps a payload that came in on the remote peer's channel.
    pub fn received(&self, payload: Vec<u8>) -> (r: Packet)
        ensures
            r@ == (PacketView { id: self@.peer_id, payload: payload@ }),
    {
        Packet { id: self.peer_id, payload }
    }

    /// The peer left or the local transport is torn down.
    pub fn close(&mut self)
        ensures
            final(self)@ == old(self)@.in_state(PeerState::Closed),
    {
        self.state = PeerState::Closed;
    }
}

} // verus!
