//! The client's transport: one signaling connection to the matchmaker, one
//! driver for each remote peer, and the queues through which the application
//! sends and receives packets without blocking.
//!
//! The socket owns no connection and no media engine. It is told what came
//! in, and answers with the commands to perform, in order.

use vstd::prelude::*;
use crate::codec::decode_message;
use crate::frame::{Frame, FrameView};
use crate::message::{
    ClientId, Message, MessageView, PeerMessage, PeerMessageView, SessionDescription,
    SessionDescriptionView,
};
use crate::peer::{
    outcome_view, ConnectionState, EngineRequest, EngineRequestView, Packet, PacketView, Peer,
    PeerError, PeerState, PeerView,
};
use crate::peer::DataChannelInit;
use crate::rtc_config::{text_view, ws_url, IceServer, RtcConfig};

verus! {

/// Why a socket could not be made or had to stop.
#[derive(Clone, Copy, Debug, PartialEq, Eq, Structural)]
pub enum SocketError {
    /// The matchmaker sent what the protocol does not allow: a first frame
    /// that is no `Id`, text that spells no envelope, a frame of a kind that
    /// is not used.
    ProtocolViolation,
    /// The connection to the matchmaker did not deliver a frame.
    TransportClosed,
}

/// What the socket wants done.
#[derive(Debug, PartialEq, Eq)]
pub enum Command {
    /// Write the addressed envelope to the matchmaker as a text frame.
    Signal(PeerMessage),
    /// Answer a ping of the matchmaker.
    Pong(Vec<u8>),
    /// Build the media session for `peer` with the configured ICE servers,
    /// open the unreliable data channel on it, and report what it observes.
    CreatePeer { peer: ClientId },
    /// Hand the request to the media session of `peer`.
    Engine { peer: ClientId, request: EngineRequest },
    /// Tear the media session of `peer` down.
    DropPeer { peer: ClientId },
    /// Close the connection to the matchmaker and stop, for the given
    /// reason if it is an error.
    Stop(Option<SocketError>),
}

/// Mathematical value of a [`Command`].
pub enum CommandView {
    Signal(PeerMessageView),
    Pong(Seq<u8>),
    CreatePeer { peer: ClientId },
    Engine { peer: ClientId, request: EngineRequestView },
    DropPeer { peer: ClientId },
    Stop(Option<SocketError>),
}

impl View for Command {
    type V = CommandView;

    open spec fn view(&self) -> CommandView {
        match *self {
            Command::Signal(m) => CommandView::Signal(m@),
            Command::Pong(p) => CommandView::Pong(p@),
            Command::CreatePeer { peer } => CommandView::CreatePeer { peer },
            Command::Engine { peer, request } => CommandView::Engine { peer, request: request@ },
            Command::DropPeer { peer } => CommandView::DropPeer { peer },
            Command::Stop(e) => CommandView::Stop(e),
        }
    }
}

/// The values of a list of commands, in order.
pub open spec fn command_views(commands: Seq<Command>) -> Seq<CommandView> {
    commands.map_values(|c: Command| c@)
}

/// The values of a list of packets, in order.
pub open spec fn packet_views(packets: Seq<Packet>) -> Seq<PacketView> {
    packets.map_values(|p: Packet| p@)
}

/// The values of a list of drivers, in order.
pub open spec fn peer_views(peers: Seq<Peer>) -> Seq<PeerView> {
    peers.map_values(|p: Peer| p@)
}

/// Whether `peers` holds a driver for the remote peer `id`.
pub open spec fn knows(peers: Seq<PeerView>, id: ClientId) -> bool {
    exists|k: int| 0 <= k < peers.len() && (#[trigger] peers[k]).peer_id == id
}

/// Where in `peers` the driver for the remote peer `id` stands.
pub open spec fn position(peers: Seq<PeerView>, id: ClientId) -> int {
    choose|k: int| 0 <= k < peers.len() && (#[trigger] peers[k]).peer_id == id
}

/// The remote peers of `peers` that are ready, in the order of the drivers.
pub open spec fn ready_ids(peers: Seq<PeerView>) -> Seq<ClientId>
    decreases peers.len(),
{
    if peers.len() == 0 {
        Seq::empty()
    } else if peers.last().ready() {
        ready_ids(peers.drop_last()).push(peers.last().peer_id)
    } else {
        ready_ids(peers.drop_last())
    }
}

/// What sending the packets of `queue`, oldest first, asks for: the payload
/// of each packet for a known peer goes to that peer's media session, and a
/// packet for an unknown peer is dropped.
pub open spec fn outbound_commands(peers: Seq<PeerView>, queue: Seq<PacketView>) -> Seq<
    CommandView,
>
    decreases queue.len(),
{
    if queue.len() == 0 {
        Seq::empty()
    } else if knows(peers, queue.last().id) {
        outbound_commands(peers, queue.drop_last()).push(
            CommandView::Engine {
                peer: queue.last().id,
                request: EngineRequestView::Send(queue.last().payload),
            },
        )
    } else {
        outbound_commands(peers, queue.drop_last())
    }
}

/// Whether `peers` can be the drivers of the client `me`: each is a driver
/// of `me` for another client, no two are for the same, and none is closed.
pub open spec fn drivers_of(peers: Seq<PeerView>, me: ClientId) -> bool {
    &&& forall|k: int|
        0 <= k < peers.len() ==> (#[trigger] peers[k]).id == me && peers[k].peer_id != me
            && peers[k].state != PeerState::Closed
    &&& forall|a: int, b: int|
        0 <= a < peers.len() && 0 <= b < peers.len() && a != b ==> (#[trigger] peers[a]).peer_id
            != (#[trigger] peers[b]).peer_id
}

/// What a client needs to open the signaling connection.
pub struct ConnectRequest {
    pub url: String,
    pub user: String,
    pub password: Option<String>,
}

/// What the media session of a peer is built with.
pub struct PeerSetup<'a> {
    /// The ICE servers of the session.
    pub ice_servers: &'a Vec<IceServer>,
    /// The data channel that is opened on the session.
    pub channel: DataChannelInit,
}

/// Mathematical value of a [`WebRTCSocket`].
pub struct SocketView {
    /// The identity that the matchmaker gave this client.
    pub id: ClientId,
    /// The drivers, in the order in which the peers became known.
    pub peers: Seq<PeerView>,
    /// Packets that came in and were not handed to the application yet.
    pub in_data: Seq<PacketView>,
    /// Packets of the application that were not sent yet.
    pub out_data: Seq<PacketView>,
}

/// The client's transport.
pub struct WebRTCSocket {
    id: ClientId,
    rtc_config: RtcConfig,
    peers: Vec<Peer>,
    in_data: Vec<Packet>,
    out_data: Vec<Packet>,
}

impl View for WebRTCSocket {
    type V = SocketView;

    closed spec fn view(&self) -> SocketView {
        SocketView {
            id: self.id,
            peers: peer_views(self.peers@),
            in_data: packet_views(self.in_data@),
            out_data: packet_views(self.out_data@),
        }
    }
}

/// The position of the driver for `id` in `peers`.
pub(crate) fn find_peer(peers: &Vec<Peer>, id: ClientId) -> (r: Option<usize>)
    ensures
        r is Some <==> knows(peer_views(peers@), id),
        r is Some ==> r.unwrap() < peers@.len() && peers@[r.unwrap() as int]@.peer_id == id,
{
    let mut i: usize = 0;
    while i < peers.len()
        invariant
            i <= peers@.len(),
            forall|k: int| 0 <= k < i ==> (#[trigger] peer_views(peers@)[k]).peer_id != id,
        decreases peers@.len() - i,
    {
        if peers[i].peer_id() == id {
            assert(peer_views(peers@)[i as int].peer_id == id);
            return Some(i);
        }
        i += 1;
    }
    None
}

/// Among distinct drivers the one for `id` stands where it was found.
pub proof fn lemma_position(peers: Seq<PeerView>, id: ClientId, k: int)
    requires
        0 <= k < peers.len(),
        peers[k].peer_id == id,
        forall|a: int, b: int|
            0 <= a < peers.len() && 0 <= b < peers.len() && a != b ==> (#[trigger] peers[a]).peer_id
                != (#[trigger] peers[b]).peer_id,
    ensures
        knows(peers, id),
        position(peers, id) == k,
{
}

impl WebRTCSocket {
    #[verifier::type_invariant]
    spec fn well_formed(&self) -> bool {
        drivers_of(peer_views(self.peers@), self.id)
    }

    /// What is needed to open the signaling connection: the login URL, the
    /// user, and the password, which the configuration forgets.
    pub fn connect(rtc_config: &mut RtcConfig) -> (r: ConnectRequest)
        ensures
            r.url@ == ws_url(old(rtc_config).address@, old(rtc_config).port, "/ws/login"@),
            r.user@ == old(rtc_config).user@,
            r.password == old(rtc_config).password,
            final(rtc_config).password is None,
            final(rtc_config).address == old(rtc_config).address,
            final(rtc_config).port == old(rtc_config).port,
            final(rtc_config).user == old(rtc_config).user,
            final(rtc_config).ice_servers == old(rtc_config).ice_servers,
    {
        let password = rtc_config.take_password();
        ConnectRequest { url: rtc_config.login_url(), user: rtc_config.user.clone(), password }
    }

    /// The socket of a client whose connection delivered `first_frame`.
    ///
    /// The first frame must be text that spells the `Id` envelope; it gives
    /// the socket its identity. Text that spells anything else is a
    /// `ProtocolViolation`; no frame, or a frame that is no text, is
    /// `TransportClosed`.
    pub fn new(rtc_config: RtcConfig, first_frame: Option<Frame>) -> (r: Result<Self, SocketError>)
        ensures
            match first_frame {
                Some(Frame::Text(t)) => match decode_message(t@) {
                    Some(MessageView::Id(id)) => r is Ok && r->Ok_0@ == (SocketView {
                        id,
                        peers: Seq::empty(),
                        in_data: Seq::empty(),
                        out_data: Seq::empty(),
                    }) && r->Ok_0.config() == rtc_config,
                    _ => r is Err && r->Err_0 == SocketError::ProtocolViolation,
                },
                _ => r is Err && r->Err_0 == SocketError::TransportClosed,
            },
    {
        match first_frame {
            Some(Frame::Text(text)) => match Message::from_json(text.as_str()) {
                Some(Message::Id(id)) => {
                    let socket = WebRTCSocket {
                        id,
                        rtc_config,
                        peers: Vec::new(),
                        in_data: Vec::new(),
                        out_data: Vec::new(),
                    };
                    assert(socket@.peers =~= Seq::<PeerView>::empty());
                    assert(socket@.in_data =~= Seq::<PacketView>::empty());
                    assert(socket@.out_data =~= Seq::<PacketView>::empty());
                    Ok(socket)
                },
                _ => Err(SocketError::ProtocolViolation),
            },
            _ => Err(SocketError::TransportClosed),
        }
    }

    /// The configuration that the socket was made with.
    pub closed spec fn config(&self) -> RtcConfig {
        self.rtc_config
    }

    /// The configuration that the socket was made with.
    pub fn rtc_config(&self) -> (r: &RtcConfig)
        ensures
            *r == self.config(),
    {
        &self.rtc_config
    }

    /// What the media session of each peer is built with: the configured
    /// ICE servers, and one unreliable, unordered data channel.
    pub fn peer_setup(&self) -> (r: PeerSetup<'_>)
        ensures
            *r.ice_servers == self.config().ice_servers,
            r.channel.is_unreliable(),
    {
        PeerSetup { ice_servers: &self.rtc_config.ice_servers, channel: DataChannelInit::unreliable() }
    }

    /// The identity that the matchmaker gave this client.
    pub fn local_id(&self) -> (r: ClientId)
        ensures
            r == self@.id,
    {
        self.id
    }

    /// The user that the socket logged in as.
    pub fn user(&self) -> (r: &str)
        ensures
            r@ == self.config().user@,
    {
        self.rtc_config.user.as_str()
    }

    /// The remote peers that the socket has a driver for, in the order in
    /// which they became known. The drivers are those of this client: each
    /// for another client, no two for the same, none closed.
    pub fn peer_ids(&self) -> (r: Vec<ClientId>)
        ensures
            r@ == self@.peers.map_values(|p: PeerView| p.peer_id),
            drivers_of(self@.peers, self@.id),
    {
        proof {
            use_type_invariant(self);
        }
        let mut out: Vec<ClientId> = Vec::new();
        let mut i: usize = 0;
        while i < self.peers.len()
            invariant
                i <= self.peers@.len(),
                out@.len() == i,
                forall|k: int| 0 <= k < i ==> out@[k] == (#[trigger] self.peers@[k])@.peer_id,
            decreases self.peers@.len() - i,
        {
            out.push(self.peers[i].peer_id());
            i += 1;
        }
        assert(out@ =~= self@.peers.map_values(|p: PeerView| p.peer_id));
        out
    }

    /// The remote peers to which a data channel is open, in the order in
    /// which they became known.
    pub fn ready_peers(&self) -> (r: Vec<ClientId>)
        ensures
            r@ == ready_ids(self@.peers),
    {
        let ghost views = peer_views(self.peers@);
        let mut out: Vec<ClientId> = Vec::new();
        let mut i: usize = 0;
        while i < self.peers.len()
            invariant
                i <= self.peers@.len(),
                views == peer_views(self.peers@),
                out@ == ready_ids(views.take(i as int)),
            decreases self.peers@.len() - i,
        {
            proof {
                assert(views.take(i + 1).drop_last() =~= views.take(i as int));
            }
            if self.peers[i].ready() {
                out.push(self.peers[i].peer_id());
            }
            i += 1;
        }
        proof {
            assert(views.take(i as int) =~= views);
        }
        out
    }

    /// Queues a packet for sending. This never blocks and never fails; a
    /// packet that cannot be sent is lost without notice.
    pub fn send_data(&mut self, packet: Packet)
        ensures
            final(self)@ == (SocketView { out_data: old(self)@.out_data.push(packet@), ..old(self)@ }),
            final(self).config() == old(self).config(),
    {
        proof {
            use_type_invariant(&*self);
        }
        let mut queue: Vec<Packet> = Vec::new();
        core::mem::swap(&mut self.out_data, &mut queue);
        queue.push(packet);
        self.out_data = queue;
        assert(self@.out_data =~= old(self)@.out_data.push(packet@));
    }

    /// Hands out every packet that came in since the last call, oldest
    /// first; none when there was none.
    pub fn receive_data(&mut self) -> (r: Vec<Packet>)
        ensures
            packet_views(r@) == old(self)@.in_data,
            final(self)@ == (SocketView { in_data: Seq::empty(), ..old(self)@ }),
            final(self).config() == old(self).config(),
    {
        proof {
            use_type_invariant(&*self);
        }
        let mut queue: Vec<Packet> = Vec::new();
        core::mem::swap(&mut self.in_data, &mut queue);
        assert(self@.in_data =~= Seq::<PacketView>::empty());
        queue
    }

    /// Sends what the application queued, oldest packet first: see
    /// [`outbound_commands`]. The queue is empty afterwards.
    pub fn dispatch_outbound(&mut self) -> (r: Vec<Command>)
        ensures
            command_views(r@) == outbound_commands(old(self)@.peers, old(self)@.out_data),
            final(self)@ == (SocketView { out_data: Seq::empty(), ..old(self)@ }),
            final(self).config() == old(self).config(),
    {
        proof {
            use_type_invariant(&*self);
        }
        let mut queue: Vec<Packet> = Vec::new();
        core::mem::swap(&mut self.out_data, &mut queue);
        assert(self@.out_data =~= Seq::<PacketView>::empty());
        let ghost peers = peer_views(self.peers@);
        let ghost all = packet_views(queue@);
        let mut out: Vec<Command> = Vec::new();
        let mut i: usize = 0;
        while i < queue.len()
            invariant
                i <= queue@.len(),
                peers == peer_views(self.peers@),
                all == packet_views(queue@),
                command_views(out@) == outbound_commands(peers, all.take(i as int)),
            decreases queue@.len() - i,
        {
            proof {
                assert(all.take(i + 1).drop_last() =~= all.take(i as int));
                assert(all.take(i + 1).last() == queue@[i as int]@);
            }
            let ghost before = command_views(out@);
            let to = queue[i].id;
            if find_peer(&self.peers, to).is_some() {
                let payload = queue[i].payload.clone();
                out.push(Command::Engine { peer: to, request: EngineRequest::Send(payload) });
                assert(command_views(out@) =~= before.push(
                    CommandView::Engine { peer: to, request: EngineRequestView::Send(payload@) },
                ));
            }
            i += 1;
        }
        proof {
            assert(all.take(i as int) =~= all);
        }
        out
    }
}

/// The state of the driver for `id`, if there is one.
pub open spec fn state_of(peers: Seq<PeerView>, id: ClientId) -> Option<PeerState> {
    if knows(peers, id) {
        Some(peers[position(peers, id)].state)
    } else {
        None
    }
}

/// The drivers, the one for `id` in the given state.
pub open spec fn with_state(peers: Seq<PeerView>, id: ClientId, state: PeerState) -> Seq<
    PeerView,
> {
    if knows(peers, id) {
        peers.update(position(peers, id), peers[position(peers, id)].in_state(state))
    } else {
        peers
    }
}

/// The drivers and a new one of `me` for `id`, in the given state.
pub open spec fn with_new(peers: Seq<PeerView>, me: ClientId, id: ClientId, state: PeerState) -> Seq<
    PeerView,
> {
    peers.push(PeerView { id: me, peer_id: id, state })
}

/// The drivers without the one for `id`.
pub open spec fn without_peer(peers: Seq<PeerView>, id: ClientId) -> Seq<PeerView> {
    if knows(peers, id) {
        peers.remove(position(peers, id))
    } else {
        peers
    }
}

/// What handling something leaves and asks for.
pub struct Step {
    /// The drivers afterwards.
    pub peers: Seq<PeerView>,
    /// The commands, in order.
    pub commands: Seq<CommandView>,
}

/// Nothing changes and nothing is asked for.
pub open spec fn idle(peers: Seq<PeerView>) -> Step {
    Step { peers, commands: Seq::empty() }
}

/// The request `request` for the media session of `peer`.
pub open spec fn engine(peer: ClientId, request: EngineRequestView) -> CommandView {
    CommandView::Engine { peer, request }
}

/// A peer joined after this client: this client makes a driver for it and
/// offers. A driver that has negotiated already does not offer again.
pub open spec fn new_peer_step(peers: Seq<PeerView>, me: ClientId, id: ClientId) -> Step {
    if id == me {
        idle(peers)
    } else {
        match state_of(peers, id) {
            None => Step {
                peers: with_new(peers, me, id, PeerState::Offering),
                commands: seq![
                    CommandView::CreatePeer { peer: id },
                    engine(id, EngineRequestView::CreateOffer),
                ],
            },
            Some(PeerState::New) => Step {
                peers: with_state(peers, id, PeerState::Offering),
                commands: seq![engine(id, EngineRequestView::CreateOffer)],
            },
            Some(_) => idle(peers),
        }
    }
}

/// The snapshot of the peers that were there before this client: a driver
/// is made for each that has none, and nothing is offered.
pub open spec fn snapshot_step(peers: Seq<PeerView>, me: ClientId, ids: Seq<ClientId>) -> Step
    decreases ids.len(),
{
    if ids.len() == 0 {
        idle(peers)
    } else {
        let before = snapshot_step(peers, me, ids.drop_last());
        let id = ids.last();
        if id != me && !knows(before.peers, id) {
            Step {
                peers: with_new(before.peers, me, id, PeerState::New),
                commands: before.commands.push(CommandView::CreatePeer { peer: id }),
            }
        } else {
            before
        }
    }
}

/// An offer of the peer `id` came in: a driver is made if there is none,
/// and a driver that has not negotiated yet answers.
pub open spec fn offer_step(
    peers: Seq<PeerView>,
    me: ClientId,
    id: ClientId,
    offer: SessionDescriptionView,
) -> Step {
    if id == me {
        idle(peers)
    } else {
        match state_of(peers, id) {
            None => Step {
                peers: with_new(peers, me, id, PeerState::Answering),
                commands: seq![
                    CommandView::CreatePeer { peer: id },
                    engine(id, EngineRequestView::AcceptOffer(offer)),
                ],
            },
            Some(PeerState::New) => Step {
                peers: with_state(peers, id, PeerState::Answering),
                commands: seq![engine(id, EngineRequestView::AcceptOffer(offer))],
            },
            Some(_) => idle(peers),
        }
    }
}

/// An answer of the peer `id` came in: a driver that is offering applies it.
pub open spec fn answer_step(peers: Seq<PeerView>, id: ClientId, answer: SessionDescriptionView) -> Step {
    match state_of(peers, id) {
        Some(PeerState::Offering) => Step {
            peers: with_state(peers, id, PeerState::WaitingForIce),
            commands: seq![engine(id, EngineRequestView::ApplyAnswer(answer))],
        },
        _ => idle(peers),
    }
}

/// A candidate of the peer `id` came in: it goes to the driver if there is
/// one.
pub open spec fn candidate_step(peers: Seq<PeerView>, id: ClientId, candidate: Seq<char>) -> Step {
    if knows(peers, id) {
        Step { peers, commands: seq![engine(id, EngineRequestView::AddIceCandidate(candidate))] }
    } else {
        idle(peers)
    }
}

/// The peer `id` left: its driver is dropped.
pub open spec fn disconnected_step(peers: Seq<PeerView>, id: ClientId) -> Step {
    if knows(peers, id) {
        Step { peers: without_peer(peers, id), commands: seq![CommandView::DropPeer { peer: id }] }
    } else {
        idle(peers)
    }
}

/// What an envelope from the matchmaker leaves and asks for.
pub open spec fn message_step(peers: Seq<PeerView>, me: ClientId, m: MessageView) -> Step {
    match m {
        MessageView::Id(_) => idle(peers),
        MessageView::NewPeer { id } => new_peer_step(peers, me, id),
        MessageView::Peers(ids) => snapshot_step(peers, me, ids),
        MessageView::PeerDisconnected { id } => disconnected_step(peers, id),
        MessageView::Offer { id, offer } => offer_step(peers, me, id, offer),
        MessageView::Answer { id, answer } => answer_step(peers, id, answer),
        MessageView::IceCandidate { id, candidate } => candidate_step(peers, id, candidate),
    }
}

/// What a frame from the matchmaker leaves and asks for. Text must spell an
/// envelope; a ping is answered; a close frame stops the socket; binary
/// frames and fragments are not part of the protocol.
pub open spec fn frame_step(peers: Seq<PeerView>, me: ClientId, frame: FrameView) -> Step {
    match frame {
        FrameView::Text(t) => match decode_message(t) {
            Some(m) => message_step(peers, me, m),
            None => Step {
                peers,
                commands: seq![CommandView::Stop(Some(SocketError::ProtocolViolation))],
            },
        },
        FrameView::Ping(p) => Step { peers, commands: seq![CommandView::Pong(p)] },
        FrameView::Pong(_) => idle(peers),
        FrameView::Close(_) => Step { peers, commands: seq![CommandView::Stop(None)] },
        _ => Step { peers, commands: seq![CommandView::Stop(Some(SocketError::ProtocolViolation))] },
    }
}

/// What the media session of a peer reports.
#[derive(Debug, PartialEq, Eq)]
pub enum EngineEvent {
    /// The local description for an offer, or that there is none.
    OfferCreated(Result<SessionDescription, PeerError>),
    /// The answer to an offer, or that there is none.
    AnswerCreated(Result<SessionDescription, PeerError>),
    /// A local candidate, or that the gathering ended.
    IceCandidate(Option<String>),
    /// The engine did not take a candidate of the remote peer.
    IceCandidateRejected,
    /// A data channel opened.
    ChannelOpen,
    /// A payload came in on the remote peer's channel.
    Data(Vec<u8>),
    /// The engine could not apply a description.
    NegotiationFailed,
    ConnectionState(ConnectionState),
}

/// Mathematical value of an [`EngineEvent`].
pub enum EngineEventView {
    OfferCreated(Option<SessionDescriptionView>),
    AnswerCreated(Option<SessionDescriptionView>),
    IceCandidate(Option<Seq<char>>),
    IceCandidateRejected,
    ChannelOpen,
    Data(Seq<u8>),
    NegotiationFailed,
    ConnectionState(ConnectionState),
}

impl View for EngineEvent {
    type V = EngineEventView;

    open spec fn view(&self) -> EngineEventView {
        match *self {
            EngineEvent::OfferCreated(d) => EngineEventView::OfferCreated(outcome_view(d)),
            EngineEvent::AnswerCreated(d) => EngineEventView::AnswerCreated(outcome_view(d)),
            EngineEvent::IceCandidate(c) => EngineEventView::IceCandidate(text_view(c)),
            EngineEvent::IceCandidateRejected => EngineEventView::IceCandidateRejected,
            EngineEvent::ChannelOpen => EngineEventView::ChannelOpen,
            EngineEvent::Data(p) => EngineEventView::Data(p@),
            EngineEvent::NegotiationFailed => EngineEventView::NegotiationFailed,
            EngineEvent::ConnectionState(s) => EngineEventView::ConnectionState(s),
        }
    }
}

/// The driver of `peer` is dropped: that peer's negotiation failed.
pub open spec fn failed_step(peers: Seq<PeerView>, peer: ClientId) -> Step {
    Step { peers: without_peer(peers, peer), commands: seq![CommandView::DropPeer { peer }] }
}

/// What a report of the media session of `peer` leaves and asks for. A
/// report for a peer without a driver is passed over; a failed negotiation
/// drops the driver of that peer and no other.
pub open spec fn engine_step(peers: Seq<PeerView>, peer: ClientId, event: EngineEventView) -> Step {
    match state_of(peers, peer) {
        None => idle(peers),
        Some(state) => {
            let driver = peers[position(peers, peer)];
            match event {
                EngineEventView::OfferCreated(made) => if state != PeerState::Offering {
                    idle(peers)
                } else {
                    match made {
                        Some(offer) => Step {
                            peers,
                            commands: seq![CommandView::Signal(driver.offer_message(offer))],
                        },
                        None => failed_step(peers, peer),
                    }
                },
                EngineEventView::AnswerCreated(made) => if state != PeerState::Answering {
                    idle(peers)
                } else {
                    match made {
                        Some(answer) => Step {
                            peers: with_state(peers, peer, PeerState::WaitingForIce),
                            commands: seq![CommandView::Signal(driver.answer_message(answer))],
                        },
                        None => failed_step(peers, peer),
                    }
                },
                EngineEventView::IceCandidate(Some(candidate)) => Step {
                    peers,
                    commands: seq![CommandView::Signal(driver.candidate_message(candidate))],
                },
                EngineEventView::ChannelOpen => Step {
                    peers: with_state(peers, peer, PeerState::ChannelOpen),
                    commands: Seq::empty(),
                },
                EngineEventView::NegotiationFailed => failed_step(peers, peer),
                _ => idle(peers),
            }
        },
    }
}

/// The packets that a report of the media session of `peer` brings in.
pub open spec fn engine_packets(peers: Seq<PeerView>, peer: ClientId, event: EngineEventView) -> Seq<
    PacketView,
> {
    match event {
        EngineEventView::Data(payload) => if knows(peers, peer) {
            seq![PacketView { id: peer, payload }]
        } else {
            Seq::empty()
        },
        _ => Seq::empty(),
    }
}

fn add_peer(peers: &mut Vec<Peer>, me: ClientId, peer: Peer)
    requires
        drivers_of(peer_views(old(peers)@), me),
        peer@.id == me,
        peer@.peer_id != me,
        peer@.state != PeerState::Closed,
        !knows(peer_views(old(peers)@), peer@.peer_id),
    ensures
        drivers_of(peer_views(final(peers)@), me),
        peer_views(final(peers)@) == peer_views(old(peers)@).push(peer@),
{
    peers.push(peer);
    assert(peer_views(peers@) =~= peer_views(old(peers)@).push(peer@));
}

fn set_state(peers: &mut Vec<Peer>, me: ClientId, at: usize, peer: Peer)
    requires
        drivers_of(peer_views(old(peers)@), me),
        at < old(peers)@.len(),
        peer@.id == me,
        peer@.peer_id == old(peers)@[at as int]@.peer_id,
        peer@.state != PeerState::Closed,
    ensures
        drivers_of(peer_views(final(peers)@), me),
        peer_views(final(peers)@) == with_state(
            peer_views(old(peers)@),
            peer@.peer_id,
            peer@.state,
        ),
{
    let ghost before = peer_views(peers@);
    proof {
        lemma_position(before, peer@.peer_id, at as int);
    }
    peers.set(at, peer);
    assert(peer_views(peers@) =~= before.update(at as int, before[at as int].in_state(peer@.state)));
    assert forall|k: int| 0 <= k < peers@.len() implies (#[trigger] peer_views(peers@)[k]).peer_id
        == before[k].peer_id by {}
}

fn drop_peer(peers: &mut Vec<Peer>, me: ClientId, at: usize)
    requires
        drivers_of(peer_views(old(peers)@), me),
        at < old(peers)@.len(),
    ensures
        drivers_of(peer_views(final(peers)@), me),
        peer_views(final(peers)@) == without_peer(
            peer_views(old(peers)@),
            old(peers)@[at as int]@.peer_id,
        ),
        !knows(peer_views(final(peers)@), old(peers)@[at as int]@.peer_id),
{
    let ghost before = peer_views(peers@);
    let ghost id = peers@[at as int]@.peer_id;
    proof {
        lemma_position(before, id, at as int);
    }
    peers.remove(at);
    let ghost after = peer_views(peers@);
    assert(after =~= before.remove(at as int));
    assert forall|k: int| 0 <= k < after.len() implies (#[trigger] after[k]) == before[if k < at {
        k
    } else {
        k + 1
    }] by {}
    assert(drivers_of(after, me)) by {
        assert forall|a: int, b: int| 0 <= a < after.len() && 0 <= b < after.len() && a != b implies (
        #[trigger] after[a]).peer_id != (#[trigger] after[b]).peer_id by {
            let a2 = if a < at { a } else { a + 1 };
            let b2 = if b < at { b } else { b + 1 };
            assert(after[a] == before[a2] && after[b] == before[b2]);
        }
    }
    assert(!knows(after, id)) by {
        if knows(after, id) {
            let k = choose|k: int| 0 <= k < after.len() && (#[trigger] after[k]).peer_id == id;
            let k2 = if k < at { k } else { k + 1 };
            assert(before[k2].peer_id == id);
        }
    }
}

fn state_at(peers: &Vec<Peer>, me: ClientId, id: ClientId) -> (r: Option<(usize, Peer)>)
    requires
        drivers_of(peer_views(peers@), me),
    ensures
        r is Some <==> knows(peer_views(peers@), id),
        r is Some ==> r.unwrap().0 < peers@.len() && peers@[r.unwrap().0 as int] == r.unwrap().1
            && r.unwrap().1@.peer_id == id && r.unwrap().1@.id == me && r.unwrap().0 == position(
            peer_views(peers@),
            id,
        ) && state_of(peer_views(peers@), id) == Some(r.unwrap().1@.state) && r.unwrap().1@
            == peer_views(peers@)[position(peer_views(peers@), id)],
        r is None ==> state_of(peer_views(peers@), id) is None,
{
    match find_peer(peers, id) {
        Some(at) => {
            proof {
                lemma_position(peer_views(peers@), id, at as int);
                assert(peer_views(peers@)[at as int] == peers@[at as int]@);
            }
            Some((at, peers[at]))
        },
        None => None,
    }
}

fn new_peer_in(peers: &mut Vec<Peer>, me: ClientId, id: ClientId) -> (r: Vec<Command>)
    requires
        drivers_of(peer_views(old(peers)@), me),
    ensures
        drivers_of(peer_views(final(peers)@), me),
        peer_views(final(peers)@) == new_peer_step(peer_views(old(peers)@), me, id).peers,
        command_views(r@) == new_peer_step(peer_views(old(peers)@), me, id).commands,
{
    let mut out: Vec<Command> = Vec::new();
    if id != me {
        match state_at(peers, me, id) {
            None => {
                let mut peer = Peer::new(me, id);
                let request = peer.create_offer();
                add_peer(peers, me, peer);
                out.push(Command::CreatePeer { peer: id });
                out.push(Command::Engine { peer: id, request: request.unwrap() });
            },
            Some((at, found)) => {
                let mut peer = found;
                match peer.create_offer() {
                    Some(request) => {
                        set_state(peers, me, at, peer);
                        out.push(Command::Engine { peer: id, request });
                    },
                    None => {},
                }
            },
        }
    }
    assert(command_views(out@) =~= new_peer_step(peer_views(old(peers)@), me, id).commands);
    out
}

fn snapshot_in(peers: &mut Vec<Peer>, me: ClientId, ids: &Vec<ClientId>) -> (r: Vec<Command>)
    requires
        drivers_of(peer_views(old(peers)@), me),
    ensures
        drivers_of(peer_views(final(peers)@), me),
        peer_views(final(peers)@) == snapshot_step(peer_views(old(peers)@), me, ids@).peers,
        command_views(r@) == snapshot_step(peer_views(old(peers)@), me, ids@).commands,
{
    let ghost start = peer_views(peers@);
    let mut out: Vec<Command> = Vec::new();
    let mut i: usize = 0;
    assert(command_views(out@) =~= Seq::<CommandView>::empty());
    while i < ids.len()
        invariant
            i <= ids@.len(),
            drivers_of(peer_views(peers@), me),
            peer_views(peers@) == snapshot_step(start, me, ids@.take(i as int)).peers,
            command_views(out@) == snapshot_step(start, me, ids@.take(i as int)).commands,
        decreases ids@.len() - i,
    {
        proof {
            assert(ids@.take(i + 1).drop_last() =~= ids@.take(i as int));
        }
        let ghost before = command_views(out@);
        let id = ids[i];
        if id != me && find_peer(peers, id).is_none() {
            add_peer(peers, me, Peer::new(me, id));
            out.push(Command::CreatePeer { peer: id });
            assert(command_views(out@) =~= before.push(CommandView::CreatePeer { peer: id }));
        }
        i += 1;
    }
    proof {
        assert(ids@.take(i as int) =~= ids@);
    }
    out
}

fn offer_in(peers: &mut Vec<Peer>, me: ClientId, id: ClientId, offer: SessionDescription) -> (r: Vec<Command>)
    requires
        drivers_of(peer_views(old(peers)@), me),
    ensures
        drivers_of(peer_views(final(peers)@), me),
        peer_views(final(peers)@) == offer_step(peer_views(old(peers)@), me, id, offer@).peers,
        command_views(r@) == offer_step(peer_views(old(peers)@), me, id, offer@).commands,
{
    let mut out: Vec<Command> = Vec::new();
    if id != me {
        match state_at(peers, me, id) {
            None => {
                let mut peer = Peer::new(me, id);
                let request = peer.accept_offer(offer);
                add_peer(peers, me, peer);
                out.push(Command::CreatePeer { peer: id });
                out.push(Command::Engine { peer: id, request: request.unwrap() });
            },
            Some((at, found)) => {
                let mut peer = found;
                match peer.accept_offer(offer) {
                    Some(request) => {
                        set_state(peers, me, at, peer);
                        out.push(Command::Engine { peer: id, request });
                    },
                    None => {},
                }
            },
        }
    }
    assert(command_views(out@) =~= offer_step(peer_views(old(peers)@), me, id, offer@).commands);
    out
}

fn answer_in(peers: &mut Vec<Peer>, me: ClientId, id: ClientId, answer: SessionDescription) -> (r: Vec<Command>)
    requires
        drivers_of(peer_views(old(peers)@), me),
    ensures
        drivers_of(peer_views(final(peers)@), me),
        peer_views(final(peers)@) == answer_step(peer_views(old(peers)@), id, answer@).peers,
        command_views(r@) == answer_step(peer_views(old(peers)@), id, answer@).commands,
{
    let mut out: Vec<Command> = Vec::new();
    match state_at(peers, me, id) {
        None => {},
        Some((at, found)) => {
            let mut peer = found;
            match peer.handle_answer(answer) {
                Some(request) => {
                    set_state(peers, me, at, peer);
                    out.push(Command::Engine { peer: id, request });
                },
                None => {},
            }
        },
    }
    assert(command_views(out@) =~= answer_step(peer_views(old(peers)@), id, answer@).commands);
    out
}

fn candidate_in(peers: &Vec<Peer>, me: ClientId, id: ClientId, candidate: String) -> (r: Vec<Command>)
    requires
        drivers_of(peer_views(peers@), me),
    ensures
        command_views(r@) == candidate_step(peer_views(peers@), id, candidate@).commands,
{
    let mut out: Vec<Command> = Vec::new();
    match state_at(peers, me, id) {
        None => {},
        Some((at, peer)) => {
            assert(peer_views(peers@)[at as int].state != PeerState::Closed);
            match peer.apply_ice(candidate) {
                Some(request) => {
                    out.push(Command::Engine { peer: id, request });
                },
                None => {},
            }
        },
    }
    assert(command_views(out@) =~= candidate_step(peer_views(peers@), id, candidate@).commands);
    out
}

fn disconnected_in(peers: &mut Vec<Peer>, me: ClientId, id: ClientId) -> (r: Vec<Command>)
    requires
        drivers_of(peer_views(old(peers)@), me),
    ensures
        drivers_of(peer_views(final(peers)@), me),
        peer_views(final(peers)@) == disconnected_step(peer_views(old(peers)@), id).peers,
        command_views(r@) == disconnected_step(peer_views(old(peers)@), id).commands,
{
    let mut out: Vec<Command> = Vec::new();
    match state_at(peers, me, id) {
        None => {},
        Some((at, _)) => {
            drop_peer(peers, me, at);
            out.push(Command::DropPeer { peer: id });
        },
    }
    assert(command_views(out@) =~= disconnected_step(peer_views(old(peers)@), id).commands);
    out
}

fn message_in(peers: &mut Vec<Peer>, me: ClientId, m: Message) -> (r: Vec<Command>)
    requires
        drivers_of(peer_views(old(peers)@), me),
    ensures
        drivers_of(peer_views(final(peers)@), me),
        peer_views(final(peers)@) == message_step(peer_views(old(peers)@), me, m@).peers,
        command_views(r@) == message_step(peer_views(old(peers)@), me, m@).commands,
{
    match m {
        Message::Id(_) => {
            let out: Vec<Command> = Vec::new();
            assert(command_views(out@) =~= Seq::<CommandView>::empty());
            out
        },
        Message::NewPeer { id } => new_peer_in(peers, me, id),
        Message::Peers(ids) => snapshot_in(peers, me, &ids),
        Message::PeerDisconnected { id } => disconnected_in(peers, me, id),
        Message::Offer { id, offer } => offer_in(peers, me, id, offer),
        Message::Answer { id, answer } => answer_in(peers, me, id, answer),
        Message::IceCandidate { id, candidate } => candidate_in(peers, me, id, candidate),
    }
}

fn one(command: Command) -> (r: Vec<Command>)
    ensures
        command_views(r@) == seq![command@],
{
    let mut out: Vec<Command> = Vec::new();
    out.push(command);
    assert(command_views(out@) =~= seq![command@]);
    out
}

fn frame_in(peers: &mut Vec<Peer>, me: ClientId, frame: Frame) -> (r: Vec<Command>)
    requires
        drivers_of(peer_views(old(peers)@), me),
    ensures
        drivers_of(peer_views(final(peers)@), me),
        peer_views(final(peers)@) == frame_step(peer_views(old(peers)@), me, frame@).peers,
        command_views(r@) == frame_step(peer_views(old(peers)@), me, frame@).commands,
{
    match frame {
        Frame::Text(text) => match Message::from_json(text.as_str()) {
            Some(m) => message_in(peers, me, m),
            None => one(Command::Stop(Some(SocketError::ProtocolViolation))),
        },
        Frame::Ping(payload) => one(Command::Pong(payload)),
        Frame::Pong(_) => {
            let out: Vec<Command> = Vec::new();
            assert(command_views(out@) =~= Seq::<CommandView>::empty());
            out
        },
        Frame::Close(_) => one(Command::Stop(None)),
        _ => one(Command::Stop(Some(SocketError::ProtocolViolation))),
    }
}

fn engine_in(peers: &mut Vec<Peer>, me: ClientId, id: ClientId, event: EngineEvent) -> (r: (Vec<Command>, Option<Packet>))
    requires
        drivers_of(peer_views(old(peers)@), me),
    ensures
        drivers_of(peer_views(final(peers)@), me),
        peer_views(final(peers)@) == engine_step(peer_views(old(peers)@), id, event@).peers,
        command_views(r.0@) == engine_step(peer_views(old(peers)@), id, event@).commands,
        match r.1 {
            Some(p) => engine_packets(peer_views(old(peers)@), id, event@) == seq![p@],
            None => engine_packets(peer_views(old(peers)@), id, event@) == Seq::<
                PacketView,
            >::empty(),
        },
{
    let mut out: Vec<Command> = Vec::new();
    let mut packet: Option<Packet> = None;
    match state_at(peers, me, id) {
        None => {},
        Some((at, found)) => {
            let mut peer = found;
            assert(found@.state != PeerState::Closed);
            match event {
                EngineEvent::OfferCreated(made) => {
                    if peer.state() == PeerState::Offering {
                        match peer.handshake_offer(made) {
                            Ok(signal) => {
                                out.push(Command::Signal(signal));
                            },
                            Err(_) => {
                                drop_peer(peers, me, at);
                                out.push(Command::DropPeer { peer: id });
                            },
                        }
                    }
                },
                EngineEvent::AnswerCreated(made) => {
                    if peer.state() == PeerState::Answering {
                        match peer.handshake_accept(made) {
                            Ok(signal) => {
                                set_state(peers, me, at, peer);
                                out.push(Command::Signal(signal));
                            },
                            Err(_) => {
                                drop_peer(peers, me, at);
                                out.push(Command::DropPeer { peer: id });
                            },
                        }
                    }
                },
                EngineEvent::IceCandidate(candidate) => {
                    match peer.ice_candidate(candidate) {
                        Some(signal) => {
                            out.push(Command::Signal(signal));
                        },
                        None => {},
                    }
                },
                EngineEvent::ChannelOpen => {
                    peer.channel_opened();
                    set_state(peers, me, at, peer);
                },
                EngineEvent::Data(payload) => {
                    packet = Some(peer.received(payload));
                },
                EngineEvent::NegotiationFailed => {
                    drop_peer(peers, me, at);
                    out.push(Command::DropPeer { peer: id });
                },
                EngineEvent::IceCandidateRejected => {},
                EngineEvent::ConnectionState(state) => {
                    let _ = peer.connection_state_changed(state);
                },
            }
        },
    }
    assert(command_views(out@) =~= engine_step(peer_views(old(peers)@), id, event@).commands);
    (out, packet)
}

impl WebRTCSocket {
    /// Handles a frame from the matchmaker: see [`frame_step`].
    pub fn handle_frame(&mut self, frame: Frame) -> (r: Vec<Command>)
        ensures
            final(self)@ == (SocketView {
                peers: frame_step(old(self)@.peers, old(self)@.id, frame@).peers,
                ..old(self)@
            }),
            command_views(r@) == frame_step(old(self)@.peers, old(self)@.id, frame@).commands,
            final(self).config() == old(self).config(),
    {
        proof {
            use_type_invariant(&*self);
        }
        let mut peers: Vec<Peer> = Vec::new();
        core::mem::swap(&mut self.peers, &mut peers);
        let out = frame_in(&mut peers, self.id, frame);
        self.peers = peers;
        out
    }

    /// The connection to the matchmaker failed: the socket stops, giving
    /// `TransportClosed` as the reason.
    pub fn transport_failed(&self) -> (r: Vec<Command>)
        ensures
            command_views(r@) == seq![CommandView::Stop(Some(SocketError::TransportClosed))],
    {
        one(Command::Stop(Some(SocketError::TransportClosed)))
    }

    /// Handles an envelope from the matchmaker: see [`message_step`].
    pub fn handle_message(&mut self, message: Message) -> (r: Vec<Command>)
        ensures
            final(self)@ == (SocketView {
                peers: message_step(old(self)@.peers, old(self)@.id, message@).peers,
                ..old(self)@
            }),
            command_views(r@) == message_step(old(self)@.peers, old(self)@.id, message@).commands,
            final(self).config() == old(self).config(),
    {
        proof {
            use_type_invariant(&*self);
        }
        let mut peers: Vec<Peer> = Vec::new();
        core::mem::swap(&mut self.peers, &mut peers);
        let out = message_in(&mut peers, self.id, message);
        self.peers = peers;
        out
    }

    /// A peer joined after this client: see [`new_peer_step`].
    pub fn new_peer(&mut self, id: ClientId) -> (r: Vec<Command>)
        ensures
            final(self)@ == (SocketView {
                peers: new_peer_step(old(self)@.peers, old(self)@.id, id).peers,
                ..old(self)@
            }),
            command_views(r@) == new_peer_step(old(self)@.peers, old(self)@.id, id).commands,
            final(self).config() == old(self).config(),
    {
        self.handle_message(Message::NewPeer { id })
    }

    /// An offer of the peer `id` came in: see [`offer_step`].
    pub fn handle_offer(&mut self, id: ClientId, offer: SessionDescription) -> (r: Vec<Command>)
        ensures
            final(self)@ == (SocketView {
                peers: offer_step(old(self)@.peers, old(self)@.id, id, offer@).peers,
                ..old(self)@
            }),
            command_views(r@) == offer_step(old(self)@.peers, old(self)@.id, id, offer@).commands,
            final(self).config() == old(self).config(),
    {
        self.handle_message(Message::Offer { id, offer })
    }

    /// An answer of the peer `id` came in: see [`answer_step`].
    pub fn handle_answer(&mut self, id: ClientId, answer: SessionDescription) -> (r: Vec<Command>)
        ensures
            final(self)@ == (SocketView {
                peers: answer_step(old(self)@.peers, id, answer@).peers,
                ..old(self)@
            }),
            command_views(r@) == answer_step(old(self)@.peers, id, answer@).commands,
            final(self).config() == old(self).config(),
    {
        self.handle_message(Message::Answer { id, answer })
    }

    /// A candidate of the peer `id` came in: see [`candidate_step`].
    pub fn handle_ice_candidate(&mut self, id: ClientId, candidate: String) -> (r: Vec<Command>)
        ensures
            final(self)@ == old(self)@,
            command_views(r@) == candidate_step(old(self)@.peers, id, candidate@).commands,
            final(self).config() == old(self).config(),
    {
        self.handle_message(Message::IceCandidate { id, candidate })
    }

    /// Handles a report of the media session of `peer`: see [`engine_step`]
    /// and [`engine_packets`]. A payload that came in is queued for the
    /// application.
    pub fn handle_engine(&mut self, peer: ClientId, event: EngineEvent) -> (r: Vec<Command>)
        ensures
            final(self)@ == (SocketView {
                peers: engine_step(old(self)@.peers, peer, event@).peers,
                in_data: old(self)@.in_data + engine_packets(old(self)@.peers, peer, event@),
                ..old(self)@
            }),
            command_views(r@) == engine_step(old(self)@.peers, peer, event@).commands,
            final(self).config() == old(self).config(),
    {
        proof {
            use_type_invariant(&*self);
        }
        let mut peers: Vec<Peer> = Vec::new();
        core::mem::swap(&mut self.peers, &mut peers);
        let (out, packet) = engine_in(&mut peers, self.id, peer, event);
        self.peers = peers;
        match packet {
            Some(p) => {
                let mut queue: Vec<Packet> = Vec::new();
                core::mem::swap(&mut self.in_data, &mut queue);
                queue.push(p);
                self.in_data = queue;
                assert(self@.in_data =~= old(self)@.in_data + seq![p@]);
            },
            None => {
                assert(self@.in_data =~= old(self)@.in_data + Seq::<PacketView>::empty());
            },
        }
        out
    }
}

/// Whether `c` asks the media session of `peer` to start a negotiation as
/// the offering side.
pub open spec fn is_offer_to(c: CommandView, peer: ClientId) -> bool {
    c == engine(peer, EngineRequestView::CreateOffer)
}

/// The snapshot prompts no offer: all that it asks for is media sessions.
pub proof fn law_snapshot_offers_nothing(
    peers: Seq<PeerView>,
    me: ClientId,
    ids: Seq<ClientId>,
    k: int,
)
    requires
        0 <= k < snapshot_step(peers, me, ids).commands.len(),
    ensures
        snapshot_step(peers, me, ids).commands[k] is CreatePeer,
    decreases ids.len(),
{
    if ids.len() > 0 {
        let before = snapshot_step(peers, me, ids.drop_last());
        if k < before.commands.len() {
            law_snapshot_offers_nothing(peers, me, ids.drop_last(), k);
        }
    }
}

/// Only the announcement of a newcomer prompts an offer, to the newcomer,
/// and it prompts one offer at most.
pub proof fn law_offer_needs_new_peer(
    peers: Seq<PeerView>,
    me: ClientId,
    m: MessageView,
    k: int,
    peer: ClientId,
)
    requires
        0 <= k < message_step(peers, me, m).commands.len(),
        is_offer_to(message_step(peers, me, m).commands[k], peer),
    ensures
        m == (MessageView::NewPeer { id: peer }),
        peer != me,
        forall|j: int, other: ClientId|
            0 <= j < message_step(peers, me, m).commands.len() && #[trigger] is_offer_to(
                message_step(peers, me, m).commands[j],
                other,
            ) ==> j == k && other == peer,
{
    match m {
        MessageView::Peers(ids) => {
            law_snapshot_offers_nothing(peers, me, ids, k);
        },
        _ => {},
    }
}

/// Ready implies routable: a packet for a peer that is listed as ready is
/// not dropped by the socket; its payload goes to that peer's media session.
pub proof fn law_ready_is_routable(peers: Seq<PeerView>, peer: ClientId, payload: Seq<u8>)
    requires
        ready_ids(peers).contains(peer),
    ensures
        knows(peers, peer),
        outbound_commands(peers, seq![PacketView { id: peer, payload }]) == seq![
            CommandView::Engine { peer, request: EngineRequestView::Send(payload) },
        ],
{
    lemma_ready_is_known(peers, peer);
    let queue = seq![PacketView { id: peer, payload }];
    assert(queue.drop_last() =~= Seq::<PacketView>::empty());
    reveal_with_fuel(outbound_commands, 2);
    assert(outbound_commands(peers, queue) =~= seq![
        CommandView::Engine { peer, request: EngineRequestView::Send(payload) },
    ]);
}

/// A queued packet for a peer that has a driver is sent, whatever else is
/// queued: its payload is among what goes to the media sessions.
pub proof fn lemma_known_peer_is_sent(peers: Seq<PeerView>, queue: Seq<PacketView>, k: int)
    requires
        0 <= k < queue.len(),
        knows(peers, queue[k].id),
    ensures
        outbound_commands(peers, queue).contains(
            CommandView::Engine {
                peer: queue[k].id,
                request: EngineRequestView::Send(queue[k].payload),
            },
        ),
    decreases queue.len(),
{
    let sent = outbound_commands(peers, queue);
    let wanted = CommandView::Engine {
        peer: queue[k].id,
        request: EngineRequestView::Send(queue[k].payload),
    };
    if k == queue.len() - 1 {
        assert(sent[sent.len() - 1] == wanted);
    } else {
        let front = queue.drop_last();
        lemma_known_peer_is_sent(peers, front, k);
        let before = outbound_commands(peers, front);
        let at = choose|at: int| 0 <= at < before.len() && before[at] == wanted;
        assert(sent[at] == wanted);
    }
}

/// Ready implies routable, whatever else is queued: no packet for a peer
/// that is listed as ready is dropped by the socket.
pub proof fn law_ready_is_never_dropped(
    peers: Seq<PeerView>,
    peer: ClientId,
    queue: Seq<PacketView>,
    k: int,
)
    requires
        ready_ids(peers).contains(peer),
        0 <= k < queue.len(),
        queue[k].id == peer,
    ensures
        outbound_commands(peers, queue).contains(
            CommandView::Engine { peer, request: EngineRequestView::Send(queue[k].payload) },
        ),
{
    lemma_ready_is_known(peers, peer);
    lemma_known_peer_is_sent(peers, queue, k);
}

/// A peer that is listed as ready has a driver, and its data channel is open.
pub proof fn lemma_ready_is_known(peers: Seq<PeerView>, peer: ClientId)
    requires
        ready_ids(peers).contains(peer),
    ensures
        knows(peers, peer),
        exists|k: int| 0 <= k < peers.len() && (#[trigger] peers[k]).peer_id == peer && peers[k].ready(),
    decreases peers.len(),
{
    if peers.len() > 0 {
        let rest = peers.drop_last();
        if peers.last().ready() && peers.last().peer_id == peer {
            assert(peers[peers.len() - 1].peer_id == peer);
        } else {
            let ids = ready_ids(peers);
            let at = choose|at: int| 0 <= at < ids.len() && ids[at] == peer;
            if peers.last().ready() {
                assert(ready_ids(rest)[at] == peer);
            }
            assert(ready_ids(rest).contains(peer));
            lemma_ready_is_known(rest, peer);
            let k = choose|k: int|
                0 <= k < rest.len() && (#[trigger] rest[k]).peer_id == peer && rest[k].ready();
            assert(peers[k].peer_id == peer && peers[k].ready());
        }
    }
}

} // verus!
