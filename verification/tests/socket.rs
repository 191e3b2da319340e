use matchmaker::frame::Frame;
use matchmaker::message::{Message, PeerMessage, SdpKind, SessionDescription};
use matchmaker::moderator::{Connect, Delivery, Disconnect, Moderator};
use matchmaker::peer::{ConnectionState, EngineRequest, IceCandidateInit, Packet, PeerError};
use matchmaker::rtc_config::{RtcConfig, RtcConfigBuilder};
use matchmaker::socket::{Command, EngineEvent, SocketError, WebRTCSocket};

const ALICE: u128 = 0x67e55044_10b1_426f_9247_bb680e5fe0c8;
const BOB: u128 = 0x0f1e2d3c_4b5a_6978_8796_a5b4c3d2e1f0;
const CAROL: u128 = 0xa1a2a3a4_b1b2_c1c2_d1d2_d3d4d5d6d7d8;

fn socket(id: u128) -> WebRTCSocket {
    WebRTCSocket::new(RtcConfig::default(), Some(Frame::Text(Message::Id(id).to_json()))).ok().unwrap()
}

fn description(kind: SdpKind, sdp: &str) -> SessionDescription {
    SessionDescription::new(kind, sdp.to_string())
}

fn engine(peer: u128, request: EngineRequest) -> Command {
    Command::Engine { peer, request }
}

/// Plays the media engines of a mesh: every request of a socket is answered
/// as an engine would answer it, and every signal goes through the registry.
struct Mesh {
    registry: Moderator,
    sockets: Vec<WebRTCSocket>,
    offers: usize,
}

impl Mesh {
    fn new() -> Self {
        Mesh { registry: Moderator::new(), sockets: Vec::new(), offers: 0 }
    }

    fn at(&mut self, id: u128) -> Option<&mut WebRTCSocket> {
        self.sockets.iter_mut().find(|s| s.local_id() == id)
    }

    fn join(&mut self, id: u128) {
        self.sockets.push(socket(id));
        let sent = self.registry.connect(Connect { id }).unwrap();
        self.deliver(sent);
    }

    fn leave(&mut self, id: u128) {
        self.sockets.retain(|s| s.local_id() != id);
        let sent = self.registry.disconnect(Disconnect { id });
        self.deliver(sent);
    }

    fn deliver(&mut self, deliveries: Vec<Delivery>) {
        for delivery in deliveries {
            assert_ne!(delivery.envelope.sender(), Some(delivery.to));
            let text = delivery.envelope.to_json();
            let to = delivery.to;
            let commands = match self.at(to) {
                Some(s) => s.handle_frame(Frame::Text(text)),
                None => Vec::new(),
            };
            self.perform(to, commands);
        }
    }

    fn report(&mut self, at: u128, peer: u128, event: EngineEvent) {
        let commands = match self.at(at) {
            Some(s) => s.handle_engine(peer, event),
            None => Vec::new(),
        };
        self.perform(at, commands);
    }

    fn perform(&mut self, at: u128, commands: Vec<Command>) {
        for command in commands {
            match command {
                Command::Signal(message) => {
                    let text = message.to_json();
                    let read = PeerMessage::from_json(&text).unwrap();
                    let sent = self.registry.route(at, read);
                    self.deliver(sent);
                }
                Command::Engine { peer, request } => match request {
                    EngineRequest::CreateOffer => {
                        self.offers += 1;
                        let sdp = format!("offer of {} for {}", at, peer);
                        self.report(at, peer, EngineEvent::OfferCreated(Ok(description(SdpKind::Offer, &sdp))));
                        self.report(at, peer, EngineEvent::IceCandidate(Some(format!("candidate of {}", at))));
                    }
                    EngineRequest::AcceptOffer(offer) => {
                        assert_eq!(offer.sdp, format!("offer of {} for {}", peer, at));
                        let sdp = format!("answer of {} for {}", at, peer);
                        self.report(at, peer, EngineEvent::AnswerCreated(Ok(description(SdpKind::Answer, &sdp))));
                        self.report(at, peer, EngineEvent::IceCandidate(Some(format!("candidate of {}", at))));
                        self.report(at, peer, EngineEvent::IceCandidate(None));
                    }
                    EngineRequest::ApplyAnswer(answer) => {
                        assert_eq!(answer.sdp, format!("answer of {} for {}", peer, at));
                        self.report(at, peer, EngineEvent::ChannelOpen);
                        self.report(peer, at, EngineEvent::ChannelOpen);
                    }
                    EngineRequest::AddIceCandidate(init) => {
                        assert_eq!(init.candidate, format!("candidate of {}", peer));
                        assert_eq!(init.sdp_mid, None);
                        assert_eq!(init.sdp_mline_index, None);
                    }
                    EngineRequest::Send(payload) => {
                        self.report(peer, at, EngineEvent::Data(payload));
                    }
                },
                Command::CreatePeer { .. } | Command::DropPeer { .. } => {}
                Command::Pong(_) | Command::Stop(_) => panic!("no frame asks for this"),
            }
        }
    }

    fn ready(&mut self, id: u128) -> Vec<u128> {
        let mut ready = self.at(id).unwrap().ready_peers();
        ready.sort();
        ready
    }

    fn send(&mut self, from: u128, to: u128, payload: Vec<u8>) {
        let commands = {
            let s = self.at(from).unwrap();
            s.send_data(Packet::new(to, payload));
            s.dispatch_outbound()
        };
        self.perform(from, commands);
    }
}

fn sorted(mut ids: Vec<u128>) -> Vec<u128> {
    ids.sort();
    ids
}

#[test]
fn first_frame_must_spell_the_id() {
    let made = WebRTCSocket::new(RtcConfig::default(), Some(Frame::Text("{\"Id\":\"67e55044-10b1-426f-9247-bb680e5fe0c8\"}".to_string())));
    assert_eq!(made.ok().map(|s| s.local_id()), Some(ALICE));
    let other = WebRTCSocket::new(RtcConfig::default(), Some(Frame::Text(Message::NewPeer { id: ALICE }.to_json())));
    assert_eq!(other.err(), Some(SocketError::ProtocolViolation));
    let garbage = WebRTCSocket::new(RtcConfig::default(), Some(Frame::Text("hello".to_string())));
    assert_eq!(garbage.err(), Some(SocketError::ProtocolViolation));
    let nothing = WebRTCSocket::new(RtcConfig::default(), None);
    assert_eq!(nothing.err(), Some(SocketError::TransportClosed));
    let binary = WebRTCSocket::new(RtcConfig::default(), Some(Frame::Binary(vec![1])));
    assert_eq!(binary.err(), Some(SocketError::TransportClosed));
    let ping = WebRTCSocket::new(RtcConfig::default(), Some(Frame::Ping(vec![])));
    assert_eq!(ping.err(), Some(SocketError::TransportClosed));
}

#[test]
fn connect_asks_for_the_login_url_and_takes_the_password() {
    let mut config = RtcConfigBuilder::new().address("127.0.0.1").port(3657).user("bob").password("bob").build();
    let request = WebRTCSocket::connect(&mut config);
    assert_eq!(request.url, "ws://127.0.0.1:3657/ws/login");
    assert_eq!(request.user, "bob");
    assert_eq!(request.password, Some("bob".to_string()));
    assert_eq!(config.password, None);
    let again = WebRTCSocket::connect(&mut config);
    assert_eq!(again.password, None);
    let made = WebRTCSocket::new(config, Some(Frame::Text(Message::Id(BOB).to_json()))).ok().unwrap();
    assert_eq!(made.user(), "bob");
    assert_eq!(made.rtc_config().port, 3657);
}

#[test]
fn newcomer_announcement_makes_the_existing_peer_offer() {
    let mut alice = socket(ALICE);
    let commands = alice.handle_frame(Frame::Text(Message::NewPeer { id: BOB }.to_json()));
    assert_eq!(commands, vec![Command::CreatePeer { peer: BOB }, engine(BOB, EngineRequest::CreateOffer)]);
    assert_eq!(alice.peer_ids(), vec![BOB]);
    assert!(alice.ready_peers().is_empty());
    assert!(alice.new_peer(BOB).is_empty());
    assert!(alice.new_peer(ALICE).is_empty());
    assert_eq!(alice.peer_ids(), vec![BOB]);
}

#[test]
fn snapshot_makes_drivers_and_offers_nothing() {
    let mut carol = socket(CAROL);
    let commands = carol.handle_message(Message::Peers(vec![ALICE, BOB, CAROL, ALICE]));
    assert_eq!(commands, vec![Command::CreatePeer { peer: ALICE }, Command::CreatePeer { peer: BOB }]);
    assert_eq!(carol.peer_ids(), vec![ALICE, BOB]);
    assert!(carol.handle_message(Message::Peers(vec![])).is_empty());
    let offer = description(SdpKind::Offer, "o");
    assert_eq!(carol.handle_offer(ALICE, offer.clone()), vec![engine(ALICE, EngineRequest::AcceptOffer(offer))]);
}

#[test]
fn offer_of_an_unknown_peer_makes_its_driver() {
    let mut bob = socket(BOB);
    let offer = description(SdpKind::Offer, "o");
    let commands = bob.handle_offer(ALICE, offer.clone());
    assert_eq!(commands, vec![Command::CreatePeer { peer: ALICE }, engine(ALICE, EngineRequest::AcceptOffer(offer.clone()))]);
    assert!(bob.handle_offer(ALICE, offer.clone()).is_empty());
    assert!(bob.handle_offer(BOB, offer).is_empty());
    assert_eq!(bob.peer_ids(), vec![ALICE]);
}

#[test]
fn answers_and_candidates_of_unknown_peers_are_dropped() {
    let mut alice = socket(ALICE);
    assert!(alice.handle_answer(BOB, description(SdpKind::Answer, "a")).is_empty());
    assert!(alice.handle_ice_candidate(BOB, "candidate:1".to_string()).is_empty());
    assert!(alice.handle_engine(BOB, EngineEvent::ChannelOpen).is_empty());
    assert!(alice.handle_engine(BOB, EngineEvent::Data(vec![1])).is_empty());
    assert!(alice.handle_message(Message::PeerDisconnected { id: BOB }).is_empty());
    assert!(alice.handle_message(Message::Id(ALICE)).is_empty());
    assert!(alice.receive_data().is_empty());
    assert!(alice.peer_ids().is_empty());
}

#[test]
fn candidate_of_a_known_peer_goes_to_its_media_session() {
    let mut alice = socket(ALICE);
    alice.new_peer(BOB);
    let commands = alice.handle_frame(Frame::Text(Message::IceCandidate { id: BOB, candidate: "candidate:7".to_string() }.to_json()));
    assert_eq!(
        commands,
        vec![engine(
            BOB,
            EngineRequest::AddIceCandidate(IceCandidateInit {
                candidate: "candidate:7".to_string(),
                sdp_mid: None,
                sdp_mline_index: None,
                username_fragment: None,
            })
        )]
    );
    assert!(alice.handle_engine(BOB, EngineEvent::IceCandidateRejected).is_empty());
    assert!(alice.handle_engine(BOB, EngineEvent::ConnectionState(ConnectionState::Failed)).is_empty());
    assert_eq!(alice.peer_ids(), vec![BOB]);
}

#[test]
fn frames_other_than_envelopes() {
    let mut alice = socket(ALICE);
    assert_eq!(alice.handle_frame(Frame::Ping(vec![1, 2])), vec![Command::Pong(vec![1, 2])]);
    assert!(alice.handle_frame(Frame::Pong(vec![])).is_empty());
    assert_eq!(alice.handle_frame(Frame::Close(None)), vec![Command::Stop(None)]);
    assert_eq!(alice.handle_frame(Frame::Binary(vec![1])), vec![Command::Stop(Some(SocketError::ProtocolViolation))]);
    assert_eq!(alice.handle_frame(Frame::Continuation), vec![Command::Stop(Some(SocketError::ProtocolViolation))]);
    assert_eq!(alice.handle_frame(Frame::Text("{}".to_string())), vec![Command::Stop(Some(SocketError::ProtocolViolation))]);
}

#[test]
fn failed_negotiation_removes_that_peer_only() {
    let mut alice = socket(ALICE);
    alice.new_peer(BOB);
    alice.new_peer(CAROL);
    let commands = alice.handle_engine(BOB, EngineEvent::OfferCreated(Err(PeerError::NegotiationFailed)));
    assert_eq!(commands, vec![Command::DropPeer { peer: BOB }]);
    assert_eq!(alice.peer_ids(), vec![CAROL]);
    let commands = alice.handle_engine(CAROL, EngineEvent::OfferCreated(Ok(description(SdpKind::Offer, "o"))));
    assert_eq!(
        commands,
        vec![Command::Signal(PeerMessage { peer_id: CAROL, content: Message::Offer { id: ALICE, offer: description(SdpKind::Offer, "o") } })]
    );
    alice.handle_answer(CAROL, description(SdpKind::Answer, "a"));
    assert_eq!(alice.handle_engine(CAROL, EngineEvent::NegotiationFailed), vec![Command::DropPeer { peer: CAROL }]);
    assert!(alice.peer_ids().is_empty());
}

#[test]
fn packets_for_unknown_peers_are_dropped_silently() {
    let mut alice = socket(ALICE);
    alice.new_peer(BOB);
    alice.send_data(Packet::new(CAROL, vec![1]));
    alice.send_data(Packet::new(BOB, vec![2]));
    alice.send_data(Packet::new(CAROL, vec![3]));
    alice.send_data(Packet::new(BOB, vec![4]));
    let commands = alice.dispatch_outbound();
    assert_eq!(commands, vec![engine(BOB, EngineRequest::Send(vec![2])), engine(BOB, EngineRequest::Send(vec![4]))]);
    assert!(alice.dispatch_outbound().is_empty());
}

#[test]
fn received_packets_are_drained_in_order() {
    let mut alice = socket(ALICE);
    alice.new_peer(BOB);
    alice.new_peer(CAROL);
    assert!(alice.receive_data().is_empty());
    alice.handle_engine(BOB, EngineEvent::Data(vec![1]));
    alice.handle_engine(CAROL, EngineEvent::Data(vec![2]));
    alice.handle_engine(BOB, EngineEvent::Data(vec![]));
    assert_eq!(
        alice.receive_data(),
        vec![Packet::new(BOB, vec![1]), Packet::new(CAROL, vec![2]), Packet::new(BOB, vec![])]
    );
    assert!(alice.receive_data().is_empty());
}

#[test]
fn ready_peer_is_routable() {
    let mut alice = socket(ALICE);
    alice.new_peer(BOB);
    alice.new_peer(CAROL);
    alice.handle_engine(CAROL, EngineEvent::ChannelOpen);
    assert_eq!(alice.ready_peers(), vec![CAROL]);
    for peer in alice.ready_peers() {
        alice.send_data(Packet::new(peer, vec![9; 12]));
        assert_eq!(alice.dispatch_outbound(), vec![engine(peer, EngineRequest::Send(vec![9; 12]))]);
    }
}

#[test]
fn ws() {
    let mut mesh = Mesh::new();
    mesh.join(ALICE);
    assert!(mesh.ready(ALICE).is_empty());
    mesh.join(BOB);
    assert_eq!(mesh.offers, 1);
    assert_eq!(mesh.ready(ALICE), vec![BOB]);
    assert_eq!(mesh.ready(BOB), vec![ALICE]);
    let payload = vec![1u8, 2, 3, 4, 5, 6, 7, 8, 9, 10, 11, 12];
    mesh.send(ALICE, BOB, payload.clone());
    assert_eq!(mesh.at(BOB).unwrap().receive_data(), vec![Packet::new(ALICE, payload)]);
    assert!(mesh.at(ALICE).unwrap().receive_data().is_empty());
}

#[test]
fn three_peer_mesh_negotiates_three_pairs() {
    let mut mesh = Mesh::new();
    mesh.join(ALICE);
    mesh.join(BOB);
    mesh.join(CAROL);
    assert_eq!(mesh.offers, 3);
    assert_eq!(mesh.ready(ALICE), sorted(vec![BOB, CAROL]));
    assert_eq!(mesh.ready(BOB), sorted(vec![ALICE, CAROL]));
    assert_eq!(mesh.ready(CAROL), sorted(vec![ALICE, BOB]));
}

#[test]
fn leaving_peer_is_evicted_and_the_others_stay_connected() {
    let mut mesh = Mesh::new();
    mesh.join(ALICE);
    mesh.join(BOB);
    mesh.join(CAROL);
    mesh.leave(BOB);
    assert_eq!(mesh.registry.clients(), vec![ALICE, CAROL]);
    assert_eq!(mesh.ready(ALICE), vec![CAROL]);
    assert_eq!(mesh.ready(CAROL), vec![ALICE]);
    assert_eq!(mesh.at(ALICE).unwrap().peer_ids(), vec![CAROL]);
    mesh.send(ALICE, CAROL, vec![42]);
    assert_eq!(mesh.at(CAROL).unwrap().receive_data(), vec![Packet::new(ALICE, vec![42])]);
    mesh.send(ALICE, BOB, vec![43]);
    assert!(mesh.at(CAROL).unwrap().receive_data().is_empty());
    mesh.join(BOB);
    assert_eq!(mesh.ready(BOB), sorted(vec![ALICE, CAROL]));
    assert_eq!(mesh.ready(ALICE), sorted(vec![BOB, CAROL]));
}

#[test]
fn failed_transport_stops_the_socket() {
    let alice = socket(ALICE);
    assert_eq!(alice.transport_failed(), vec![Command::Stop(Some(SocketError::TransportClosed))]);
    let setup = alice.peer_setup();
    assert_eq!(setup.ice_servers.len(), 1);
    assert_eq!(setup.ice_servers[0].urls, vec!["stun:stun.stunprotocol.org:3478".to_string()]);
    assert_eq!(setup.channel.label, "data");
    assert!(!setup.channel.ordered);
    assert_eq!(setup.channel.max_retransmits, 0);
    assert_eq!(setup.channel.id, 0);
}
