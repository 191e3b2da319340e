use matchmaker::message::{Message, PeerMessage, SdpKind, SessionDescription};
use matchmaker::peer::{
    ConnectionState, DataChannelInit, EngineRequest, IceCandidateInit, Packet, Peer, PeerError, PeerState,
};

const ALICE: u128 = 0x67e55044_10b1_426f_9247_bb680e5fe0c8;
const BOB: u128 = 0x0f1e2d3c_4b5a_6978_8796_a5b4c3d2e1f0;

fn description(kind: SdpKind, sdp: &str) -> SessionDescription {
    SessionDescription::new(kind, sdp.to_string())
}

#[test]
fn data_channel_is_unreliable_and_unordered() {
    let channel = DataChannelInit::unreliable();
    assert_eq!(channel, DataChannelInit { label: "data".to_string(), ordered: false, max_retransmits: 0, id: 0 });
}

#[test]
fn a_new_driver_is_not_ready() {
    let driver = Peer::new(ALICE, BOB);
    assert_eq!(driver.id(), ALICE);
    assert_eq!(driver.peer_id(), BOB);
    assert_eq!(driver.state(), PeerState::New);
    assert!(!driver.ready());
}

#[test]
fn offering_side_goes_from_new_to_channel_open() {
    let mut driver = Peer::new(ALICE, BOB);
    assert_eq!(driver.create_offer(), Some(EngineRequest::CreateOffer));
    assert_eq!(driver.state(), PeerState::Offering);
    let signal = driver.handshake_offer(Ok(description(SdpKind::Offer, "offer-sdp")));
    assert_eq!(
        signal,
        Ok(PeerMessage { peer_id: BOB, content: Message::Offer { id: ALICE, offer: description(SdpKind::Offer, "offer-sdp") } })
    );
    assert_eq!(driver.state(), PeerState::Offering);
    assert_eq!(
        driver.handle_answer(description(SdpKind::Answer, "answer-sdp")),
        Some(EngineRequest::ApplyAnswer(description(SdpKind::Answer, "answer-sdp")))
    );
    assert_eq!(driver.state(), PeerState::WaitingForIce);
    assert!(!driver.ready());
    driver.channel_opened();
    assert_eq!(driver.state(), PeerState::ChannelOpen);
    assert!(driver.ready());
}

#[test]
fn answering_side_goes_from_new_to_channel_open() {
    let mut driver = Peer::new(BOB, ALICE);
    assert_eq!(
        driver.accept_offer(description(SdpKind::Offer, "offer-sdp")),
        Some(EngineRequest::AcceptOffer(description(SdpKind::Offer, "offer-sdp")))
    );
    assert_eq!(driver.state(), PeerState::Answering);
    let signal = driver.handshake_accept(Ok(description(SdpKind::Answer, "answer-sdp")));
    assert_eq!(
        signal,
        Ok(PeerMessage { peer_id: ALICE, content: Message::Answer { id: BOB, answer: description(SdpKind::Answer, "answer-sdp") } })
    );
    assert_eq!(driver.state(), PeerState::WaitingForIce);
    driver.channel_opened();
    assert!(driver.ready());
}

#[test]
fn a_driver_offers_once() {
    let mut driver = Peer::new(ALICE, BOB);
    assert_eq!(driver.create_offer(), Some(EngineRequest::CreateOffer));
    assert_eq!(driver.create_offer(), None);
    assert_eq!(driver.accept_offer(description(SdpKind::Offer, "late")), None);
    assert_eq!(driver.state(), PeerState::Offering);

    let mut answering = Peer::new(BOB, ALICE);
    answering.accept_offer(description(SdpKind::Offer, "o"));
    assert_eq!(answering.create_offer(), None);
    assert_eq!(answering.handle_answer(description(SdpKind::Answer, "a")), None);
    assert_eq!(answering.state(), PeerState::Answering);
}

#[test]
fn failed_negotiation_closes_the_driver() {
    let mut driver = Peer::new(ALICE, BOB);
    driver.create_offer();
    assert_eq!(driver.handshake_offer(Err(PeerError::NegotiationFailed)), Err(PeerError::NegotiationFailed));
    assert_eq!(driver.state(), PeerState::Closed);
    driver.channel_opened();
    assert_eq!(driver.state(), PeerState::Closed);
    assert!(!driver.ready());
    assert_eq!(driver.apply_ice("candidate:1".to_string()), None);

    let mut answering = Peer::new(BOB, ALICE);
    answering.accept_offer(description(SdpKind::Offer, "o"));
    assert_eq!(answering.handshake_accept(Err(PeerError::NegotiationFailed)), Err(PeerError::NegotiationFailed));
    assert_eq!(answering.state(), PeerState::Closed);

    let mut waiting = Peer::new(ALICE, BOB);
    waiting.create_offer();
    waiting.handle_answer(description(SdpKind::Answer, "a"));
    assert_eq!(waiting.negotiation_failed(), PeerError::NegotiationFailed);
    assert_eq!(waiting.state(), PeerState::Closed);
}

#[test]
fn a_description_that_was_not_asked_for_changes_nothing() {
    let mut driver = Peer::new(ALICE, BOB);
    assert_eq!(driver.handshake_offer(Ok(description(SdpKind::Offer, "o"))), Err(PeerError::NotNegotiating));
    assert_eq!(driver.handshake_accept(Ok(description(SdpKind::Answer, "a"))), Err(PeerError::NotNegotiating));
    assert_eq!(driver.handshake_offer(Err(PeerError::NegotiationFailed)), Err(PeerError::NotNegotiating));
    assert_eq!(driver.state(), PeerState::New);
}

#[test]
fn candidates_trickle_one_envelope_each() {
    let driver = Peer::new(ALICE, BOB);
    assert_eq!(
        driver.ice_candidate(Some("candidate:1".to_string())),
        Some(PeerMessage { peer_id: BOB, content: Message::IceCandidate { id: ALICE, candidate: "candidate:1".to_string() } })
    );
    assert_eq!(driver.ice_candidate(None), None);
    assert_eq!(
        driver.apply_ice("candidate:2".to_string()),
        Some(EngineRequest::AddIceCandidate(IceCandidateInit {
            candidate: "candidate:2".to_string(),
            sdp_mid: None,
            sdp_mline_index: None,
            username_fragment: None,
        }))
    );
}

#[test]
fn failed_connection_is_noted_and_the_driver_stays() {
    let mut driver = Peer::new(ALICE, BOB);
    driver.create_offer();
    assert!(driver.connection_state_changed(ConnectionState::Failed));
    assert!(!driver.connection_state_changed(ConnectionState::Connected));
    assert!(!driver.connection_state_changed(ConnectionState::Disconnected));
    assert_eq!(driver.state(), PeerState::Offering);
}

#[test]
fn payloads_are_wrapped_with_the_remote_peer() {
    let driver = Peer::new(ALICE, BOB);
    assert_eq!(driver.send(vec![1, 2, 3]), EngineRequest::Send(vec![1, 2, 3]));
    assert_eq!(driver.received(vec![4, 5]), Packet { id: BOB, payload: vec![4, 5] });
    assert_eq!(Packet::new(BOB, vec![4, 5]), Packet { id: BOB, payload: vec![4, 5] });
}

#[test]
fn closing_a_driver_ends_readiness() {
    let mut driver = Peer::new(ALICE, BOB);
    driver.channel_opened();
    assert!(driver.ready());
    driver.close();
    assert_eq!(driver.state(), PeerState::Closed);
    assert!(!driver.ready());
}
