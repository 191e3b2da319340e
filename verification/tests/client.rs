use matchmaker::client::{Action, SessionState, WsClient, CLIENT_TIMEOUT, HEARTBEAT_INTERVAL};
use matchmaker::frame::{CloseReason, Frame};
use matchmaker::message::{Message, PeerMessage, SdpKind, SessionDescription};
use matchmaker::moderator::{Connect, Disconnect, Error, Moderator};

const ALICE: u128 = 0x67e55044_10b1_426f_9247_bb680e5fe0c8;
const BOB: u128 = 0x0f1e2d3c_4b5a_6978_8796_a5b4c3d2e1f0;

fn registered(id: u128, now: u64) -> WsClient {
    let mut endpoint = WsClient::new(id, now);
    endpoint.started(now);
    endpoint.connect_result(Ok(()));
    endpoint
}

fn offer_to(peer: u128) -> PeerMessage {
    PeerMessage {
        peer_id: peer,
        content: Message::Offer { id: ALICE, offer: SessionDescription::new(SdpKind::Offer, "v=0".to_string()) },
    }
}

#[test]
fn first_text_frame_is_the_id_of_the_session() {
    let mut endpoint = WsClient::new(ALICE, 0);
    assert_eq!(endpoint.state(), SessionState::Connecting);
    let mut actions = endpoint.started(7);
    assert_eq!(actions, vec![Action::Text(Message::Id(ALICE)), Action::Connect(Connect { id: ALICE })]);
    assert_eq!(endpoint.state(), SessionState::Authenticated);
    assert_eq!(endpoint.last_heartbeat(), 7);
    let first = actions.remove(0).into_frame();
    assert_eq!(first, Some(Frame::Text("{\"Id\":\"67e55044-10b1-426f-9247-bb680e5fe0c8\"}".to_string())));
    match first {
        Some(Frame::Text(text)) => assert_eq!(Message::from_json(&text), Some(Message::Id(ALICE))),
        _ => panic!("the first frame is text"),
    }
    assert_eq!(actions.remove(0).into_frame(), None);
    assert!(endpoint.started(9).is_empty());
}

#[test]
fn client_ping_pong() {
    let mut endpoint = registered(ALICE, 0);
    let actions = endpoint.handle_frame(Frame::Ping(vec![]), 100);
    assert_eq!(actions, vec![Action::Pong(vec![])]);
    assert_eq!(endpoint.last_heartbeat(), 100);
    let actions = endpoint.handle_frame(Frame::Ping(vec![1, 2, 3]), 200);
    assert_eq!(actions, vec![Action::Pong(vec![1, 2, 3])]);
    assert_eq!(Action::Pong(vec![1, 2, 3]).into_frame(), Some(Frame::Pong(vec![1, 2, 3])));
    let actions = endpoint.handle_frame(Frame::Pong(vec![9]), 300);
    assert!(actions.is_empty());
    assert_eq!(endpoint.last_heartbeat(), 300);
}

#[test]
fn heartbeat_pings_until_the_client_is_silent_for_more_than_the_timeout() {
    assert_eq!(HEARTBEAT_INTERVAL, 5000);
    assert_eq!(CLIENT_TIMEOUT, 10000);
    let mut endpoint = registered(ALICE, 1000);
    assert_eq!(endpoint.heartbeat(6000), vec![Action::Ping(vec![])]);
    assert_eq!(endpoint.heartbeat(11000), vec![Action::Ping(vec![])]);
    assert_eq!(endpoint.state(), SessionState::Registered);
    assert_eq!(endpoint.heartbeat(11001), vec![Action::Stop]);
    assert_eq!(endpoint.state(), SessionState::Closing);
    assert!(endpoint.heartbeat(16000).is_empty());
}

#[test]
fn a_sign_of_life_puts_the_timeout_off() {
    let mut endpoint = registered(ALICE, 0);
    endpoint.handle_frame(Frame::Pong(vec![]), 9000);
    assert_eq!(endpoint.heartbeat(15000), vec![Action::Ping(vec![])]);
    endpoint.handle_frame(Frame::Text(offer_to(BOB).to_json()), 18000);
    assert_eq!(endpoint.heartbeat(28000), vec![Action::Ping(vec![])]);
    endpoint.handle_frame(Frame::Binary(vec![1]), 28000);
    assert_eq!(endpoint.last_heartbeat(), 18000);
    assert_eq!(endpoint.heartbeat(28001), vec![Action::Stop]);
}

#[test]
fn heartbeat_before_the_clock_of_the_last_frame_is_no_timeout() {
    let mut endpoint = registered(ALICE, 50_000);
    assert_eq!(endpoint.heartbeat(10), vec![Action::Ping(vec![])]);
    assert_eq!(endpoint.heartbeat(u64::MAX), vec![Action::Stop]);
}

#[test]
fn text_that_spells_an_addressed_envelope_is_handed_to_the_registry() {
    let mut endpoint = registered(ALICE, 0);
    let actions = endpoint.handle_frame(Frame::Text(offer_to(BOB).to_json()), 5);
    assert_eq!(actions, vec![Action::Route(offer_to(BOB))]);
    assert_eq!(endpoint.state(), SessionState::Registered);
}

#[test]
fn text_is_not_routed_before_the_session_is_registered() {
    let mut endpoint = WsClient::new(ALICE, 0);
    assert!(endpoint.handle_frame(Frame::Ping(vec![]), 1).is_empty());
    endpoint.started(1);
    assert!(endpoint.handle_frame(Frame::Text(offer_to(BOB).to_json()), 2).is_empty());
    assert_eq!(endpoint.state(), SessionState::Authenticated);
    assert_eq!(endpoint.handle_frame(Frame::Ping(vec![4]), 3), vec![Action::Pong(vec![4])]);
}

#[test]
fn text_that_spells_a_bare_envelope_is_noted_and_dropped() {
    let mut endpoint = registered(ALICE, 0);
    let actions = endpoint.handle_frame(Frame::Text(Message::NewPeer { id: BOB }.to_json()), 5);
    assert!(actions.is_empty());
    assert_eq!(endpoint.state(), SessionState::Registered);
}

#[test]
fn malformed_text_ends_the_session() {
    let violation = vec![Action::Close(Some(CloseReason { code: 1002, description: None })), Action::Stop];
    let mut endpoint = registered(ALICE, 0);
    assert_eq!(endpoint.handle_frame(Frame::Text("{\"hello\":1}".to_string()), 5), violation);
    assert_eq!(endpoint.state(), SessionState::Closing);
    assert!(endpoint.handle_frame(Frame::Ping(vec![]), 6).is_empty());

    let mut endpoint = registered(ALICE, 0);
    assert_eq!(endpoint.handle_frame(Frame::Text("not json".to_string()), 5), violation);

    let mut endpoint = registered(ALICE, 0);
    let forged = PeerMessage { peer_id: BOB, content: Message::NewPeer { id: 5 } };
    assert_eq!(endpoint.handle_frame(Frame::Text(forged.to_json()), 5), violation);
    assert_eq!(endpoint.state(), SessionState::Closing);
}

#[test]
fn binary_frames_are_echoed() {
    let mut endpoint = registered(ALICE, 0);
    assert_eq!(endpoint.handle_frame(Frame::Binary(vec![7, 8]), 5), vec![Action::Binary(vec![7, 8])]);
    assert_eq!(Action::Binary(vec![7, 8]).into_frame(), Some(Frame::Binary(vec![7, 8])));
}

#[test]
fn close_is_answered_with_the_same_reason_and_stops() {
    let mut endpoint = registered(ALICE, 0);
    let reason = Some(CloseReason { code: 1000, description: Some("bye".to_string()) });
    let actions = endpoint.handle_frame(Frame::Close(Some(CloseReason { code: 1000, description: Some("bye".to_string()) })), 5);
    assert_eq!(actions, vec![Action::Close(reason), Action::Stop]);
    assert_eq!(endpoint.state(), SessionState::Closing);
    assert_eq!(endpoint.stopping(), Some(Disconnect { id: ALICE }));
    assert_eq!(endpoint.stopping(), None);
}

#[test]
fn fragments_and_broken_frames_stop_the_session() {
    let mut endpoint = registered(ALICE, 0);
    assert_eq!(endpoint.handle_frame(Frame::Continuation, 5), vec![Action::Stop]);
    let mut endpoint = registered(ALICE, 0);
    assert_eq!(endpoint.handle_frame(Frame::Malformed, 5), vec![Action::Stop]);
    assert_eq!(endpoint.state(), SessionState::Closing);
}

#[test]
fn envelopes_of_the_registry_are_written_as_text() {
    let endpoint = registered(ALICE, 0);
    let actions = endpoint.deliver(Message::NewPeer { id: BOB });
    assert_eq!(actions, vec![Action::Text(Message::NewPeer { id: BOB })]);
    assert_eq!(
        Action::Text(Message::NewPeer { id: BOB }).into_frame(),
        Some(Frame::Text("{\"NewPeer\":{\"id\":\"0f1e2d3c-4b5a-6978-8796-a5b4c3d2e1f0\"}}".to_string()))
    );
    let idle = WsClient::new(ALICE, 0);
    assert!(idle.deliver(Message::NewPeer { id: BOB }).is_empty());
}

#[test]
fn duplicate_session_stops_and_leaves_the_registry_alone() {
    let mut registry = Moderator::new();
    let mut first = WsClient::new(ALICE, 0);
    first.started(0);
    first.connect_result(registry.connect(Connect { id: ALICE }).map(|_| ()));
    assert_eq!(first.state(), SessionState::Registered);

    let mut second = WsClient::new(ALICE, 10);
    let told = second.started(10);
    assert_eq!(told[0], Action::Text(Message::Id(ALICE)));
    let answer = registry.connect(Connect { id: ALICE }).map(|_| ());
    assert_eq!(answer, Err(Error::AlreadyConnected));
    assert_eq!(second.connect_result(answer), vec![Action::Stop]);
    assert_eq!(second.state(), SessionState::Closing);
    assert_eq!(second.stopping(), None);

    assert!(registry.is_connected(ALICE));
    assert_eq!(first.state(), SessionState::Registered);
    assert_eq!(first.handle_frame(Frame::Ping(vec![]), 20), vec![Action::Pong(vec![])]);
    assert_eq!(first.stopping(), Some(Disconnect { id: ALICE }));
}

#[test]
fn transport_failure_stops_the_session() {
    let mut endpoint = registered(ALICE, 0);
    assert_eq!(endpoint.transport_failed(), vec![Action::Stop]);
    assert_eq!(endpoint.state(), SessionState::Closing);
    assert_eq!(endpoint.stopping(), Some(Disconnect { id: ALICE }));
    assert_eq!(endpoint.id(), ALICE);
}
