use matchmaker::identity::{format_id, parse_id};
use matchmaker::message::{Message, PeerMessage, SdpKind, SessionDescription};

const ALICE: u128 = 0x67e55044_10b1_426f_9247_bb680e5fe0c8;
const BOB: u128 = 0x0f1e2d3c_4b5a_6978_8796_a5b4c3d2e1f0;

fn offer() -> SessionDescription {
    SessionDescription::new(SdpKind::Offer, "v=0\r\no=- 1 2 IN IP4 127.0.0.1\r\n".to_string())
}

fn every_envelope() -> Vec<Message> {
    vec![
        Message::Id(ALICE),
        Message::NewPeer { id: BOB },
        Message::Peers(vec![]),
        Message::Peers(vec![ALICE, BOB]),
        Message::PeerDisconnected { id: BOB },
        Message::Offer { id: ALICE, offer: offer() },
        Message::Answer {
            id: BOB,
            answer: SessionDescription::new(SdpKind::Answer, "v=0 \"quoted\" \\ \u{1F600}".to_string()),
        },
        Message::IceCandidate { id: ALICE, candidate: "candidate:1 1 UDP 2130706431 10.0.0.1 8998 typ host".to_string() },
        Message::IceCandidate { id: 0, candidate: String::new() },
        Message::Offer { id: u128::MAX, offer: SessionDescription::new(SdpKind::Unspecified, String::new()) },
        Message::Answer { id: 1, answer: SessionDescription::new(SdpKind::Pranswer, "x".to_string()) },
        Message::Offer { id: 2, offer: SessionDescription::new(SdpKind::Rollback, "\n\t\u{0}".to_string()) },
    ]
}

#[test]
fn identity_is_written_in_hyphenated_lower_case() {
    assert_eq!(format_id(ALICE), "67e55044-10b1-426f-9247-bb680e5fe0c8");
    assert_eq!(format_id(0), "00000000-0000-0000-0000-000000000000");
    assert_eq!(format_id(u128::MAX), "ffffffff-ffff-ffff-ffff-ffffffffffff");
    assert_eq!(format_id(0xa1a2a3a4_b1b2_c1c2_d1d2_d3d4d5d6d7d8), "a1a2a3a4-b1b2-c1c2-d1d2-d3d4d5d6d7d8");
}

#[test]
fn identity_is_read_in_every_form_of_a_uuid() {
    assert_eq!(parse_id("67e55044-10b1-426f-9247-bb680e5fe0c8"), Some(ALICE));
    assert_eq!(parse_id("67E55044-10B1-426F-9247-BB680E5FE0C8"), Some(ALICE));
    assert_eq!(parse_id("67e5504410b1426f9247bb680e5fe0c8"), Some(ALICE));
    assert_eq!(parse_id("urn:uuid:67e55044-10b1-426f-9247-bb680e5fe0c8"), Some(ALICE));
    assert_eq!(parse_id("{67e55044-10b1-426f-9247-bb680e5fe0c8}"), Some(ALICE));
    assert_eq!(parse_id(""), None);
    assert_eq!(parse_id("67e55044-10b1-426f-9247-bb680e5fe0c"), None);
    assert_eq!(parse_id("alice"), None);
}

#[test]
fn identity_round_trips() {
    for id in [0u128, 1, ALICE, BOB, u128::MAX, 1 << 127, 0xf << 64] {
        assert_eq!(parse_id(&format_id(id)), Some(id));
    }
}

#[test]
fn first_frame_is_the_id_object() {
    assert_eq!(Message::Id(ALICE).to_json(), "{\"Id\":\"67e55044-10b1-426f-9247-bb680e5fe0c8\"}");
}

#[test]
fn envelopes_are_written_as_objects_named_after_their_kind() {
    assert_eq!(
        Message::NewPeer { id: BOB }.to_json(),
        "{\"NewPeer\":{\"id\":\"0f1e2d3c-4b5a-6978-8796-a5b4c3d2e1f0\"}}"
    );
    assert_eq!(
        Message::PeerDisconnected { id: BOB }.to_json(),
        "{\"PeerDisconnected\":{\"id\":\"0f1e2d3c-4b5a-6978-8796-a5b4c3d2e1f0\"}}"
    );
    assert_eq!(Message::Peers(vec![]).to_json(), "{\"Peers\":[]}");
    assert_eq!(
        Message::Peers(vec![ALICE, BOB]).to_json(),
        "{\"Peers\":[\"67e55044-10b1-426f-9247-bb680e5fe0c8\",\"0f1e2d3c-4b5a-6978-8796-a5b4c3d2e1f0\"]}"
    );
    assert_eq!(
        Message::Offer { id: ALICE, offer: SessionDescription::new(SdpKind::Offer, "v=0\r\n".to_string()) }.to_json(),
        "{\"Offer\":{\"id\":\"67e55044-10b1-426f-9247-bb680e5fe0c8\",\"offer\":{\"sdp\":\"v=0\\r\\n\",\"type\":\"offer\"}}}"
    );
    assert_eq!(
        Message::Answer { id: BOB, answer: SessionDescription::new(SdpKind::Answer, "a".to_string()) }.to_json(),
        "{\"Answer\":{\"answer\":{\"sdp\":\"a\",\"type\":\"answer\"},\"id\":\"0f1e2d3c-4b5a-6978-8796-a5b4c3d2e1f0\"}}"
    );
    assert_eq!(
        Message::IceCandidate { id: ALICE, candidate: "candidate:1".to_string() }.to_json(),
        "{\"IceCandidate\":{\"candidate\":\"candidate:1\",\"id\":\"67e55044-10b1-426f-9247-bb680e5fe0c8\"}}"
    );
}

#[test]
fn every_envelope_round_trips() {
    for envelope in every_envelope() {
        let text = envelope.to_json();
        assert_eq!(Message::from_json(&text), Some(envelope));
    }
}

#[test]
fn every_addressed_envelope_round_trips() {
    for content in every_envelope() {
        let message = PeerMessage { peer_id: BOB, content };
        let text = message.to_json();
        assert_eq!(PeerMessage::from_json(&text), Some(message));
    }
}

#[test]
fn addressed_envelope_is_an_object_of_peer_id_and_content() {
    let message = PeerMessage { peer_id: BOB, content: Message::IceCandidate { id: ALICE, candidate: "c".to_string() } };
    assert_eq!(
        message.to_json(),
        "{\"content\":{\"IceCandidate\":{\"candidate\":\"c\",\"id\":\"67e55044-10b1-426f-9247-bb680e5fe0c8\"}},\"peer_id\":\"0f1e2d3c-4b5a-6978-8796-a5b4c3d2e1f0\"}"
    );
    let read = PeerMessage::from_json(
        " { \"peer_id\" : \"0f1e2d3c-4b5a-6978-8796-a5b4c3d2e1f0\",\n \"content\" : { \"Offer\" : { \"id\" : \"67e55044-10b1-426f-9247-bb680e5fe0c8\", \"offer\" : { \"type\" : \"offer\", \"sdp\" : \"v=0\\r\\n\" } } } } ",
    );
    assert_eq!(
        read,
        Some(PeerMessage {
            peer_id: BOB,
            content: Message::Offer { id: ALICE, offer: SessionDescription::new(SdpKind::Offer, "v=0\r\n".to_string()) },
        })
    );
}

#[test]
fn members_that_are_not_known_are_passed_over() {
    let read = Message::from_json(
        "{\"Offer\":{\"id\":\"67e55044-10b1-426f-9247-bb680e5fe0c8\",\"extra\":1,\"offer\":{\"type\":\"answer\",\"sdp\":\"s\",\"more\":[true,null]}}}",
    );
    assert_eq!(
        read,
        Some(Message::Offer { id: ALICE, offer: SessionDescription::new(SdpKind::Answer, "s".to_string()) })
    );
    let addressed = PeerMessage::from_json(
        "{\"peer_id\":\"0f1e2d3c-4b5a-6978-8796-a5b4c3d2e1f0\",\"note\":\"x\",\"content\":{\"NewPeer\":{\"id\":\"67e55044-10b1-426f-9247-bb680e5fe0c8\"}}}",
    );
    assert_eq!(addressed, Some(PeerMessage { peer_id: BOB, content: Message::NewPeer { id: ALICE } }));
}

#[test]
fn text_that_spells_no_envelope_is_not_read() {
    let bad = [
        "",
        "not json",
        "{",
        "null",
        "[]",
        "\"Id\"",
        "{}",
        "{\"Id\":5}",
        "{\"Id\":\"alice\"}",
        "{\"Hello\":\"67e55044-10b1-426f-9247-bb680e5fe0c8\"}",
        "{\"Id\":\"67e55044-10b1-426f-9247-bb680e5fe0c8\",\"NewPeer\":{\"id\":\"67e55044-10b1-426f-9247-bb680e5fe0c8\"}}",
        "{\"NewPeer\":{}}",
        "{\"NewPeer\":\"67e55044-10b1-426f-9247-bb680e5fe0c8\"}",
        "{\"Peers\":{}}",
        "{\"Peers\":[\"67e55044-10b1-426f-9247-bb680e5fe0c8\",7]}",
        "{\"Offer\":{\"id\":\"67e55044-10b1-426f-9247-bb680e5fe0c8\"}}",
        "{\"Offer\":{\"id\":\"67e55044-10b1-426f-9247-bb680e5fe0c8\",\"offer\":{\"type\":\"gift\",\"sdp\":\"s\"}}}",
        "{\"Offer\":{\"id\":\"67e55044-10b1-426f-9247-bb680e5fe0c8\",\"offer\":{\"type\":\"offer\"}}}",
        "{\"Answer\":{\"id\":\"67e55044-10b1-426f-9247-bb680e5fe0c8\",\"offer\":{\"type\":\"offer\",\"sdp\":\"s\"}}}",
        "{\"IceCandidate\":{\"id\":\"67e55044-10b1-426f-9247-bb680e5fe0c8\",\"candidate\":null}}",
        "{\"Id\":\"67e55044-10b1-426f-9247-bb680e5fe0c8\"} trailing",
    ];
    for text in bad {
        assert_eq!(Message::from_json(text), None, "{}", text);
    }
    assert_eq!(PeerMessage::from_json("{\"peer_id\":\"0f1e2d3c-4b5a-6978-8796-a5b4c3d2e1f0\"}"), None);
    assert_eq!(PeerMessage::from_json("{\"content\":{\"Peers\":[]}}"), None);
    assert_eq!(PeerMessage::from_json("{\"Id\":\"67e55044-10b1-426f-9247-bb680e5fe0c8\"}"), None);
}

#[test]
fn kinds_of_descriptions_are_spelled_as_the_media_engine_spells_them() {
    let spelled = [
        (SdpKind::Unspecified, "Unspecified"),
        (SdpKind::Offer, "offer"),
        (SdpKind::Pranswer, "pranswer"),
        (SdpKind::Answer, "answer"),
        (SdpKind::Rollback, "rollback"),
    ];
    for (kind, name) in spelled {
        let text = Message::Offer { id: 1, offer: SessionDescription::new(kind, "s".to_string()) }.to_json();
        assert_eq!(
            text,
            format!("{{\"Offer\":{{\"id\":\"00000000-0000-0000-0000-000000000001\",\"offer\":{{\"sdp\":\"s\",\"type\":\"{}\"}}}}}}", name)
        );
    }
}

#[test]
fn envelopes_know_their_sender() {
    let routed = Message::Offer { id: ALICE, offer: offer() };
    assert!(routed.is_routable());
    assert_eq!(routed.sender(), Some(ALICE));
    assert_eq!(routed.with_sender(BOB).sender(), Some(BOB));
    for envelope in [Message::Id(ALICE), Message::NewPeer { id: ALICE }, Message::Peers(vec![ALICE]), Message::PeerDisconnected { id: ALICE }] {
        assert!(!envelope.is_routable());
        assert_eq!(envelope.sender(), None);
        assert_eq!(envelope.clone().with_sender(BOB), envelope);
    }
}
