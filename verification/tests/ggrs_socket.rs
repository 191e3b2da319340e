use matchmaker::frame::Frame;
use matchmaker::ggrs_socket::{sort_ids, GgrsSocket, PlayerType};
use matchmaker::message::Message;
use matchmaker::peer::Packet;
use matchmaker::rtc_config::RtcConfig;
use matchmaker::socket::WebRTCSocket;

const ALICE: u128 = 0x67e55044_10b1_426f_9247_bb680e5fe0c8;
const BOB: u128 = 0x0f1e2d3c_4b5a_6978_8796_a5b4c3d2e1f0;
const CAROL: u128 = 0xa1a2a3a4_b1b2_c1c2_d1d2_d3d4d5d6d7d8;

fn handle(id: u128) -> GgrsSocket {
    let socket = WebRTCSocket::new(RtcConfig::default(), Some(Frame::Text(Message::Id(id).to_json()))).ok().unwrap();
    GgrsSocket::new(&socket)
}

#[test]
fn identities_are_sorted_ascending() {
    assert_eq!(sort_ids(&vec![]), Vec::<u128>::new());
    assert_eq!(sort_ids(&vec![5]), vec![5]);
    assert_eq!(sort_ids(&vec![3, 1, 2]), vec![1, 2, 3]);
    assert_eq!(sort_ids(&vec![CAROL, ALICE, BOB, ALICE, 0, u128::MAX]), vec![0, BOB, ALICE, ALICE, CAROL, u128::MAX]);
    let mut many: Vec<u128> = (0..200u128).map(|i| (i * 7919) % 211).collect();
    let sorted = sort_ids(&many);
    many.sort();
    assert_eq!(sorted, many);
}

#[test]
fn every_client_lists_the_players_in_the_same_order() {
    // BOB < ALICE < CAROL
    assert_eq!(handle(ALICE).id(), ALICE);
    assert_eq!(
        handle(ALICE).players(vec![CAROL, BOB]),
        vec![PlayerType::Remote(BOB), PlayerType::Local, PlayerType::Remote(CAROL)]
    );
    assert_eq!(
        handle(BOB).players(vec![ALICE, CAROL]),
        vec![PlayerType::Local, PlayerType::Remote(ALICE), PlayerType::Remote(CAROL)]
    );
    assert_eq!(
        handle(CAROL).players(vec![BOB, ALICE]),
        vec![PlayerType::Remote(BOB), PlayerType::Remote(ALICE), PlayerType::Local]
    );
    assert_eq!(handle(ALICE).players(vec![]), vec![PlayerType::Local]);
}

#[test]
fn payloads_are_wrapped_for_and_unwrapped_from_their_peers() {
    let handle = handle(BOB);
    let packet = handle.send_to(vec![1, 2, 3], ALICE);
    assert_eq!(packet, Packet::new(ALICE, vec![1, 2, 3]));
    let received = handle.receive_all_messages(vec![Packet::new(ALICE, vec![1]), Packet::new(CAROL, vec![]), Packet::new(ALICE, vec![2, 3])]);
    assert_eq!(received, vec![(ALICE, vec![1]), (CAROL, vec![]), (ALICE, vec![2, 3])]);
    assert!(handle.receive_all_messages(vec![]).is_empty());
}
