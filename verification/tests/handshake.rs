use mahjong_core::game::enums::{Action, Seat};
use mahjong_core::game::match_manager::{MatchManager, MatchStatus};
use mahjong_core::network::client_manager::{handshake_decision, HandshakeStep};
use mahjong_core::protocol::packet::{Packet, PacketKind};
use mahjong_core::protocol::protocol::{
    action_response, event_broadcast, handle_connect, handle_ready, handle_reconnect,
    initialization_response, status_broadcast,
};
use mahjong_core::utils::errors::Error;

fn setup_packet(id: u32, body: &[u8]) -> Packet {
    Packet::create(id, PacketKind::Setup, body)
}

/// A connection body: op word, reserved byte, 8-byte id, alias.
fn join_body(op: u8, id: u64, alias: &str) -> Vec<u8> {
    let mut body = vec![op, 0, 0, 0, 0];
    body.extend_from_slice(&id.to_le_bytes());
    body.extend_from_slice(alias.as_bytes());
    body
}

#[test]
fn ready_before_joining_is_refused() {
    // a Ready request on a fresh connection draws the connection-needed error
    let packet = setup_packet(1, &[0x04, 0x00, 0x00, 0x00]);
    match handshake_decision(&packet) {
        HandshakeStep::Refuse(id, err) => {
            assert_eq!(id, 1);
            let reply = Packet::error(id, err);
            assert_eq!(reply.kind, PacketKind::Error);
            assert_eq!(reply.body, b"CLIENT ERROR (56)".to_vec());
        }
        other => panic!("expected a refusal, got {:?}", other),
    }
}

#[test]
fn non_setup_packets_are_refused() {
    let packet = Packet::create(5, PacketKind::Action, &[0x00]);
    match handshake_decision(&packet) {
        HandshakeStep::Refuse(id, Error::ConnectionNeeded) => assert_eq!(id, 5),
        other => panic!("expected a refusal, got {:?}", other),
    }
}

#[test]
fn connection_requests_parse_the_join_body() {
    let packet = setup_packet(2, &join_body(0x01, 0x1122334455667788, "Bunny"));
    match handshake_decision(&packet) {
        HandshakeStep::Connect(id, req) => {
            assert_eq!(id, 2);
            assert_eq!(req.id, 0x1122334455667788);
            assert_eq!(req.alias, "Bunny");
        }
        other => panic!("expected a connect step, got {:?}", other),
    }
}

#[test]
fn reconnection_requests_parse_the_join_body() {
    let packet = setup_packet(3, &join_body(0x02, 42, "Bunny"));
    match handshake_decision(&packet) {
        HandshakeStep::Reconnect(id, req) => {
            assert_eq!(id, 3);
            assert_eq!(req.id, 42);
            assert_eq!(req.alias, "Bunny");
        }
        other => panic!("expected a reconnect step, got {:?}", other),
    }
}

#[test]
fn truncated_join_bodies_may_be_retried() {
    let packet = setup_packet(4, &[0x01, 0, 0, 0, 0, 9, 9]);
    match handshake_decision(&packet) {
        HandshakeStep::BadRequest(id, Error::ConnectionFailed(54)) => assert_eq!(id, 4),
        other => panic!("expected a bad request step, got {:?}", other),
    }
}

#[test]
fn handle_connect_seats_the_player() {
    let mut manager = MatchManager::new(8);
    let packet = setup_packet(2, &join_body(0x01, 77, "Bunny"));
    let seat = handle_connect(&mut manager, &packet).unwrap();
    assert_eq!(seat, Seat::East);
    let player = manager.get_player(seat).as_ref().unwrap();
    assert_eq!(player.id, 77);
    assert_eq!(player.alias, "Bunny");
    assert_eq!(player.hand.len(), 13);
}

#[test]
fn handle_reconnect_returns_the_request() {
    let packet = setup_packet(2, &join_body(0x02, 77, "Bunny"));
    let req = handle_reconnect(&packet).unwrap();
    assert_eq!(req.id, 77);
    assert_eq!(req.alias, "Bunny");
    let bad = setup_packet(2, &[0x02, 0]);
    match handle_reconnect(&bad) {
        Err(Error::ConnectionFailed(54)) => {}
        other => panic!("expected connection failure 54, got {:?}", other),
    }
}

#[test]
fn handle_ready_acknowledges_and_marks_readiness() {
    let mut manager = MatchManager::new(8);
    let packet = setup_packet(2, &join_body(0x01, 77, "Bunny"));
    let seat = handle_connect(&mut manager, &packet).unwrap();
    let reply = handle_ready(&mut manager, seat, 6);
    assert_eq!(reply.kind, PacketKind::Setup);
    assert_eq!(reply.id, 6);
    assert_eq!(reply.body, vec![0x00]);
    assert!(manager.get_player(seat).as_ref().unwrap().check_ready());
    // an empty seat draws the operation-failure reply
    let reply = handle_ready(&mut manager, Seat::South, 7);
    assert_eq!(reply.kind, PacketKind::Error);
    assert_eq!(reply.body, b"CLIENT ERROR (57)".to_vec());
}

#[test]
fn response_builders_prefix_the_code_words() {
    let p = initialization_response(4, &[0xAA, 0xBB]);
    assert_eq!(p.kind, PacketKind::Setup);
    assert_eq!(p.body, vec![0x03, 0, 0, 0, 0xAA, 0xBB]);

    let p = action_response(5, Action::DRAW, &[0x01]);
    assert_eq!(p.kind, PacketKind::Action);
    assert_eq!(p.body, vec![0x00, 0, 0, 0, 0x01]);

    let p = event_broadcast(6, Action::DISCARD, &[0x09]);
    assert_eq!(p.kind, PacketKind::Broadcast);
    assert_eq!(p.body, vec![0x01, 0, 0, 0, 0x09]);

    let p = status_broadcast(7, MatchStatus::Ongoing);
    assert_eq!(p.kind, PacketKind::Broadcast);
    assert_eq!(p.body, vec![0x01, 0, 0, 0]);
}
