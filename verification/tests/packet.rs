use mahjong_core::protocol::packet::{Packet, PacketKind};
use mahjong_core::utils::errors::Error;

#[test]
fn from_bytes() {
    let bytes = [
        0x01, 0x00, 0x00, 0x00, 0x03, 0x00, 0x00, 0x00, 0x0F, 0x00, 0x00, 0x00, 0x68, 0x65,
        0x6C, 0x6C, 0x6F, 0x00, 0x00,
    ];

    if let Ok(packet) = Packet::from_bytes(&bytes) {
        assert_eq!(packet.kind, PacketKind::Broadcast);
        assert_eq!(packet.size, 15);
        assert_eq!(packet.id, 1);
        let body = String::from_utf8(packet.body.to_vec()).unwrap();
        assert_eq!(body, "hello");
    }
}

#[test]
fn decode_rejects_short_frames() {
    let bytes = [0x01u8, 0x00, 0x00, 0x00, 0x03, 0x00, 0x00, 0x00, 0x0F, 0x00, 0x00, 0x00, 0x00];
    assert_eq!(bytes.len(), 13);
    match Packet::from_bytes(&bytes) {
        Err(Error::PacketParsingFailed(code)) => assert_eq!(code, 101),
        other => panic!("expected packet parsing failure 101, got {:?}", other),
    }
}

#[test]
fn decode_rejects_unknown_kinds() {
    let bytes = [
        0x01u8, 0x00, 0x00, 0x00, 0x09, 0x00, 0x00, 0x00, 0x0F, 0x00, 0x00, 0x00, 0x68, 0x65,
        0x6C, 0x6C, 0x6F, 0x00, 0x00,
    ];
    match Packet::from_bytes(&bytes) {
        Err(Error::PacketParsingFailed(code)) => assert_eq!(code, 102),
        other => panic!("expected packet parsing failure 102, got {:?}", other),
    }
}

#[test]
fn encode_of_decode_returns_the_frame() {
    // a well-formed frame: known kind, zero trailer
    let bytes = vec![
        0x2A, 0x01, 0x00, 0x00, 0xFF, 0x00, 0x00, 0x00, 0x14, 0x00, 0x00, 0x00, 0xDE, 0xAD,
        0xBE, 0xEF, 0x10, 0x00, 0x00,
    ];
    let packet = Packet::from_bytes(&bytes).unwrap();
    assert_eq!(packet.kind, PacketKind::Error);
    assert_eq!(packet.to_bytes(), bytes);
}

#[test]
fn create_records_the_full_frame_length() {
    let p = Packet::create(9, PacketKind::Action, &[1, 2, 3]);
    assert_eq!(p.id, 9);
    assert_eq!(p.size, 17);
    assert_eq!(p.body, vec![1, 2, 3]);
    let encoded = p.to_bytes();
    assert_eq!(encoded.len(), 17);
    let again = Packet::from_bytes(&encoded).unwrap();
    assert_eq!(again.body, vec![1, 2, 3]);
    assert_eq!(again.kind, PacketKind::Action);
}

#[test]
fn error_packet_carries_the_display_string() {
    let p = Packet::error(3, Error::ConnectionNeeded);
    assert_eq!(p.kind, PacketKind::Error);
    assert_eq!(p.id, 3);
    assert_eq!(p.body, b"CLIENT ERROR (56)".to_vec());
}

#[test]
fn packet_kind_codes() {
    assert_eq!(PacketKind::from_byte(1), Some(PacketKind::Setup));
    assert_eq!(PacketKind::from_byte(2), Some(PacketKind::Action));
    assert_eq!(PacketKind::from_byte(3), Some(PacketKind::Broadcast));
    assert_eq!(PacketKind::from_byte(255), Some(PacketKind::Error));
    assert_eq!(PacketKind::from_byte(0), None);
    assert_eq!(PacketKind::from_byte(5), None);
    assert_eq!(PacketKind::Error.bytes(), [0xFF, 0x00, 0x00, 0x00]);
    assert_eq!(PacketKind::Setup.bytes(), [0x01, 0x00, 0x00, 0x00]);
}
