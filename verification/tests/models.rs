use mahjong_core::utils::errors::Error;
use mahjong_core::utils::models::JoinRequest;

#[test]
fn test_parse() {
    let bytes: &[u8] = &[
        0x88, 0x77, 0x66, 0x55, 0x44, 0x33, 0x22, 0x11, 0x42, 0x75, 0x6E, 0x6E, 0x79,
    ];
    let parse = JoinRequest::parse(bytes);
    assert!(parse.is_ok());
    assert_eq!(parse.unwrap().alias, "Bunny");
}

#[test]
fn parse_reads_the_little_endian_id() {
    let bytes: &[u8] = &[
        0x88, 0x77, 0x66, 0x55, 0x44, 0x33, 0x22, 0x11, 0x42, 0x75, 0x6E, 0x6E, 0x79,
    ];
    let req = JoinRequest::parse(bytes).unwrap();
    assert_eq!(req.id, 0x1122334455667788);
}

#[test]
fn parse_rejects_short_bodies() {
    let bytes: &[u8] = &[0x88, 0x77, 0x66];
    match JoinRequest::parse(bytes) {
        Err(Error::ConnectionFailed(code)) => assert_eq!(code, 54),
        other => panic!("expected connection failure 54, got {:?}", other),
    }
}

#[test]
fn parse_rejects_invalid_utf8() {
    let bytes: &[u8] = &[1, 0, 0, 0, 0, 0, 0, 0, 0xFF, 0xFE];
    match JoinRequest::parse(bytes) {
        Err(Error::ConnectionFailed(code)) => assert_eq!(code, 54),
        other => panic!("expected connection failure 54, got {:?}", other),
    }
}

#[test]
fn parse_accepts_an_empty_alias() {
    let bytes: &[u8] = &[7, 0, 0, 0, 0, 0, 0, 0];
    let req = JoinRequest::parse(bytes).unwrap();
    assert_eq!(req.id, 7);
    assert_eq!(req.alias, "");
}
