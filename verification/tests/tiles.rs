use mahjong_core::game::enums::{Action, Seat, Tile, TileKind};
use mahjong_core::game::match_manager::MatchStatus;
use mahjong_core::network::setup::Setup;
use mahjong_core::utils::errors::Error;

#[test]
fn tile_kind_parse_accepts_every_code() {
    let valid: Vec<i8> = (11..=19).chain(21..=29).chain(31..=39).chain(41..=47).collect();
    for code in valid {
        let kind = TileKind::parse(code).unwrap();
        assert_eq!(kind.code(), code);
    }
}

#[test]
fn tile_kind_parse_rejects_gaps() {
    for code in [-5i8, 0, 10, 20, 30, 40, 48, 99] {
        assert!(TileKind::parse(code).is_none());
    }
}

#[test]
fn tile_from_bytes_checks_kind_and_copy() {
    let tile = Tile::from_bytes(35, 2).unwrap();
    assert_eq!(tile.kind, TileKind::Manzu5);
    assert_eq!(tile.copy, 2);

    match Tile::from_bytes(35, 4) {
        Err(Error::TileParsingFailed) => {}
        other => panic!("expected tile parsing failure, got {:?}", other),
    }
    match Tile::from_bytes(99, 0) {
        Err(Error::TileParsingFailed) => {}
        other => panic!("expected tile parsing failure, got {:?}", other),
    }
}

#[test]
fn tile_kind_names() {
    assert_eq!(TileKind::Souzu1.name(), "1s");
    assert_eq!(TileKind::Pinzu9.name(), "9p");
    assert_eq!(TileKind::Manzu5.name(), "5m");
    assert_eq!(TileKind::Red.name(), "Red");
    assert_eq!(TileKind::South.name(), "South");
}

#[test]
fn seat_names_and_rotation() {
    assert_eq!(Seat::North.to_string(), "north");
    assert_eq!(Seat::South.to_string(), "south");
    assert_eq!(Seat::East.to_string(), "east");
    assert_eq!(Seat::West.to_string(), "west");
    // East -> North -> West -> South -> East
    assert_eq!(Seat::East.next(), Seat::North);
    assert_eq!(Seat::North.next(), Seat::West);
    assert_eq!(Seat::West.next(), Seat::South);
    assert_eq!(Seat::South.next(), Seat::East);
}

#[test]
fn action_codes_round_trip() {
    let all = [
        Action::DRAW,
        Action::DISCARD,
        Action::KAN,
        Action::PON,
        Action::CHI,
        Action::RON,
        Action::TSUMO,
    ];
    for (i, a) in all.iter().enumerate() {
        assert_eq!(a.bytes(), [i as u8, 0, 0, 0]);
        assert_eq!(Action::get(i as u8), Some(*a));
    }
    assert_eq!(Action::get(7), None);
    assert_eq!(Action::get(255), None);
}

#[test]
fn setup_ops_round_trip() {
    assert!(matches!(Setup::from(&[0x01, 0, 0, 0]), Some(Setup::Connection)));
    assert!(matches!(Setup::from(&[0x02, 0, 0, 0]), Some(Setup::Reconnection)));
    assert!(matches!(Setup::from(&[0x03, 0, 0, 0]), Some(Setup::Initialization)));
    assert!(matches!(Setup::from(&[0x04, 0, 0, 0]), Some(Setup::Ready)));
    assert!(Setup::from(&[0x05, 0, 0, 0]).is_none());
    assert!(Setup::from(&[0x01, 0]).is_none());
    assert_eq!(Setup::Ready.bytes(), [0x04, 0, 0, 0]);
}

#[test]
fn match_status_bytes() {
    assert_eq!(MatchStatus::Waiting.bytes(), [0, 0, 0, 0]);
    assert_eq!(MatchStatus::Ongoing.bytes(), [1, 0, 0, 0]);
    assert_eq!(MatchStatus::Finished.bytes(), [2, 0, 0, 0]);
    assert_eq!(MatchStatus::Interrupted.bytes(), [3, 0, 0, 0]);
    assert_eq!(MatchStatus::Ready.bytes(), [4, 0, 0, 0]);
}

#[test]
fn error_messages() {
    assert_eq!(Error::ConnectionNeeded.message(), "CLIENT ERROR (56)");
    assert_eq!(Error::OperationFailed(57).message(), "CLIENT ERROR (57)");
    assert_eq!(Error::ReconnectionFailed(55).message(), "CLIENT ERROR (55)");
    assert_eq!(
        Error::DrawFailed(163).message(),
        "game error: unable to draw a tile (163)"
    );
    assert_eq!(
        Error::DiscardFailed(164).message(),
        "game error: could not discard tile (164)"
    );
    assert_eq!(
        Error::PacketParsingFailed(101).message(),
        "Could not parse received packet (101)"
    );
    assert_eq!(
        Error::TileParsingFailed.message(),
        "request error: failed to parse target Tile"
    );
    assert_eq!(Error::NextPlayerFailed.message(), "game error: could not get next player");
    assert_eq!(Error::NoAvailableSeats.message(), "");
}
