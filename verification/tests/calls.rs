use mahjong_core::game::call_window::{resolve, CallWindow, Resolution};
use mahjong_core::game::enums::{Action, Seat, Tile};
use mahjong_core::game::game_action::GameAction;
use mahjong_core::game::game_state::{GameState, SeatMap};
use mahjong_core::game::match_manager::{MatchManager, MatchStatus, TurnPhase};
use mahjong_core::game::player::Player;
use mahjong_core::utils::errors::Error;
use mahjong_core::utils::models::{JoinRequest, MeldFlags};

fn t(code: i8, copy: u8) -> Tile {
    Tile::from_bytes(code as u8, copy).unwrap()
}

fn hand(pairs: &[(i8, u8)]) -> Vec<Tile> {
    pairs.iter().map(|&(c, k)| t(c, k)).collect()
}

/// Thirteen souzu/pinzu filler tiles that stay out of the way of the
/// scenarios below.
fn filler(copy: u8) -> Vec<Tile> {
    hand(&[
        (11, copy),
        (12, copy),
        (13, copy),
        (14, copy),
        (15, copy),
        (16, copy),
        (17, copy),
        (18, copy),
        (19, copy),
        (44, copy),
        (45, copy),
        (46, copy),
        (47, copy),
    ])
}

fn player(seat: Seat, id: u64, tiles: Vec<Tile>) -> Player {
    let req = JoinRequest { id, alias: format!("p{}", id) };
    Player::new(seat, &req, tiles)
}

/// A mid-match position: East on turn holding 14 tiles, a discard owed.
fn table(east: Vec<Tile>, north: Vec<Tile>, west: Vec<Tile>, south: Vec<Tile>) -> MatchManager {
    let mut pool = SeatMap::new();
    pool.insert(Seat::East, player(Seat::East, 1, east));
    pool.insert(Seat::North, player(Seat::North, 2, north));
    pool.insert(Seat::West, player(Seat::West, 3, west));
    pool.insert(Seat::South, player(Seat::South, 4, south));
    MatchManager {
        match_id: String::new(),
        state: GameState {
            turn: 10,
            wall: hand(&[(21, 0), (22, 0), (23, 0), (24, 0)]),
            last_discard: None,
            player_pool: pool,
        },
        current_turn: Seat::East,
        status: MatchStatus::Ongoing,
        phase: TurnPhase::Discarding,
        global_id: 0,
    }
}

fn flags(pid: u64, ron: bool, pon: bool, chi: bool, kan: bool) -> MeldFlags {
    MeldFlags { pid, ron, pon, chi, kan }
}

fn discard(manager: &mut MatchManager, tile: Tile) {
    let action = GameAction { action: Action::DISCARD, target: Some(tile) };
    manager.discard(Seat::East, &action).unwrap();
}

#[test]
fn chi_is_offered_only_to_the_next_seat() {
    let claimed = t(35, 2);
    let chi_all = Some(flags(0, false, false, true, false));
    let w = CallWindow::open(Seat::East, claimed, chi_all, chi_all, chi_all, chi_all);
    // the discarder is offered nothing
    assert!(w.get_offer(Seat::East).is_none());
    // only North sits immediately after East
    assert!(w.get_offer(Seat::North).unwrap().chi);
    assert!(!w.get_offer(Seat::West).unwrap().chi);
    assert!(!w.get_offer(Seat::South).unwrap().chi);
}

#[test]
fn unauthorized_claims_fail_and_count_as_passing() {
    let claimed = t(35, 2);
    let offer = Some(flags(4, false, true, false, false));
    let mut w = CallWindow::open(Seat::East, claimed, None, None, None, offer);
    assert!(!w.all_eligible_answered());
    // a seat that was offered nothing cannot call
    match w.submit(Seat::West, Action::PON) {
        Err(Error::GameActionFailed) => {}
        other => panic!("expected game action failure, got {:?}", other),
    }
    // an unauthorized claim from an offered seat counts as its pass
    match w.submit(Seat::South, Action::RON) {
        Err(Error::GameActionFailed) => {}
        other => panic!("expected game action failure, got {:?}", other),
    }
    assert!(w.get_answered(Seat::South));
    assert!(w.all_eligible_answered());
    // and the seat cannot answer twice
    match w.submit(Seat::South, Action::PON) {
        Err(Error::GameActionFailed) => {}
        other => panic!("expected game action failure, got {:?}", other),
    }
    assert!(matches!(resolve(&w), Resolution::NoCall));
}

#[test]
fn first_pon_claim_wins() {
    // East discards Manzu5; South (two copies in hand) and North both get a
    // pon flag from the oracle, and South answers first.
    let claimed = t(35, 2);
    let mut east = filler(0);
    east.push(claimed);
    let south = {
        let mut h = filler(1);
        h[0] = t(35, 0);
        h[1] = t(35, 1);
        h
    };
    let mut manager = table(east, filler(2), filler(3), south);
    discard(&mut manager, claimed);

    let mut w = CallWindow::open(
        Seat::East,
        claimed,
        None,
        Some(flags(2, false, true, false, false)),
        None,
        Some(flags(4, false, true, false, false)),
    );
    w.submit(Seat::South, Action::PON).unwrap();
    w.submit(Seat::North, Action::PON).unwrap();
    let outcome = resolve(&w);
    match &outcome {
        Resolution::Meld(seat, action) => {
            assert_eq!(*seat, Seat::South);
            assert_eq!(*action, Action::PON);
        }
        other => panic!("expected a pon resolution, got {:?}", other),
    }

    let turn_before = manager.state.turn;
    manager.apply_resolution(&w, &outcome).unwrap();
    // the tile moved from East's discard row into South's new meld
    let east_p = manager.get_player(Seat::East).as_ref().unwrap();
    assert!(east_p.discarded.is_empty());
    let south_p = manager.get_player(Seat::South).as_ref().unwrap();
    assert_eq!(south_p.open_melds.len(), 1);
    let meld = &south_p.open_melds[0];
    assert_eq!(meld.call, Action::PON);
    assert_eq!(meld.from_seat, Seat::East);
    assert_eq!((meld.claimed.kind.code(), meld.claimed.copy), (35, 2));
    assert_eq!(meld.melded.len(), 2);
    assert!(meld.melded.iter().all(|x| x.kind.code() == 35));
    assert_eq!(south_p.hand.len(), 11);
    // the caller plays next and owes a discard
    assert_eq!(manager.current_turn, Seat::South);
    assert_eq!(manager.phase, TurnPhase::Discarding);
    assert_eq!(manager.state.turn, turn_before + 1);
    assert_eq!(manager.state.last_discard, None);
}

#[test]
fn ron_outranks_other_calls_and_ends_the_match() {
    // East discards; North could chi, West claims ron. Ron wins.
    let claimed = t(25, 1);
    let mut east = filler(0);
    east.push(claimed);
    let north = {
        let mut h = filler(1);
        h[0] = t(23, 0);
        h[1] = t(24, 0);
        h
    };
    let mut manager = table(east, north, filler(2), filler(3));
    discard(&mut manager, claimed);

    let mut w = CallWindow::open(
        Seat::East,
        claimed,
        None,
        Some(flags(2, false, false, true, false)),
        Some(flags(3, true, false, false, false)),
        None,
    );
    w.submit(Seat::North, Action::CHI).unwrap();
    w.submit(Seat::West, Action::RON).unwrap();
    let outcome = resolve(&w);
    match &outcome {
        Resolution::Ron(winners) => assert_eq!(winners.as_slice(), &[Seat::West]),
        other => panic!("expected a ron resolution, got {:?}", other),
    }
    manager.apply_resolution(&w, &outcome).unwrap();
    assert_eq!(manager.status, MatchStatus::Finished);
}

#[test]
fn double_ron_wins_together() {
    let claimed = t(25, 1);
    let mut east = filler(0);
    east.push(claimed);
    let mut manager = table(east, filler(1), filler(2), filler(3));
    discard(&mut manager, claimed);
    let mut w = CallWindow::open(
        Seat::East,
        claimed,
        None,
        Some(flags(2, true, false, false, false)),
        Some(flags(3, true, false, false, false)),
        None,
    );
    w.submit(Seat::West, Action::RON).unwrap();
    w.submit(Seat::North, Action::RON).unwrap();
    match resolve(&w) {
        Resolution::Ron(winners) => assert_eq!(winners.as_slice(), &[Seat::West, Seat::North]),
        other => panic!("expected a ron resolution, got {:?}", other),
    }
}

#[test]
fn chi_locks_the_run_below_the_claimed_tile() {
    // East discards 5p; North holds 3p and 4p.
    let claimed = t(25, 1);
    let mut east = filler(0);
    east.push(claimed);
    let north = {
        let mut h = filler(1);
        h[0] = t(23, 0);
        h[1] = t(24, 0);
        h
    };
    let mut manager = table(east, north, filler(2), filler(3));
    discard(&mut manager, claimed);
    let mut w = CallWindow::open(
        Seat::East,
        claimed,
        None,
        Some(flags(2, false, false, true, false)),
        None,
        None,
    );
    w.submit(Seat::North, Action::CHI).unwrap();
    let outcome = resolve(&w);
    manager.apply_resolution(&w, &outcome).unwrap();
    let north_p = manager.get_player(Seat::North).as_ref().unwrap();
    let meld = &north_p.open_melds[0];
    assert_eq!(meld.call, Action::CHI);
    let mut codes: Vec<i8> = meld.melded.iter().map(|x| x.kind.code()).collect();
    codes.sort();
    assert_eq!(codes, vec![23, 24]);
    assert_eq!(manager.current_turn, Seat::North);
}

#[test]
fn kan_draws_a_replacement_tile() {
    // East discards the red dragon; South holds the other three copies.
    let claimed = t(41, 2);
    let mut east = filler(0);
    east.push(claimed);
    let south = {
        let mut h = filler(1);
        h[0] = t(41, 0);
        h[1] = t(41, 1);
        h[2] = t(41, 3);
        h
    };
    let mut manager = table(east, filler(2), filler(3), south);
    discard(&mut manager, claimed);
    let wall_before = manager.state.wall.len();
    let replacement = *manager.state.wall.last().unwrap();
    let mut w = CallWindow::open(
        Seat::East,
        claimed,
        None,
        None,
        None,
        Some(flags(4, false, false, false, true)),
    );
    w.submit(Seat::South, Action::KAN).unwrap();
    let outcome = resolve(&w);
    manager.apply_resolution(&w, &outcome).unwrap();
    let south_p = manager.get_player(Seat::South).as_ref().unwrap();
    let meld = &south_p.open_melds[0];
    assert_eq!(meld.call, Action::KAN);
    assert_eq!(meld.melded.len(), 3);
    assert!(meld.melded.iter().all(|x| x.kind.code() == 41));
    // three tiles left the hand, the replacement entered it
    assert_eq!(south_p.hand.len(), 11);
    assert!(south_p
        .hand
        .iter()
        .any(|x| x.kind == replacement.kind && x.copy == replacement.copy));
    assert_eq!(manager.state.wall.len(), wall_before - 1);
}

#[test]
fn a_claim_the_hand_cannot_form_changes_nothing() {
    // the oracle wrongly grants South a pon with only one matching tile
    let claimed = t(35, 2);
    let mut east = filler(0);
    east.push(claimed);
    let south = {
        let mut h = filler(1);
        h[0] = t(35, 0);
        h
    };
    let mut manager = table(east, filler(2), filler(3), south);
    discard(&mut manager, claimed);
    let turn_before = manager.state.turn;
    let mut w = CallWindow::open(
        Seat::East,
        claimed,
        None,
        None,
        None,
        Some(flags(4, false, true, false, false)),
    );
    w.submit(Seat::South, Action::PON).unwrap();
    let outcome = resolve(&w);
    match manager.apply_resolution(&w, &outcome) {
        Err(Error::GameActionFailed) => {}
        other => panic!("expected game action failure, got {:?}", other),
    }
    assert_eq!(manager.state.turn, turn_before);
    let east_p = manager.get_player(Seat::East).as_ref().unwrap();
    assert_eq!(east_p.discarded.len(), 1);
    let south_p = manager.get_player(Seat::South).as_ref().unwrap();
    assert!(south_p.open_melds.is_empty());
    assert_eq!(south_p.hand.len(), 13);
}
