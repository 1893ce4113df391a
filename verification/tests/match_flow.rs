use mahjong_core::game::call_window::{resolve, CallWindow, Resolution};
use mahjong_core::game::enums::{Action, Seat, Tile};
use mahjong_core::game::game_action::GameAction;
use mahjong_core::game::match_manager::{MatchManager, MatchStatus, TurnPhase};
use mahjong_core::game::player::{InitialPlayerView, Player};
use mahjong_core::utils::errors::Error;
use mahjong_core::utils::models::JoinRequest;

fn join(manager: &mut MatchManager, id: u64, alias: &str) -> Seat {
    let req = JoinRequest { id, alias: alias.to_string() };
    manager.assign_player(&req).unwrap()
}

fn seated<'a>(manager: &'a MatchManager, seat: Seat) -> &'a Player {
    manager.get_player(seat).as_ref().unwrap()
}

fn start_full_match(seed: u64) -> MatchManager {
    let mut manager = MatchManager::new(seed);
    assert_eq!(join(&mut manager, 1, "a"), Seat::East);
    assert_eq!(join(&mut manager, 2, "b"), Seat::North);
    assert_eq!(join(&mut manager, 3, "c"), Seat::West);
    assert_eq!(join(&mut manager, 4, "d"), Seat::South);
    for seat in [Seat::East, Seat::North, Seat::West, Seat::South] {
        assert!(manager.set_player_ready(seat));
    }
    assert!(manager.check_ready());
    assert_eq!(manager.status, MatchStatus::Ready);
    manager.start_match().unwrap();
    assert_eq!(manager.status, MatchStatus::Ongoing);
    assert_eq!(manager.current_turn, Seat::East);
    manager
}

/// Runs one uncontested turn: the current seat draws, discards the drawn
/// tile, and the empty call window resolves with no winner.
fn quiet_turn(manager: &mut MatchManager) {
    let seat = manager.current_turn;
    let tile = manager.draw(seat).unwrap();
    let action = GameAction { action: Action::DISCARD, target: Some(tile) };
    let discarded = manager.discard(seat, &action).unwrap();
    assert_eq!(discarded, tile);
    let window = CallWindow::open(seat, tile, None, None, None, None);
    assert!(window.all_eligible_answered());
    let outcome = resolve(&window);
    assert!(matches!(outcome, Resolution::NoCall));
    manager.apply_resolution(&window, &outcome).unwrap();
}

#[test]
fn happy_join_deals_thirteen_to_east() {
    let mut manager = MatchManager::new(42);
    let req = JoinRequest { id: 0x1122334455667788, alias: "Bunny".to_string() };
    let seat = manager.assign_player(&req).unwrap();
    assert_eq!(seat, Seat::East);
    let player = seated(&manager, Seat::East);
    assert_eq!(player.id, 0x1122334455667788);
    assert_eq!(player.alias, "Bunny");
    // joining happens over a live connection
    assert!(player.connected);
    let view = InitialPlayerView::get(player);
    assert_eq!(view.seat, Seat::East);
    assert!(view.is_first);
    assert_eq!(view.hand.len(), 13);
    assert_eq!(manager.state.wall.len(), 136 - 13);
}

#[test]
fn fifth_join_is_refused() {
    let mut manager = start_full_match(7);
    let req = JoinRequest { id: 99, alias: "late".to_string() };
    match manager.assign_player(&req) {
        Err(Error::NoAvailableSeats) => {}
        other => panic!("expected no available seats, got {:?}", other),
    }
}

#[test]
fn check_ready_waits_for_all_four() {
    let mut manager = MatchManager::new(1);
    join(&mut manager, 1, "a");
    join(&mut manager, 2, "b");
    assert!(!manager.check_ready());
    assert_eq!(manager.status, MatchStatus::Waiting);
    join(&mut manager, 3, "c");
    join(&mut manager, 4, "d");
    assert!(!manager.check_ready());
    manager.set_player_ready(Seat::East);
    manager.set_player_ready(Seat::North);
    manager.set_player_ready(Seat::West);
    assert!(!manager.check_ready());
    manager.set_player_ready(Seat::South);
    assert!(manager.check_ready());
    assert_eq!(manager.status, MatchStatus::Ready);
    // idempotent
    assert!(manager.check_ready());
    assert_eq!(manager.status, MatchStatus::Ready);
}

#[test]
fn turn_rotation_after_uncalled_discard() {
    let mut manager = start_full_match(3);
    assert_eq!(manager.state.turn, 0);
    quiet_turn(&mut manager);
    assert_eq!(manager.current_turn, Seat::North);
    assert_eq!(manager.state.turn, 1);
    quiet_turn(&mut manager);
    assert_eq!(manager.current_turn, Seat::West);
    assert_eq!(manager.state.turn, 2);
    quiet_turn(&mut manager);
    assert_eq!(manager.current_turn, Seat::South);
    quiet_turn(&mut manager);
    assert_eq!(manager.current_turn, Seat::East);
    assert_eq!(manager.state.turn, 4);
}

#[test]
fn draw_and_discard_reject_wrong_turns() {
    let mut manager = start_full_match(11);
    match manager.draw(Seat::West) {
        Err(Error::DrawFailed(code)) => assert_eq!(code, 163),
        other => panic!("expected draw failure 163, got {:?}", other),
    }
    // discarding before drawing is out of phase
    let some_tile = seated(&manager, Seat::East).hand[0];
    let action = GameAction { action: Action::DISCARD, target: Some(some_tile) };
    match manager.discard(Seat::East, &action) {
        Err(Error::DiscardFailed(code)) => assert_eq!(code, 165),
        other => panic!("expected discard failure 165, got {:?}", other),
    }
    let drawn = manager.draw(Seat::East).unwrap();
    // drawing twice in one turn is refused
    match manager.draw(Seat::East) {
        Err(Error::DrawFailed(code)) => assert_eq!(code, 161),
        other => panic!("expected draw failure 161, got {:?}", other),
    }
    // a tile that is not in the hand cannot be discarded
    let foreign = manager.state.wall[0];
    assert!(!seated(&manager, Seat::East)
        .hand
        .iter()
        .any(|t| t.kind == foreign.kind && t.copy == foreign.copy));
    let bad = GameAction { action: Action::DISCARD, target: Some(foreign) };
    match manager.discard(Seat::East, &bad) {
        Err(Error::DiscardFailed(code)) => assert_eq!(code, 164),
        other => panic!("expected discard failure 164, got {:?}", other),
    }
    // the drawn tile can be discarded
    let ok = GameAction { action: Action::DISCARD, target: Some(drawn) };
    assert_eq!(manager.discard(Seat::East, &ok).unwrap(), drawn);
    assert_eq!(manager.state.last_discard, Some((Seat::East, drawn)));
}

#[test]
fn hands_stay_at_thirteen_between_turns() {
    let mut manager = start_full_match(5);
    for _ in 0..8 {
        quiet_turn(&mut manager);
        for seat in [Seat::East, Seat::North, Seat::West, Seat::South] {
            let p = seated(&manager, seat);
            assert_eq!(p.hand.len() + 3 * p.open_melds.len(), 13);
        }
    }
}

fn count_all_tiles(manager: &MatchManager) -> Vec<(i8, u8)> {
    let mut tiles: Vec<(i8, u8)> = Vec::new();
    let mut push = |t: &Tile, tiles: &mut Vec<(i8, u8)>| tiles.push((t.kind.code(), t.copy));
    for t in manager.state.wall.iter() {
        push(t, &mut tiles);
    }
    for seat in [Seat::East, Seat::North, Seat::West, Seat::South] {
        if let Some(p) = manager.get_player(seat).as_ref() {
            for t in p.hand.iter() {
                push(t, &mut tiles);
            }
            for t in p.discarded.iter() {
                push(t, &mut tiles);
            }
            for m in p.open_melds.iter() {
                push(&m.claimed, &mut tiles);
                for t in m.melded.iter() {
                    push(t, &mut tiles);
                }
            }
        }
    }
    tiles
}

#[test]
fn tiles_are_conserved_through_play() {
    let mut manager = start_full_match(123);
    for _ in 0..6 {
        quiet_turn(&mut manager);
    }
    let mut tiles = count_all_tiles(&manager);
    assert_eq!(tiles.len(), 136);
    tiles.sort();
    tiles.dedup();
    assert_eq!(tiles.len(), 136, "every (kind, copy) pair appears exactly once");
}

#[test]
fn the_same_seed_builds_the_same_wall() {
    let a = MatchManager::new(77);
    let b = MatchManager::new(77);
    let c = MatchManager::new(78);
    let codes = |m: &MatchManager| -> Vec<(i8, u8)> {
        m.state.wall.iter().map(|t| (t.kind.code(), t.copy)).collect()
    };
    assert_eq!(codes(&a), codes(&b));
    assert_ne!(codes(&a), codes(&c));
}

#[test]
fn tsumo_finishes_the_match() {
    let mut manager = start_full_match(9);
    manager.draw(Seat::East).unwrap();
    // an illegal claim is refused
    match manager.tsumo(Seat::East, false) {
        Err(Error::GameActionFailed) => {}
        other => panic!("expected game action failure, got {:?}", other),
    }
    assert_eq!(manager.status, MatchStatus::Ongoing);
    manager.tsumo(Seat::East, true).unwrap();
    assert_eq!(manager.status, MatchStatus::Finished);
    // no transition out of a finished match
    match manager.draw(Seat::East) {
        Err(Error::GameActionFailed) => {}
        other => panic!("expected game action failure, got {:?}", other),
    }
    manager.interrupt();
    assert_eq!(manager.status, MatchStatus::Finished);
}

#[test]
fn exhausting_the_wall_finishes_the_match() {
    let mut manager = start_full_match(31);
    // 84 tiles remain after the deal; play until none are left
    for _ in 0..84 {
        assert_eq!(manager.status, MatchStatus::Ongoing);
        quiet_turn(&mut manager);
    }
    assert_eq!(manager.state.wall.len(), 0);
    let seat = manager.current_turn;
    match manager.draw(seat) {
        Err(Error::DrawFailed(code)) => assert_eq!(code, 162),
        other => panic!("expected draw failure 162, got {:?}", other),
    }
    assert_eq!(manager.status, MatchStatus::Finished);
}

#[test]
fn phase_field_tracks_the_turn() {
    let mut manager = start_full_match(2);
    assert_eq!(manager.phase, TurnPhase::Drawing);
    let t = manager.draw(Seat::East).unwrap();
    assert_eq!(manager.phase, TurnPhase::Discarding);
    let action = GameAction { action: Action::DISCARD, target: Some(t) };
    manager.discard(Seat::East, &action).unwrap();
    assert_eq!(manager.phase, TurnPhase::Calling);
}

#[test]
fn global_packet_ids_increase() {
    let mut manager = MatchManager::new(0);
    assert_eq!(manager.get_global_id(), 1);
    assert_eq!(manager.get_global_id(), 2);
    assert_eq!(manager.get_global_id(), 3);
}

#[test]
fn a_dropped_connection_preserves_the_seat() {
    let mut manager = start_full_match(19);
    quiet_turn(&mut manager);
    let turn_before = manager.state.turn;
    let hand_before: Vec<(i8, u8)> = seated(&manager, Seat::North)
        .hand
        .iter()
        .map(|t| (t.kind.code(), t.copy))
        .collect();
    // the session registry marks the player disconnected but keeps the seat
    assert!(manager.set_player_connected(Seat::North, false));
    assert!(!seated(&manager, Seat::North).connected);
    // a reconnection restores the flag; hand and turn are untouched
    assert!(manager.set_player_connected(Seat::North, true));
    assert!(seated(&manager, Seat::North).connected);
    assert_eq!(manager.state.turn, turn_before);
    let hand_after: Vec<(i8, u8)> = seated(&manager, Seat::North)
        .hand
        .iter()
        .map(|t| (t.kind.code(), t.copy))
        .collect();
    assert_eq!(hand_before, hand_after);
}

#[test]
fn seat_codes_are_stable() {
    assert_eq!(Seat::North.code(), 0);
    assert_eq!(Seat::South.code(), 1);
    assert_eq!(Seat::East.code(), 2);
    assert_eq!(Seat::West.code(), 3);
}
