use vstd::multiset::{group_multiset_axioms, Multiset};
use vstd::prelude::*;
use vstd::seq_lib::{group_to_multiset_ensures, lemma_multiset_commutative};

use crate::game::enums::{kind_code, next_seat, Action, PlayerStatus, Seat, Tile, TileKind};
use crate::game::call_window::{claim_ok, resolution_matches, CallWindow, Resolution};
use crate::game::game_action::GameAction;
use crate::game::game_state::{opt_player_multiset, pool_multiset, GameState, SeatMap};
use crate::game::player::{meld_tiles, melds_multiset, player_multiset, Meld, Player};
use crate::game::wall::full_wall_multiset;
use crate::protocol::packet::le32;
use crate::utils::errors::Error;
use crate::utils::models::JoinRequest;

verus! {

broadcast use group_to_multiset_ensures, group_multiset_axioms;

/// Lifecycle of the one match the server hosts.
#[derive(Clone, Copy, Debug, PartialEq, Eq, Structural)]
pub enum MatchStatus {
    Waiting,
    Ready,
    Ongoing,
    Finished,
    Interrupted,
}

/// The wire code of each status. `Ready` is an intermediate state that the
/// original status vocabulary did not number; it takes the next free code.
pub open spec fn status_code(s: MatchStatus) -> u32 {
    match s {
        MatchStatus::Waiting => 0,
        MatchStatus::Ongoing => 1,
        MatchStatus::Finished => 2,
        MatchStatus::Interrupted => 3,
        MatchStatus::Ready => 4,
    }
}

/// No further transitions happen from these states.
pub open spec fn is_terminal(s: MatchStatus) -> bool {
    s == MatchStatus::Finished || s == MatchStatus::Interrupted
}

impl MatchStatus {
    /// The four-byte little-endian form of the status code, the body of a
    /// status broadcast.
    pub fn bytes(&self) -> (r: [u8; 4])
        ensures
            r@ =~= le32(status_code(*self)),
    {
        let x: u32 = match self {
            MatchStatus::Waiting => 0,
            MatchStatus::Ongoing => 1,
            MatchStatus::Finished => 2,
            MatchStatus::Interrupted => 3,
            MatchStatus::Ready => 4,
        };
        [(x & 0xff) as u8, ((x >> 8) & 0xff) as u8, ((x >> 16) & 0xff) as u8, ((x >> 24)
            & 0xff) as u8]
    }
}

/// Where the current seat stands within its turn. A turn runs draw, then
/// discard, then the call window on that discard.
#[derive(Clone, Copy, Debug, PartialEq, Eq, Structural)]
pub enum TurnPhase {
    Drawing,
    Discarding,
    Calling,
}

/// Sum of the tiles held by the three seats other than `s`.
pub open spec fn pool_rest(pool: SeatMap, s: Seat) -> Multiset<Tile> {
    match s {
        Seat::East => opt_player_multiset(pool.north).add(opt_player_multiset(pool.west)).add(
            opt_player_multiset(pool.south),
        ),
        Seat::North => opt_player_multiset(pool.east).add(opt_player_multiset(pool.west)).add(
            opt_player_multiset(pool.south),
        ),
        Seat::West => opt_player_multiset(pool.east).add(opt_player_multiset(pool.north)).add(
            opt_player_multiset(pool.south),
        ),
        Seat::South => opt_player_multiset(pool.east).add(opt_player_multiset(pool.north)).add(
            opt_player_multiset(pool.west),
        ),
    }
}

/// The pool's tiles split into one seat's share and the rest.
pub proof fn lemma_pool_split(pool: SeatMap, s: Seat)
    ensures
        pool_multiset(pool) =~= pool_rest(pool, s).add(opt_player_multiset(pool.spec_get(s))),
{
}

/// The seat `assign_player` fills next: the first free one in the fixed
/// order East, North, West, South.
pub open spec fn free_seat_spec(pool: SeatMap) -> Option<Seat> {
    if pool.east is None {
        Some(Seat::East)
    } else if pool.north is None {
        Some(Seat::North)
    } else if pool.west is None {
        Some(Seat::West)
    } else if pool.south is None {
        Some(Seat::South)
    } else {
        None
    }
}

/// Every seat is taken and has declared readiness.
pub open spec fn all_ready(pool: SeatMap) -> bool {
    &&& pool.east matches Some(p) && p.player_state == PlayerStatus::READY
    &&& pool.west matches Some(p) && p.player_state == PlayerStatus::READY
    &&& pool.north matches Some(p) && p.player_state == PlayerStatus::READY
    &&& pool.south matches Some(p) && p.player_state == PlayerStatus::READY
}

/// The authoritative owner of the match: the wall, the seats, whose turn it
/// is, the lifecycle status and the server packet-id counter.
#[derive(Debug)]
pub struct MatchManager {
    pub match_id: String,
    pub state: GameState,
    pub current_turn: Seat,
    pub status: MatchStatus,
    pub phase: TurnPhase,
    pub global_id: u32,
}

impl MatchManager {
    /// Every tile the match accounts for: the wall plus all four seats.
    pub open spec fn all_tiles(&self) -> Multiset<Tile> {
        self.state.wall@.to_multiset().add(pool_multiset(self.state.player_pool))
    }

    /// How many tiles `s` must account for in hand, counting each open meld
    /// as three: 14 for the current seat between its draw (or call) and its
    /// discard, 13 otherwise.
    pub open spec fn expected_hand(&self, s: Seat) -> int {
        if self.status == MatchStatus::Ongoing && s == self.current_turn && self.phase
            == TurnPhase::Discarding {
            14
        } else {
            13
        }
    }

    /// What must hold of one seat's record.
    pub open spec fn seat_ok(&self, s: Seat) -> bool {
        match self.state.player_pool.spec_get(s) {
            None => true,
            Some(p) => {
                &&& p.seat == s
                &&& !is_terminal(self.status) ==> p.hand@.len() + 3 * p.open_melds@.len()
                    == self.expected_hand(s)
                &&& (self.status == MatchStatus::Waiting || self.status == MatchStatus::Ready)
                    ==> p.discarded@.len() == 0 && p.open_melds@.len() == 0
            },
        }
    }

    /// The match invariant: tile conservation, hand sizes, a fully dealt
    /// wall account while seats are still joining, full seats once ready,
    /// and a recorded discard while a call window is open.
    pub open spec fn inv(&self) -> bool {
        &&& self.all_tiles() == full_wall_multiset()
        &&& self.seat_ok(Seat::East)
        &&& self.seat_ok(Seat::North)
        &&& self.seat_ok(Seat::West)
        &&& self.seat_ok(Seat::South)
        &&& (self.status == MatchStatus::Waiting || self.status == MatchStatus::Ready)
            ==> self.state.wall@.len() == 136 - 13 * self.state.player_pool.occupied_count()
        &&& (self.status == MatchStatus::Ready || self.status == MatchStatus::Ongoing)
            ==> self.state.player_pool.is_full()
        &&& (self.status == MatchStatus::Ongoing && self.phase == TurnPhase::Calling) ==> {
            &&& self.state.last_discard matches Some((ds, t))
            &&& self.state.player_pool.spec_get(ds) matches Some(dp) && dp.discarded@.len() > 0
                && dp.discarded@.last() == t
        }
    }

    /// A fresh match around a wall permuted by `seed`: waiting for players,
    /// East to act first.
    pub fn new(seed: u64) -> (m: MatchManager)
        ensures
            m.inv(),
            m.status == MatchStatus::Waiting,
            m.state.turn == 0,
            m.state.last_discard is None,
            m.state.player_pool.occupied_count() == 0,
            m.current_turn == Seat::East,
            m.global_id == 0,
            m.state.wall@.len() == 136,
    {
        let state = GameState::start_game(seed);
        let m = MatchManager {
            match_id: String::new(),
            state,
            current_turn: Seat::East,
            status: MatchStatus::Waiting,
            phase: TurnPhase::Drawing,
            global_id: 0,
        };
        proof {
            assert(pool_multiset(m.state.player_pool) =~= Multiset::<Tile>::empty());
            assert(m.all_tiles() =~= full_wall_multiset());
        }
        m
    }

    /// Status transitions funnel through here; once the match is finished
    /// or interrupted nothing changes it.
    fn change_status(&mut self, status: MatchStatus)
        ensures
            is_terminal(old(self).status) ==> *final(self) == *old(self),
            !is_terminal(old(self).status) ==> *final(self) == (MatchManager {
                status,
                ..*old(self)
            }),
    {
        match self.status {
            MatchStatus::Finished => {},
            MatchStatus::Interrupted => {},
            _ => {
                self.status = status;
            },
        }
    }

    /// Abandons the match; does nothing if it already ended.
    pub fn interrupt(&mut self)
        requires
            old(self).inv(),
        ensures
            final(self).inv(),
            is_terminal(old(self).status) ==> *final(self) == *old(self),
            !is_terminal(old(self).status) ==> *final(self) == (MatchManager {
                status: MatchStatus::Interrupted,
                ..*old(self)
            }),
    {
        self.change_status(MatchStatus::Interrupted);
    }

    /// A fresh id for a server-originated packet; the counter never
    /// decreases and sticks at its ceiling rather than wrap.
    pub fn get_global_id(&mut self) -> (r: u32)
        ensures
            old(self).global_id < u32::MAX ==> final(self).global_id == old(self).global_id + 1,
            old(self).global_id == u32::MAX ==> final(self).global_id == u32::MAX,
            r == final(self).global_id,
            *final(self) == (MatchManager { global_id: final(self).global_id, ..*old(self) }),
    {
        if self.global_id < u32::MAX {
            self.global_id = self.global_id + 1;
        }
        self.global_id
    }

    /// Reads one seat's record.
    pub fn get_player(&self, seat: Seat) -> (r: &Option<Player>)
        ensures
            *r == self.state.player_pool.spec_get(seat),
    {
        self.state.player_pool.get(seat)
    }

    /// The first free seat in the fixed order East, North, West, South.
    pub fn get_free_seat(&self) -> (r: Option<Seat>)
        ensures
            r == free_seat_spec(self.state.player_pool),
    {
        if self.state.player_pool.get(Seat::East).is_none() {
            Some(Seat::East)
        } else if self.state.player_pool.get(Seat::North).is_none() {
            Some(Seat::North)
        } else if self.state.player_pool.get(Seat::West).is_none() {
            Some(Seat::West)
        } else if self.state.player_pool.get(Seat::South).is_none() {
            Some(Seat::South)
        } else {
            None
        }
    }

    /// Takes the next 13 tiles off the top of the wall (all of it if fewer
    /// remain), oldest first.
    pub fn get_initial_hand(&mut self) -> (r: Vec<Tile>)
        ensures
            old(self).state.wall@.len() >= 13 ==> {
                &&& final(self).state.wall@ == old(self).state.wall@.subrange(
                    0,
                    old(self).state.wall@.len() - 13,
                )
                &&& r@ == old(self).state.wall@.subrange(
                    old(self).state.wall@.len() - 13,
                    old(self).state.wall@.len() as int,
                )
            },
            old(self).state.wall@.len() < 13 ==> final(self).state.wall@.len() == 0 && r@ == old(self).state.wall@,
            final(self).state.wall@ + r@ =~= old(self).state.wall@,
            *final(self) == (MatchManager {
                state: (GameState { wall: final(self).state.wall, ..old(self).state }),
                ..*old(self)
            }),
    {
        let len = self.state.wall.len();
        let at = if len >= 13 {
            len - 13
        } else {
            0
        };
        let r = self.state.wall.split_off(at);
        proof {
            assert(final(self).state.wall@ + r@ =~= old(self).state.wall@);
        }
        r
    }

    /// Seats a joining player at the first free seat, deals 13 tiles off
    /// the wall into the new hand, and marks the player connected (the join
    /// arrives over a live connection). Fails only when every seat is
    /// taken.
    pub fn assign_player(&mut self, req: &JoinRequest) -> (r: Result<Seat, Error>)
        requires
            old(self).inv(),
        ensures
            final(self).inv(),
            r is Ok <==> free_seat_spec(old(self).state.player_pool) is Some,
            r is Err ==> r == Err::<Seat, Error>(Error::NoAvailableSeats) && *final(self) == *old(self),
            r matches Ok(s) ==> {
                &&& Some(s) == free_seat_spec(old(self).state.player_pool)
                &&& final(self).state.player_pool.spec_get(s) matches Some(p) && p.id == req.id
                    && p.alias@ == req.alias@ && p.player_state == PlayerStatus::WAITING
                    && p.connected && p.seat == s && p.discarded@.len() == 0
                    && p.open_melds@.len() == 0
                &&& forall|s2: Seat|
                    s2 != s ==> final(self).state.player_pool.spec_get(s2) == old(self).state.player_pool.spec_get(s2)
                &&& final(self).status == old(self).status
                &&& final(self).state.turn == old(self).state.turn
                &&& final(self).current_turn == old(self).current_turn
                &&& final(self).state.last_discard == old(self).state.last_discard
            },
            r matches Ok(s) ==> (old(self).state.wall@.len() >= 13 ==> (final(self).state.player_pool.spec_get(s) matches Some(p) && p.hand@ == old(self).state.wall@.subrange(
                old(self).state.wall@.len() - 13,
                old(self).state.wall@.len() as int,
            ) && final(self).state.wall@ == old(self).state.wall@.subrange(
                0,
                old(self).state.wall@.len() - 13,
            ))),
    {
        match self.get_free_seat() {
            None => Err(Error::NoAvailableSeats),
            Some(seat) => {
                let ghost pre = *self;
                let hand = self.get_initial_hand();
                let ghost dealt = hand@;
                let mut player = Player::new(seat, &req, hand);
                player.connected = true;
                proof {
                    lemma_pool_split(self.state.player_pool, seat);
                }
                self.state.player_pool.insert(seat, player);
                proof {
                    lemma_pool_split(self.state.player_pool, seat);
                    assert(player_multiset(player) =~= dealt.to_multiset());
                    assert(pool_rest(self.state.player_pool, seat) =~= pool_rest(
                        pre.state.player_pool,
                        seat,
                    ));
                    assert(opt_player_multiset(pre.state.player_pool.spec_get(seat))
                        =~= Multiset::<Tile>::empty());
                    lemma_multiset_commutative(self.state.wall@, dealt);
                    assert(self.state.wall@ + dealt =~= pre.state.wall@);
                    assert(self.all_tiles() =~= pre.all_tiles());
                    if pre.status == MatchStatus::Waiting || pre.status == MatchStatus::Ready {
                        assert(pre.state.wall@.len() == 136 - 13
                            * pre.state.player_pool.occupied_count());
                        assert(pre.state.wall@.len() >= 13);
                        assert(self.state.player_pool.occupied_count()
                            == pre.state.player_pool.occupied_count() + 1);
                    }
                }
                Ok(seat)
            },
        }
    }

    /// Whether the table is full and every player has declared readiness,
    /// with the numbered reason when it is not.
    fn check_seats(&self) -> (r: Result<(), Error>)
        ensures
            r is Ok <==> self.state.player_pool.is_full() && all_ready(self.state.player_pool),
            self.state.player_pool.occupied_count() != 4 ==> r == Err::<(), Error>(
                Error::MatchStartFailed(151),
            ),
    {
        let occupied: u8 = (if self.state.player_pool.get(Seat::East).is_some() {
            1u8
        } else {
            0u8
        }) + (if self.state.player_pool.get(Seat::North).is_some() {
            1u8
        } else {
            0u8
        }) + (if self.state.player_pool.get(Seat::West).is_some() {
            1u8
        } else {
            0u8
        }) + (if self.state.player_pool.get(Seat::South).is_some() {
            1u8
        } else {
            0u8
        });
        if occupied != 4 {
            return Err(Error::MatchStartFailed(151));
        }
        match self.state.player_pool.get(Seat::East) {
            Some(p) if p.check_ready() => {},
            _ => {
                return Err(Error::MatchStartFailed(152));
            },
        }
        match self.state.player_pool.get(Seat::West) {
            Some(p) if p.check_ready() => {},
            _ => {
                return Err(Error::MatchStartFailed(153));
            },
        }
        match self.state.player_pool.get(Seat::North) {
            Some(p) if p.check_ready() => {},
            _ => {
                return Err(Error::MatchStartFailed(154));
            },
        }
        match self.state.player_pool.get(Seat::South) {
            Some(p) if p.check_ready() => {},
            _ => {
                return Err(Error::MatchStartFailed(155));
            },
        }
        Ok(())
    }

    /// Reports whether the match can start, and moves a waiting match to
    /// `Ready` when it can. Idempotent.
    pub fn check_ready(&mut self) -> (r: bool)
        requires
            old(self).inv(),
        ensures
            final(self).inv(),
            r == (old(self).state.player_pool.is_full() && all_ready(old(self).state.player_pool)),
            r && old(self).status == MatchStatus::Waiting ==> *final(self) == (MatchManager {
                status: MatchStatus::Ready,
                ..*old(self)
            }),
            !(r && old(self).status == MatchStatus::Waiting) ==> *final(self) == *old(self),
    {
        match self.check_seats() {
            Ok(_) => {
                if self.status == MatchStatus::Waiting {
                    self.change_status(MatchStatus::Ready);
                }
                true
            },
            Err(_) => false,
        }
    }

    /// Starts play from a ready table: East's turn, a draw owed.
    pub fn start_match(&mut self) -> (r: Result<(), Error>)
        requires
            old(self).inv(),
        ensures
            final(self).inv(),
            old(self).status == MatchStatus::Ready ==> r is Ok && *final(self) == (MatchManager {
                status: MatchStatus::Ongoing,
                current_turn: Seat::East,
                phase: TurnPhase::Drawing,
                ..*old(self)
            }),
            old(self).status != MatchStatus::Ready ==> r == Err::<(), Error>(
                Error::MatchStartFailed(156),
            ) && *final(self) == *old(self),
    {
        if self.status != MatchStatus::Ready {
            return Err(Error::MatchStartFailed(156));
        }
        self.current_turn = Seat::East;
        self.phase = TurnPhase::Drawing;
        self.change_status(MatchStatus::Ongoing);
        Ok(())
    }

    /// Marks one seat's readiness. Returns false, changing nothing, when the
    /// seat is empty.
    pub fn set_player_ready(&mut self, seat: Seat) -> (r: bool)
        requires
            old(self).inv(),
        ensures
            final(self).inv(),
            r == (old(self).state.player_pool.spec_get(seat) is Some),
            !r ==> *final(self) == *old(self),
            r ==> (old(self).state.player_pool.spec_get(seat) matches Some(p) && final(self).state.player_pool.spec_get(seat) == Some(
                (Player { player_state: PlayerStatus::READY, ..p }),
            )),
            r ==> forall|s2: Seat|
                s2 != seat ==> final(self).state.player_pool.spec_get(s2) == old(self).state.player_pool.spec_get(s2),
            final(self).status == old(self).status,
            final(self).state.turn == old(self).state.turn,
            final(self).current_turn == old(self).current_turn,
            final(self).phase == old(self).phase,
            final(self).state.wall == old(self).state.wall,
            final(self).state.last_discard == old(self).state.last_discard,
    {
        let ghost pre = *self;
        match self.state.player_pool.take(seat) {
            None => false,
            Some(mut p) => {
                p.set_ready();
                proof {
                    lemma_pool_split(pre.state.player_pool, seat);
                }
                self.state.player_pool.insert(seat, p);
                proof {
                    lemma_pool_split(self.state.player_pool, seat);
                    assert(pool_rest(self.state.player_pool, seat) =~= pool_rest(
                        pre.state.player_pool,
                        seat,
                    ));
                    assert(pool_multiset(self.state.player_pool) =~= pool_multiset(
                        pre.state.player_pool,
                    ));
                    assert(self.all_tiles() =~= pre.all_tiles());
                }
                true
            },
        }
    }

    /// Records whether one seat's player is connected. Returns false,
    /// changing nothing, when the seat is empty.
    pub fn set_player_connected(&mut self, seat: Seat, connected: bool) -> (r: bool)
        requires
            old(self).inv(),
        ensures
            final(self).inv(),
            r == (old(self).state.player_pool.spec_get(seat) is Some),
            !r ==> *final(self) == *old(self),
            r ==> (old(self).state.player_pool.spec_get(seat) matches Some(p) && final(self).state.player_pool.spec_get(seat) == Some((Player { connected, ..p }))),
            r ==> forall|s2: Seat|
                s2 != seat ==> final(self).state.player_pool.spec_get(s2) == old(self).state.player_pool.spec_get(s2),
            final(self).status == old(self).status,
            final(self).state.turn == old(self).state.turn,
            final(self).current_turn == old(self).current_turn,
            final(self).phase == old(self).phase,
            final(self).state.wall == old(self).state.wall,
            final(self).state.last_discard == old(self).state.last_discard,
    {
        let ghost pre = *self;
        match self.state.player_pool.take(seat) {
            None => false,
            Some(mut p) => {
                p.connected = connected;
                proof {
                    lemma_pool_split(pre.state.player_pool, seat);
                }
                self.state.player_pool.insert(seat, p);
                proof {
                    lemma_pool_split(self.state.player_pool, seat);
                    assert(pool_rest(self.state.player_pool, seat) =~= pool_rest(
                        pre.state.player_pool,
                        seat,
                    ));
                    assert(pool_multiset(self.state.player_pool) =~= pool_multiset(
                        pre.state.player_pool,
                    ));
                    assert(self.all_tiles() =~= pre.all_tiles());
                }
                true
            },
        }
    }

    /// Closes the turn: hands play to the next seat in rotation and counts
    /// the turn. Runs only while a call window is being resolved with no
    /// winner; the new seat owes a draw.
    pub fn next_turn(&mut self) -> (r: Result<Seat, Error>)
        requires
            old(self).inv(),
        ensures
            final(self).inv(),
            final(self).state.turn >= old(self).state.turn,
            old(self).status != MatchStatus::Ongoing || old(self).phase != TurnPhase::Calling
                ==> r == Err::<Seat, Error>(Error::NextPlayerFailed) && *final(self) == *old(self),
            old(self).status == MatchStatus::Ongoing && old(self).phase == TurnPhase::Calling ==> {
                &&& r == Ok::<Seat, Error>(next_seat(old(self).current_turn))
                &&& old(self).state.turn < u64::MAX ==> final(self).state.turn == old(self).state.turn + 1
                &&& *final(self) == (MatchManager {
                    current_turn: next_seat(old(self).current_turn),
                    phase: TurnPhase::Drawing,
                    state: (GameState { turn: final(self).state.turn, ..old(self).state }),
                    ..*old(self)
                })
            },
    {
        if self.status != MatchStatus::Ongoing {
            return Err(Error::NextPlayerFailed);
        }
        match self.phase {
            TurnPhase::Calling => {},
            _ => {
                return Err(Error::NextPlayerFailed);
            },
        }
        let next = self.current_turn.next();
        self.current_turn = next;
        self.phase = TurnPhase::Drawing;
        if self.state.turn < u64::MAX {
            self.state.turn = self.state.turn + 1;
        }
        Ok(next)
    }

    /// The current seat draws the top wall tile into its hand. Refused out
    /// of turn (163) or out of phase (161); an empty wall ends the round in
    /// an exhaustive draw (162, status `Finished`).
    pub fn draw(&mut self, seat: Seat) -> (r: Result<Tile, Error>)
        requires
            old(self).inv(),
        ensures
            final(self).inv(),
            final(self).state.turn == old(self).state.turn,
            old(self).status != MatchStatus::Ongoing ==> r == Err::<Tile, Error>(
                Error::GameActionFailed,
            ) && *final(self) == *old(self),
            old(self).status == MatchStatus::Ongoing && seat != old(self).current_turn ==> r
                == Err::<Tile, Error>(Error::DrawFailed(163)) && *final(self) == *old(self),
            old(self).status == MatchStatus::Ongoing && seat == old(self).current_turn && old(self).phase != TurnPhase::Drawing ==> r == Err::<Tile, Error>(Error::DrawFailed(161))
                && *final(self) == *old(self),
            old(self).status == MatchStatus::Ongoing && seat == old(self).current_turn && old(self).phase == TurnPhase::Drawing && old(self).state.wall@.len() == 0 ==> r == Err::<
                Tile,
                Error,
            >(Error::DrawFailed(162)) && *final(self) == (MatchManager {
                status: MatchStatus::Finished,
                ..*old(self)
            }),
            old(self).status == MatchStatus::Ongoing && seat == old(self).current_turn && old(self).phase == TurnPhase::Drawing && old(self).state.wall@.len() > 0 ==> {
                &&& r == Ok::<Tile, Error>(old(self).state.wall@.last())
                &&& final(self).state.wall@ == old(self).state.wall@.drop_last()
                &&& old(self).state.player_pool.spec_get(seat) matches Some(p) && final(self).state.player_pool.spec_get(seat) == Some(
                    (Player {
                        hand: final(self).state.player_pool.spec_get(seat).unwrap().hand,
                        ..p
                    }),
                ) && final(self).state.player_pool.spec_get(seat).unwrap().hand@ == p.hand@.push(
                    old(self).state.wall@.last(),
                )
                &&& forall|s2: Seat|
                    s2 != seat ==> final(self).state.player_pool.spec_get(s2) == old(self).state.player_pool.spec_get(s2)
                &&& final(self).phase == TurnPhase::Discarding
                &&& final(self).state.last_discard is None
                &&& final(self).status == MatchStatus::Ongoing
                &&& final(self).current_turn == old(self).current_turn
            },
    {
        if self.status != MatchStatus::Ongoing {
            return Err(Error::GameActionFailed);
        }
        if seat != self.current_turn {
            return Err(Error::DrawFailed(163));
        }
        match self.phase {
            TurnPhase::Drawing => {},
            _ => {
                return Err(Error::DrawFailed(161));
            },
        }
        if self.state.wall.len() == 0 {
            self.change_status(MatchStatus::Finished);
            return Err(Error::DrawFailed(162));
        }
        let ghost pre = *self;
        let tile = match self.state.wall.pop() {
            Some(t) => t,
            None => {
                return Err(Error::DrawFailed(162));
            },
        };
        match self.state.player_pool.take(seat) {
            None => {
                // unreachable: an ongoing match has all seats taken
                proof {
                    assert(false);
                }
                Err(Error::DrawFailed(163))
            },
            Some(mut p) => {
                let ghost p0 = p;
                p.hand.push(tile);
                proof {
                    lemma_pool_split(pre.state.player_pool, seat);
                }
                self.state.player_pool.insert(seat, p);
                self.state.last_discard = None;
                self.phase = TurnPhase::Discarding;
                proof {
                    lemma_pool_split(self.state.player_pool, seat);
                    assert(pool_rest(self.state.player_pool, seat) =~= pool_rest(
                        pre.state.player_pool,
                        seat,
                    ));
                    assert(player_multiset(self.state.player_pool.spec_get(seat).unwrap())
                        =~= player_multiset(p0).insert(tile));
                    assert(pre.state.wall@ =~= pre.state.wall@.drop_last().push(tile));
                    assert(pre.state.wall@.to_multiset() =~= self.state.wall@.to_multiset().insert(
                        tile,
                    ));
                    assert(self.all_tiles() =~= pre.all_tiles());
                }
                Ok(tile)
            },
        }
    }

    /// The current seat discards the targeted tile: it moves from the hand
    /// to the seat's discard row, is recorded as the last discard, and a
    /// call window opens on it. Refused out of turn or phase (165), without
    /// a target, or when the tile is not in hand (164).
    pub fn discard(&mut self, seat: Seat, action: &GameAction) -> (r: Result<Tile, Error>)
        requires
            old(self).inv(),
        ensures
            final(self).inv(),
            final(self).state.turn == old(self).state.turn,
            final(self).status == old(self).status,
            old(self).status != MatchStatus::Ongoing ==> r == Err::<Tile, Error>(
                Error::GameActionFailed,
            ) && *final(self) == *old(self),
            old(self).status == MatchStatus::Ongoing && (seat != old(self).current_turn || old(self).phase != TurnPhase::Discarding) ==> r == Err::<Tile, Error>(Error::DiscardFailed(165))
                && *final(self) == *old(self),
            old(self).status == MatchStatus::Ongoing && seat == old(self).current_turn && old(self).phase == TurnPhase::Discarding && action.target is None ==> r == Err::<Tile, Error>(
                Error::TileParsingFailed,
            ) && *final(self) == *old(self),
            old(self).status == MatchStatus::Ongoing && seat == old(self).current_turn && old(self).phase == TurnPhase::Discarding ==> (action.target matches Some(t) ==> {
                if old(self).state.player_pool.spec_get(seat).unwrap().hand@.contains(t) {
                    &&& r == Ok::<Tile, Error>(t)
                    &&& old(self).state.player_pool.spec_get(seat) matches Some(p) && final(self).state.player_pool.spec_get(seat) matches Some(q) && q.hand@.to_multiset()
                        == p.hand@.to_multiset().remove(t) && q.hand@.len() == p.hand@.len() - 1
                        && q.discarded@ == p.discarded@.push(t) && q.open_melds == p.open_melds
                        && q.seat == p.seat && q.id == p.id && q.player_state == p.player_state
                    &&& forall|s2: Seat|
                        s2 != seat ==> final(self).state.player_pool.spec_get(s2) == old(self).state.player_pool.spec_get(s2)
                    &&& final(self).state.last_discard == Some((seat, t))
                    &&& final(self).phase == TurnPhase::Calling
                    &&& final(self).current_turn == old(self).current_turn
                    &&& final(self).state.wall == old(self).state.wall
                } else {
                    r == Err::<Tile, Error>(Error::DiscardFailed(164)) && *final(self) == *old(self)
                }
            }),
    {
        if self.status != MatchStatus::Ongoing {
            return Err(Error::GameActionFailed);
        }
        if seat != self.current_turn {
            return Err(Error::DiscardFailed(165));
        }
        match self.phase {
            TurnPhase::Discarding => {},
            _ => {
                return Err(Error::DiscardFailed(165));
            },
        }
        let tile = match action.target {
            None => {
                return Err(Error::TileParsingFailed);
            },
            Some(t) => t,
        };
        let ghost pre = *self;
        match self.state.player_pool.take(seat) {
            None => {
                proof {
                    assert(false);
                }
                Err(Error::DiscardFailed(164))
            },
            Some(mut p) => {
                let ghost p0 = p;
                let hit = p.discard_tile(&tile);
                proof {
                    lemma_pool_split(pre.state.player_pool, seat);
                }
                self.state.player_pool.insert(seat, p);
                if !hit {
                    proof {
                        lemma_pool_split(self.state.player_pool, seat);
                        assert(self.state.player_pool =~= pre.state.player_pool);
                        assert(*self =~= pre);
                    }
                    return Err(Error::DiscardFailed(164));
                }
                self.state.last_discard = Some((seat, tile));
                self.phase = TurnPhase::Calling;
                proof {
                    lemma_pool_split(self.state.player_pool, seat);
                    assert(pool_rest(self.state.player_pool, seat) =~= pool_rest(
                        pre.state.player_pool,
                        seat,
                    ));
                    let q = self.state.player_pool.spec_get(seat).unwrap();
                    assert(player_multiset(q) =~= player_multiset(p0));
                    assert(pool_multiset(self.state.player_pool) =~= pool_multiset(
                        pre.state.player_pool,
                    ));
                    assert(self.all_tiles() =~= pre.all_tiles());
                }
                Ok(tile)
            },
        }
    }

    /// Ends the match with a self-drawn win by the current seat, when the
    /// rule oracle found the completed hand legal.
    pub fn tsumo(&mut self, seat: Seat, legal: bool) -> (r: Result<(), Error>)
        requires
            old(self).inv(),
        ensures
            final(self).inv(),
            old(self).status != MatchStatus::Ongoing || seat != old(self).current_turn || old(self).phase != TurnPhase::Discarding || !legal ==> r == Err::<(), Error>(
                Error::GameActionFailed,
            ) && *final(self) == *old(self),
            old(self).status == MatchStatus::Ongoing && seat == old(self).current_turn && old(self).phase == TurnPhase::Discarding && legal ==> r is Ok && *final(self) == (MatchManager {
                status: MatchStatus::Finished,
                ..*old(self)
            }),
    {
        if self.status != MatchStatus::Ongoing {
            return Err(Error::GameActionFailed);
        }
        if seat != self.current_turn {
            return Err(Error::GameActionFailed);
        }
        match self.phase {
            TurnPhase::Discarding => {},
            _ => {
                return Err(Error::GameActionFailed);
            },
        }
        if !legal {
            return Err(Error::GameActionFailed);
        }
        self.change_status(MatchStatus::Finished);
        Ok(())
    }

    /// Applies a resolved call window. No winner hands play to the next
    /// seat; ron claimants end the match; a winning meld call moves the
    /// claimed tile out of the discarder's row into a new meld of the
    /// caller, whose turn begins with a discard owed (a kan first draws its
    /// replacement tile from the wall). A claim the caller's hand cannot
    /// actually form, or a kan on an empty wall, is refused and changes
    /// nothing.
    #[verifier::rlimit(100)]
    pub fn apply_resolution(&mut self, w: &CallWindow, r: &Resolution) -> (res: Result<(), Error>)
        requires
            old(self).inv(),
            w.wf(),
            resolution_matches(w.claims@, *r),
            old(self).status == MatchStatus::Ongoing,
            old(self).phase == TurnPhase::Calling,
            old(self).state.last_discard == Some((w.discarder, w.tile)),
            w.discarder == old(self).current_turn,
        ensures
            final(self).inv(),
            final(self).state.turn >= old(self).state.turn,
            r is NoCall ==> res is Ok && *final(self) == (MatchManager {
                current_turn: next_seat(old(self).current_turn),
                phase: TurnPhase::Drawing,
                state: (GameState { turn: final(self).state.turn, ..old(self).state }),
                ..*old(self)
            }) && (old(self).state.turn < u64::MAX ==> final(self).state.turn == old(self).state.turn + 1),
            r matches Resolution::Ron(_) ==> res is Ok && *final(self) == (MatchManager {
                status: MatchStatus::Finished,
                ..*old(self)
            }),
            r matches Resolution::Meld(cs, ca) ==> (old(self).state.player_pool.spec_get(*cs) matches Some(p) ==> ({
                if can_form_call(p.hand@, *ca, w.tile, old(self).state.wall@.len() as int) {
                    &&& res is Ok
                    &&& (final(self).state.player_pool.spec_get(*cs) matches Some(q) && {
                        &&& q.open_melds@.len() == p.open_melds@.len() + 1
                        &&& q.open_melds@.drop_last() == p.open_melds@
                        &&& q.open_melds@.last().call == *ca
                        &&& q.open_melds@.last().from_seat == w.discarder
                        &&& q.open_melds@.last().claimed == w.tile
                        &&& q.open_melds@.last().melded@.len() == (if *ca == Action::KAN {
                            3int
                        } else {
                            2int
                        })
                        &&& (*ca != Action::CHI ==> forall|x: int|
                            0 <= x < q.open_melds@.last().melded@.len() ==> (
                            #[trigger] q.open_melds@.last().melded@[x]).kind == w.tile.kind)
                        &&& (*ca == Action::CHI ==> chi_pair_spec(
                            p.hand@,
                            kind_code(w.tile.kind) as int,
                        ) == Some(
                            ((
                                kind_code(q.open_melds@.last().melded@[0].kind) as int,
                                kind_code(q.open_melds@.last().melded@[1].kind) as int,
                            )),
                        ))
                        &&& q.hand@.len() == p.hand@.len() - 2
                        &&& (*ca != Action::KAN ==> p.hand@.to_multiset() == q.hand@.to_multiset().add(
                            q.open_melds@.last().melded@.to_multiset(),
                        ))
                        &&& (*ca == Action::KAN ==> p.hand@.to_multiset().insert(
                            old(self).state.wall@.last(),
                        ) == q.hand@.to_multiset().add(q.open_melds@.last().melded@.to_multiset()))
                        &&& q.discarded == p.discarded
                        &&& q.id == p.id && q.seat == p.seat && q.player_state == p.player_state
                    })
                    &&& (old(self).state.player_pool.spec_get(w.discarder) matches Some(dp)
                        && final(self).state.player_pool.spec_get(w.discarder) matches Some(dq)
                        && dq.discarded@ == dp.discarded@.drop_last() && dq.hand == dp.hand
                        && dq.open_melds == dp.open_melds)
                    &&& forall|s2: Seat|
                        s2 != *cs && s2 != w.discarder ==> final(self).state.player_pool.spec_get(
                            s2,
                        ) == old(self).state.player_pool.spec_get(s2)
                    &&& final(self).current_turn == *cs
                    &&& final(self).phase == TurnPhase::Discarding
                    &&& final(self).state.last_discard is None
                    &&& final(self).status == MatchStatus::Ongoing
                    &&& (*ca == Action::KAN ==> final(self).state.wall@ == old(self).state.wall@.drop_last())
                    &&& (*ca != Action::KAN ==> final(self).state.wall == old(self).state.wall)
                    &&& (old(self).state.turn < u64::MAX ==> final(self).state.turn == old(self).state.turn + 1)
                } else {
                    res == Err::<(), Error>(Error::GameActionFailed) && *final(self) == *old(self)
                }
            })),
            r matches Resolution::Meld(cs, ca) ==> (*ca == Action::CHI && res is Ok ==> *cs
                == next_seat(w.discarder)),
    {
        match r {
            Resolution::NoCall => {
                match self.next_turn() {
                    Ok(_) => Ok(()),
                    Err(e) => {
                        proof {
                            assert(false);
                        }
                        Err(e)
                    },
                }
            },
            Resolution::Ron(_) => {
                self.change_status(MatchStatus::Finished);
                Ok(())
            },
            Resolution::Meld(s0, a0) => {
                let seat = *s0;
                let act = *a0;
                proof {
                    let ci = choose|i: int|
                        0 <= i < w.claims@.len() && w.claims@[i] == (seat, act) && (forall|j: int|
                            0 <= j < i ==> w.claims@[j].1 != act);
                    assert(claim_ok(*w, w.claims@[ci]));
                    assert(seat != w.discarder);
                    if act == Action::CHI {
                        let f = w.offer(seat).unwrap();
                        assert(f.chi);
                        assert(seat == next_seat(w.discarder));
                    }
                }
                self.apply_meld(w.discarder, w.tile, seat, act)
            },
        }
    }
    /// Performs a winning meld call by `seat` on the discard `(discarder,
    /// tile)`: the claimed tile leaves the discarder's row for a new meld of
    /// the caller, who plays next and owes a discard; a kan first draws its
    /// replacement tile. A claim the hand cannot form, or a kan on an empty
    /// wall, is refused and changes nothing.
    #[verifier::rlimit(100)]
    fn apply_meld(&mut self, discarder: Seat, tile: Tile, seat: Seat, act: Action) -> (res: Result<
        (),
        Error,
    >)
        requires
            old(self).inv(),
            old(self).status == MatchStatus::Ongoing,
            old(self).phase == TurnPhase::Calling,
            old(self).state.last_discard == Some((discarder, tile)),
            discarder == old(self).current_turn,
            seat != discarder,
            act == Action::PON || act == Action::KAN || act == Action::CHI,
        ensures
            final(self).inv(),
            final(self).state.turn >= old(self).state.turn,
            old(self).state.player_pool.spec_get(seat) matches Some(p) ==> ({
                if can_form_call(p.hand@, act, tile, old(self).state.wall@.len() as int) {
                    &&& res is Ok
                    &&& (final(self).state.player_pool.spec_get(seat) matches Some(q) && {
                        &&& q.open_melds@.len() == p.open_melds@.len() + 1
                        &&& q.open_melds@.drop_last() == p.open_melds@
                        &&& q.open_melds@.last().call == act
                        &&& q.open_melds@.last().from_seat == discarder
                        &&& q.open_melds@.last().claimed == tile
                        &&& q.open_melds@.last().melded@.len() == (if act == Action::KAN {
                            3int
                        } else {
                            2int
                        })
                        &&& (act != Action::CHI ==> forall|x: int|
                            0 <= x < q.open_melds@.last().melded@.len() ==> (
                            #[trigger] q.open_melds@.last().melded@[x]).kind == tile.kind)
                        &&& (act == Action::CHI ==> chi_pair_spec(
                            p.hand@,
                            kind_code(tile.kind) as int,
                        ) == Some(
                            ((
                                kind_code(q.open_melds@.last().melded@[0].kind) as int,
                                kind_code(q.open_melds@.last().melded@[1].kind) as int,
                            )),
                        ))
                        &&& q.hand@.len() == p.hand@.len() - 2
                        &&& (act != Action::KAN ==> p.hand@.to_multiset() == q.hand@.to_multiset().add(
                            q.open_melds@.last().melded@.to_multiset(),
                        ))
                        &&& (act == Action::KAN ==> p.hand@.to_multiset().insert(
                            old(self).state.wall@.last(),
                        ) == q.hand@.to_multiset().add(q.open_melds@.last().melded@.to_multiset()))
                        &&& q.discarded == p.discarded
                        &&& q.id == p.id && q.seat == p.seat && q.player_state == p.player_state
                    })
                    &&& (old(self).state.player_pool.spec_get(discarder) matches Some(dp)
                        && final(self).state.player_pool.spec_get(discarder) matches Some(dq)
                        && dq.discarded@ == dp.discarded@.drop_last() && dq.hand == dp.hand
                        && dq.open_melds == dp.open_melds)
                    &&& forall|s2: Seat|
                        s2 != seat && s2 != discarder ==> final(self).state.player_pool.spec_get(
                            s2,
                        ) == old(self).state.player_pool.spec_get(s2)
                    &&& final(self).current_turn == seat
                    &&& final(self).phase == TurnPhase::Discarding
                    &&& final(self).state.last_discard is None
                    &&& final(self).status == MatchStatus::Ongoing
                    &&& (act == Action::KAN ==> final(self).state.wall@ == old(self).state.wall@.drop_last())
                    &&& (act != Action::KAN ==> final(self).state.wall == old(self).state.wall)
                    &&& (old(self).state.turn < u64::MAX ==> final(self).state.turn == old(self).state.turn + 1)
                } else {
                    res == Err::<(), Error>(Error::GameActionFailed) && *final(self) == *old(self)
                }
            }),
    {
        if act == Action::KAN && self.state.wall.len() == 0 {
            return Err(Error::GameActionFailed);
        }
        let ghost pre = *self;
        let mut caller = match self.state.player_pool.take(seat) {
            Some(p) => p,
            None => {
                proof {
                    assert(false);
                }
                return Err(Error::GameActionFailed);
            },
        };
        let ghost caller0 = caller;
        let melded = match extract_meld_tiles(&mut caller.hand, act, tile) {
            None => {
                self.state.player_pool.insert(seat, caller);
                proof {
                    assert(self.state.player_pool =~= pre.state.player_pool);
                    assert(*self =~= pre);
                }
                return Err(Error::GameActionFailed);
            },
            Some(m) => m,
        };
        let ghost melded_seq = melded@;
        let meld = Meld { call: act, from_seat: discarder, claimed: tile, melded };
        let ghost melds0 = caller.open_melds@;
        caller.open_melds.push(meld);
        proof {
            assert(caller.open_melds@.drop_last() =~= melds0);
            assert(caller.open_melds@.last() == meld);
            assert(melds_multiset(caller.open_melds@) =~= melds_multiset(melds0).add(
                meld_tiles(meld).to_multiset(),
            ));
            lemma_multiset_commutative(seq![meld.claimed], meld.melded@);
            assert(seq![meld.claimed] =~= Seq::empty().push(meld.claimed));
            assert(Seq::<Tile>::empty().to_multiset() =~= Multiset::<Tile>::empty());
            assert(meld_tiles(meld).to_multiset() =~= Multiset::empty().insert(
                tile,
            ).add(melded_seq.to_multiset()));
        }
        if act == Action::KAN {
            let rep = match self.state.wall.pop() {
                Some(t) => t,
                None => {
                    proof {
                        assert(false);
                    }
                    return Err(Error::GameActionFailed);
                },
            };
            caller.hand.push(rep);
            proof {
                assert(pre.state.wall@ =~= self.state.wall@.push(rep));
                assert(pre.state.wall@.to_multiset()
                    =~= self.state.wall@.to_multiset().insert(rep));
            }
        }
        proof {
            lemma_pool_split(pre.state.player_pool, seat);
        }
        self.state.player_pool.insert(seat, caller);
        let ghost pool1 = self.state.player_pool;
        proof {
            lemma_pool_split(pool1, seat);
            assert(pool_rest(pool1, seat) =~= pool_rest(pre.state.player_pool, seat));
            if act == Action::KAN {
                assert(player_multiset(caller) =~= player_multiset(caller0).insert(
                    tile,
                ).insert(pre.state.wall@.last()));
            } else {
                assert(player_multiset(caller) =~= player_multiset(caller0).insert(tile));
            }
        }
        let mut dp = match self.state.player_pool.take(discarder) {
            Some(p) => p,
            None => {
                proof {
                    assert(false);
                }
                return Err(Error::GameActionFailed);
            },
        };
        let ghost dp0 = dp;
        let _ = dp.discarded.pop();
        proof {
            assert(dp0.discarded@ =~= dp.discarded@.push(tile));
            assert(dp0.discarded@.to_multiset() =~= dp.discarded@.to_multiset().insert(
                tile,
            ));
            assert(player_multiset(dp0) =~= player_multiset(dp).insert(tile));
            lemma_pool_split(pool1, discarder);
        }
        self.state.player_pool.insert(discarder, dp);
        proof {
            lemma_pool_split(self.state.player_pool, discarder);
            assert(pool_rest(self.state.player_pool, discarder) =~= pool_rest(
                pool1,
                discarder,
            ));
            if act == Action::KAN {
                assert(pool_multiset(self.state.player_pool) =~= pool_multiset(
                    pre.state.player_pool,
                ).insert(pre.state.wall@.last()));
            } else {
                assert(pool_multiset(self.state.player_pool) =~= pool_multiset(
                    pre.state.player_pool,
                ));
            }
        }
        self.state.last_discard = None;
        self.current_turn = seat;
        self.phase = TurnPhase::Discarding;
        if self.state.turn < u64::MAX {
            self.state.turn = self.state.turn + 1;
        }
        proof {
            assert(self.all_tiles() =~= pre.all_tiles());
            assert(self.seat_ok(Seat::East));
            assert(self.seat_ok(Seat::North));
            assert(self.seat_ok(Seat::West));
            assert(self.seat_ok(Seat::South));
        }
        Ok(())
    }
}


/// A suited tile code: bamboos, circles or characters, ranks 1 through 9.
pub open spec fn suited_code(c: int) -> bool {
    11 <= c <= 19 || 21 <= c <= 29 || 31 <= c <= 39
}

/// Two suited codes of the same suit.
pub open spec fn same_suit(c: int, d: int) -> bool {
    suited_code(c) && suited_code(d) && c / 10 == d / 10
}

/// Some hand tile carries the kind code `c`.
pub open spec fn has_kind_code(hand: Seq<Tile>, c: int) -> bool {
    exists|i: int| 0 <= i < hand.len() && kind_code(hand[i].kind) == c
}

/// The pair of hand-tile codes a chi on code `c` consumes: the lowest run
/// the hand can complete, trying the runs below, around, then above the
/// claimed tile.
pub open spec fn chi_pair_spec(hand: Seq<Tile>, c: int) -> Option<(int, int)> {
    if !suited_code(c) {
        None
    } else if same_suit(c, c - 2) && has_kind_code(hand, c - 2) && has_kind_code(hand, c - 1) {
        Some((c - 2, c - 1))
    } else if same_suit(c, c - 1) && same_suit(c, c + 1) && has_kind_code(hand, c - 1)
        && has_kind_code(hand, c + 1) {
        Some((c - 1, c + 1))
    } else if same_suit(c, c + 2) && has_kind_code(hand, c + 1) && has_kind_code(hand, c + 2) {
        Some((c + 1, c + 2))
    } else {
        None
    }
}

/// The hand holds two tiles of kind `k`.
pub open spec fn has_two_of_kind(hand: Seq<Tile>, k: TileKind) -> bool {
    exists|i: int, j: int|
        0 <= i < j < hand.len() && hand[i].kind == k && hand[j].kind == k
}

/// The hand holds three tiles of kind `k`.
pub open spec fn has_three_of_kind(hand: Seq<Tile>, k: TileKind) -> bool {
    exists|i: int, j: int, l: int|
        0 <= i < j < hand.len() && j < l < hand.len() && hand[i].kind == k && hand[j].kind == k
            && hand[l].kind == k
}

/// The first hand position at or after `start` holding kind `k`.
fn find_kind_from(hand: &Vec<Tile>, k: TileKind, start: usize) -> (r: Option<usize>)
    requires
        start <= hand@.len(),
    ensures
        r matches Some(i) ==> start <= i < hand@.len() && hand@[i as int].kind == k && (forall|
            j: int,
        | start <= j < i ==> hand@[j].kind != k),
        r is None ==> forall|j: int| start <= j < hand@.len() ==> hand@[j].kind != k,
{
    let mut i = start;
    while i < hand.len()
        invariant
            start <= i <= hand@.len(),
            forall|j: int| start <= j < i ==> hand@[j].kind != k,
        decreases hand@.len() - i,
    {
        if hand[i].kind == k {
            return Some(i);
        }
        i = i + 1;
    }
    None
}

/// Whether some hand tile carries the code `c`.
fn has_code(hand: &Vec<Tile>, c: i8) -> (r: bool)
    ensures
        r == has_kind_code(hand@, c as int),
{
    let mut i: usize = 0;
    while i < hand.len()
        invariant
            i <= hand@.len(),
            forall|j: int| 0 <= j < i ==> kind_code(hand@[j].kind) != c,
        decreases hand@.len() - i,
    {
        if hand[i].kind.code() == c {
            return true;
        }
        i = i + 1;
    }
    false
}

/// The executable form of `chi_pair_spec`, returning the two kinds to pull
/// from the hand.
fn chi_pair(hand: &Vec<Tile>, kind: TileKind) -> (r: Option<(TileKind, TileKind)>)
    ensures
        r is Some <==> chi_pair_spec(hand@, kind_code(kind) as int) is Some,
        r matches Some(p) ==> chi_pair_spec(hand@, kind_code(kind) as int) == Some(
            ((kind_code(p.0) as int, kind_code(p.1) as int)),
        ),
{
    let c = kind.code();
    let suited = (11 <= c && c <= 19) || (21 <= c && c <= 29) || (31 <= c && c <= 39);
    if !suited {
        return None;
    }
    let lo: i8 = (c / 10) * 10 + 1;
    if c - 2 >= lo && has_code(hand, c - 2) && has_code(hand, c - 1) {
        match (TileKind::parse(c - 2), TileKind::parse(c - 1)) {
            (Some(k1), Some(k2)) => Some((k1, k2)),
            _ => {
                proof {
                    assert(false);
                }
                None
            },
        }
    } else if c - 1 >= lo && c + 1 <= lo + 8 && has_code(hand, c - 1) && has_code(hand, c + 1) {
        match (TileKind::parse(c - 1), TileKind::parse(c + 1)) {
            (Some(k1), Some(k2)) => Some((k1, k2)),
            _ => {
                proof {
                    assert(false);
                }
                None
            },
        }
    } else if c + 2 <= lo + 8 && has_code(hand, c + 1) && has_code(hand, c + 2) {
        match (TileKind::parse(c + 1), TileKind::parse(c + 2)) {
            (Some(k1), Some(k2)) => Some((k1, k2)),
            _ => {
                proof {
                    assert(false);
                }
                None
            },
        }
    } else {
        None
    }
}

/// Whether the caller's hand alone supports the call `a` on kind `k`.
pub open spec fn hand_supports(hand: Seq<Tile>, a: Action, k: TileKind) -> bool {
    match a {
        Action::PON => has_two_of_kind(hand, k),
        Action::KAN => has_three_of_kind(hand, k),
        Action::CHI => chi_pair_spec(hand, kind_code(k) as int) is Some,
        _ => false,
    }
}

/// Whether the caller's hand (and, for a kan, the wall) supports the call
/// `a` on the discarded tile `t`.
pub open spec fn can_form_call(hand: Seq<Tile>, a: Action, t: Tile, wall_len: int) -> bool {
    hand_supports(hand, a, t.kind) && (a == Action::KAN ==> wall_len > 0)
}

/// Pulls out of `hand` the tiles that a call locks into the new meld: the
/// first two (kan: three) tiles of the claimed kind, or the first tile of
/// each kind of the chosen chi run. Returns them in hand order, or changes
/// nothing when the hand cannot form the call.
#[verifier::rlimit(100)]
fn extract_meld_tiles(hand: &mut Vec<Tile>, act: Action, tile: Tile) -> (r: Option<Vec<Tile>>)
    requires
        act == Action::PON || act == Action::KAN || act == Action::CHI,
    ensures
        r is Some <==> hand_supports(old(hand)@, act, tile.kind),
        r is None ==> *final(hand) == *old(hand),
        r matches Some(m) ==> {
            &&& m@.len() == (if act == Action::KAN {
                3int
            } else {
                2int
            })
            &&& (act != Action::CHI ==> forall|x: int|
                0 <= x < m@.len() ==> (#[trigger] m@[x]).kind == tile.kind)
            &&& (act == Action::CHI ==> chi_pair_spec(old(hand)@, kind_code(tile.kind) as int)
                == Some(((kind_code(m@[0].kind) as int, kind_code(m@[1].kind) as int))))
            &&& old(hand)@.to_multiset() == final(hand)@.to_multiset().add(m@.to_multiset())
            &&& final(hand)@.len() == old(hand)@.len() - m@.len()
        },
{
    let ghost hand0 = hand@;
    let mut melded: Vec<Tile> = Vec::new();
    match act {
        Action::PON => {
            let i1 = match find_kind_from(hand, tile.kind, 0) {
                None => {
                    proof {
                        assert(!has_two_of_kind(hand0, tile.kind));
                    }
                    return None;
                },
                Some(i) => i,
            };
            let hn = hand.len();
            proof {
                assert(i1 < hn);
            }
            let i2 = match find_kind_from(hand, tile.kind, i1 + 1) {
                None => {
                    proof {
                        if has_two_of_kind(hand0, tile.kind) {
                            let (x, y) = choose|x: int, y: int|
                                0 <= x < y < hand0.len() && hand0[x].kind == tile.kind
                                    && hand0[y].kind == tile.kind;
                            assert(x >= i1);
                            assert(y > i1);
                            assert(false);
                        }
                    }
                    return None;
                },
                Some(i) => i,
            };
            let t1 = hand[i1];
            let t2 = hand[i2];
            let ghost mid = hand0.remove(i2 as int);
            let removed2 = hand.remove(i2);
            let removed1 = hand.remove(i1);
            proof {
                assert(mid[i1 as int] == hand0[i1 as int]);
                assert(hand@.to_multiset() == hand0.to_multiset().remove(t2).remove(t1));
            }
            melded.push(removed1);
            melded.push(removed2);
            proof {
                assert(melded@ =~= Seq::empty().push(t1).push(t2));
                assert(Seq::<Tile>::empty().to_multiset() =~= Multiset::<Tile>::empty());
                assert(melded@.to_multiset() =~= Multiset::empty().insert(t1).insert(t2));
                assert(hand0.to_multiset().contains(t2));
                assert(mid.to_multiset().contains(t1));
                assert(hand0.to_multiset() =~= hand@.to_multiset().add(melded@.to_multiset()));
            }
            Some(melded)
        },
        Action::KAN => {
            let i1 = match find_kind_from(hand, tile.kind, 0) {
                None => {
                    proof {
                        assert(!has_three_of_kind(hand0, tile.kind));
                    }
                    return None;
                },
                Some(i) => i,
            };
            let hn = hand.len();
            proof {
                assert(i1 < hn);
            }
            let i2 = match find_kind_from(hand, tile.kind, i1 + 1) {
                None => {
                    proof {
                        if has_three_of_kind(hand0, tile.kind) {
                            let (x, y, z) = choose|x: int, y: int, z: int|
                                0 <= x < y < hand0.len() && y < z < hand0.len() && hand0[x].kind
                                    == tile.kind && hand0[y].kind == tile.kind && hand0[z].kind
                                    == tile.kind;
                            assert(x >= i1);
                            assert(y > i1);
                            assert(false);
                        }
                    }
                    return None;
                },
                Some(i) => i,
            };
            proof {
                assert(i2 < hn);
            }
            let i3 = match find_kind_from(hand, tile.kind, i2 + 1) {
                None => {
                    proof {
                        if has_three_of_kind(hand0, tile.kind) {
                            let (x, y, z) = choose|x: int, y: int, z: int|
                                0 <= x < y < hand0.len() && y < z < hand0.len() && hand0[x].kind
                                    == tile.kind && hand0[y].kind == tile.kind && hand0[z].kind
                                    == tile.kind;
                            assert(x >= i1);
                            assert(y >= i2);
                            assert(z > i2);
                            assert(false);
                        }
                    }
                    return None;
                },
                Some(i) => i,
            };
            let t1 = hand[i1];
            let t2 = hand[i2];
            let t3 = hand[i3];
            let ghost mid3 = hand0.remove(i3 as int);
            let removed3 = hand.remove(i3);
            let ghost mid2 = mid3.remove(i2 as int);
            let removed2 = hand.remove(i2);
            let removed1 = hand.remove(i1);
            proof {
                assert(mid3[i2 as int] == hand0[i2 as int]);
                assert(mid3[i1 as int] == hand0[i1 as int]);
                assert(mid2[i1 as int] == hand0[i1 as int]);
                assert(hand@.to_multiset() == hand0.to_multiset().remove(t3).remove(t2).remove(
                    t1,
                ));
            }
            melded.push(removed1);
            melded.push(removed2);
            melded.push(removed3);
            proof {
                assert(melded@ =~= Seq::empty().push(t1).push(t2).push(t3));
                assert(Seq::<Tile>::empty().to_multiset() =~= Multiset::<Tile>::empty());
                assert(melded@.to_multiset() =~= Multiset::empty().insert(t1).insert(t2).insert(
                    t3,
                ));
                assert(hand0.to_multiset().contains(t3));
                assert(mid3.to_multiset().contains(t2));
                assert(mid2.to_multiset().contains(t1));
                assert(hand0.to_multiset() =~= hand@.to_multiset().add(melded@.to_multiset()));
            }
            Some(melded)
        },
        _ => {
            let (k1, k2) = match chi_pair(hand, tile.kind) {
                None => {
                    return None;
                },
                Some(p) => p,
            };
            proof {
                assert(has_kind_code(hand0, kind_code(k1) as int));
                assert(has_kind_code(hand0, kind_code(k2) as int));
            }
            let j1 = match find_kind_from(hand, k1, 0) {
                None => {
                    proof {
                        let x = choose|x: int|
                            0 <= x < hand0.len() && kind_code(hand0[x].kind) == kind_code(k1);
                        assert(hand0[x].kind == k1 || kind_code(hand0[x].kind) != kind_code(
                            hand0[x].kind,
                        ));
                        assert(false);
                    }
                    return None;
                },
                Some(i) => i,
            };
            let j2 = match find_kind_from(hand, k2, 0) {
                None => {
                    proof {
                        let x = choose|x: int|
                            0 <= x < hand0.len() && kind_code(hand0[x].kind) == kind_code(k2);
                        assert(false);
                    }
                    return None;
                },
                Some(i) => i,
            };
            proof {
                assert(kind_code(k1) != kind_code(k2));
                assert(j1 != j2);
            }
            let t1 = hand[j1];
            let t2 = hand[j2];
            let (lo, hi) = if j1 < j2 {
                (j1, j2)
            } else {
                (j2, j1)
            };
            let ghost mid = hand0.remove(hi as int);
            let thi = hand.remove(hi);
            let tlo = hand.remove(lo);
            proof {
                assert(mid[lo as int] == hand0[lo as int]);
                assert(hand@.to_multiset() == hand0.to_multiset().remove(hand0[hi as int]).remove(
                    hand0[lo as int],
                ));
            }
            melded.push(t1);
            melded.push(t2);
            proof {
                assert(melded@ =~= Seq::empty().push(t1).push(t2));
                assert(Seq::<Tile>::empty().to_multiset() =~= Multiset::<Tile>::empty());
                assert(melded@.to_multiset() =~= Multiset::empty().insert(t1).insert(t2));
                assert(hand0.to_multiset().contains(hand0[hi as int]));
                assert(mid.to_multiset().contains(hand0[lo as int]));
                assert((hand0[hi as int] == t1 && hand0[lo as int] == t2) || (hand0[hi as int]
                    == t2 && hand0[lo as int] == t1));
                assert(hand0.to_multiset() =~= hand@.to_multiset().add(melded@.to_multiset()));
            }
            Some(melded)
        },
    }
}

/// Tile conservation: in every state the invariant admits, the wall, all
/// hands, all discard rows and all open melds together are exactly the
/// canonical 136-tile set.
pub proof fn lemma_tile_conservation(m: MatchManager)
    requires
        m.inv(),
    ensures
        m.all_tiles() == full_wall_multiset(),
        m.all_tiles().len() == 136,
{
    broadcast use vstd::seq_lib::group_to_multiset_ensures;

    assert(full_wall_multiset().len() == 136);
}

/// Hand sizes: while the match runs, a seat not currently on turn accounts
/// in hand for 13 tiles less three per open meld; the current seat holds
/// one more between its draw (or winning call) and its discard.
pub proof fn lemma_hand_sizes(m: MatchManager, s: Seat)
    requires
        m.inv(),
        m.status == MatchStatus::Ongoing,
        m.state.player_pool.spec_get(s) is Some,
    ensures
        m.state.player_pool.spec_get(s) matches Some(p) ==> p.hand@.len() + 3
            * p.open_melds@.len() == (if s == m.current_turn && m.phase == TurnPhase::Discarding {
            14int
        } else {
            13int
        }),
{
}
} // verus!



