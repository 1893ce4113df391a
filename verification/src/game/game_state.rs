use vstd::multiset::Multiset;
use vstd::prelude::*;

use crate::game::enums::{Seat, Tile};
use crate::game::player::{player_multiset, Player};
use crate::game::wall::{build_wall, full_wall_multiset, shuffle_wall};

verus! {

broadcast use vstd::seq_lib::group_to_multiset_ensures;

/// At most one player per seat.
#[derive(Debug)]
pub struct SeatMap {
    pub east: Option<Player>,
    pub north: Option<Player>,
    pub west: Option<Player>,
    pub south: Option<Player>,
}

/// The tiles a possibly empty seat accounts for.
pub open spec fn opt_player_multiset(p: Option<Player>) -> Multiset<Tile> {
    match p {
        None => Multiset::empty(),
        Some(p) => player_multiset(p),
    }
}

/// The tiles all four seats account for together.
pub open spec fn pool_multiset(pool: SeatMap) -> Multiset<Tile> {
    opt_player_multiset(pool.east).add(opt_player_multiset(pool.north)).add(
        opt_player_multiset(pool.west),
    ).add(opt_player_multiset(pool.south))
}

impl SeatMap {
    /// The record seated at `s`.
    pub open spec fn spec_get(self, s: Seat) -> Option<Player> {
        match s {
            Seat::East => self.east,
            Seat::North => self.north,
            Seat::West => self.west,
            Seat::South => self.south,
        }
    }

    /// How many seats are taken.
    pub open spec fn occupied_count(self) -> int {
        (if self.east is Some {
            1int
        } else {
            0int
        }) + (if self.north is Some {
            1int
        } else {
            0int
        }) + (if self.west is Some {
            1int
        } else {
            0int
        }) + (if self.south is Some {
            1int
        } else {
            0int
        })
    }

    /// Every seat is taken.
    pub open spec fn is_full(self) -> bool {
        self.east is Some && self.north is Some && self.west is Some && self.south is Some
    }

    /// An empty table.
    pub fn new() -> (r: SeatMap)
        ensures
            r.east is None && r.north is None && r.west is None && r.south is None,
    {
        SeatMap { east: None, north: None, west: None, south: None }
    }

    /// Reads one seat.
    pub fn get(&self, s: Seat) -> (r: &Option<Player>)
        ensures
            *r == self.spec_get(s),
    {
        match s {
            Seat::East => &self.east,
            Seat::North => &self.north,
            Seat::West => &self.west,
            Seat::South => &self.south,
        }
    }

    /// Seats `p` at `s`, replacing whatever was there.
    pub fn insert(&mut self, s: Seat, p: Player)
        ensures
            final(self).spec_get(s) == Some(p),
            forall|s2: Seat| s2 != s ==> final(self).spec_get(s2) == old(self).spec_get(s2),
    {
        match s {
            Seat::East => {
                self.east = Some(p);
            },
            Seat::North => {
                self.north = Some(p);
            },
            Seat::West => {
                self.west = Some(p);
            },
            Seat::South => {
                self.south = Some(p);
            },
        }
    }

    /// Removes and returns whatever sits at `s`.
    pub fn take(&mut self, s: Seat) -> (r: Option<Player>)
        ensures
            r == old(self).spec_get(s),
            final(self).spec_get(s) is None,
            forall|s2: Seat| s2 != s ==> final(self).spec_get(s2) == old(self).spec_get(s2),
    {
        match s {
            Seat::East => self.east.take(),
            Seat::North => self.north.take(),
            Seat::West => self.west.take(),
            Seat::South => self.south.take(),
        }
    }
}

/// The tile-owning game state: the remaining wall, the four seats, the turn
/// counter and the most recent discard.
#[derive(Debug)]
pub struct GameState {
    pub turn: u64,
    pub wall: Vec<Tile>,
    pub last_discard: Option<(Seat, Tile)>,
    pub player_pool: SeatMap,
}

impl GameState {
    /// A fresh match: turn zero, no seats taken, no discard yet, and the
    /// full 136-tile wall laid out then permuted by `seed`.
    pub fn start_game(seed: u64) -> (r: GameState)
        ensures
            r.turn == 0,
            r.last_discard is None,
            r.player_pool.east is None && r.player_pool.north is None && r.player_pool.west
                is None && r.player_pool.south is None,
            r.wall@.to_multiset() == full_wall_multiset(),
            r.wall@.len() == 136,
    {
        let mut wall = build_wall();
        shuffle_wall(&mut wall, seed);
        proof {
            assert(full_wall_multiset().len() == 136);
        }
        GameState { turn: 0, wall, last_discard: None, player_pool: SeatMap::new() }
    }
}

} // verus!
