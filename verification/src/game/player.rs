use vstd::multiset::Multiset;
use vstd::prelude::*;
use vstd::seq_lib::group_to_multiset_ensures;

use crate::game::enums::{kind_code, Action, PlayerStatus, Seat, Tile};
use crate::utils::models::JoinRequest;

verus! {

broadcast use group_to_multiset_ensures;

/// A locked set of tiles formed by calling another seat's discard: the
/// claimed tile, the tiles moved out of the caller's hand, the call that
/// formed it, and the seat the claimed tile came from.
#[derive(Clone, Debug)]
pub struct Meld {
    pub call: Action,
    pub from_seat: Seat,
    pub claimed: Tile,
    pub melded: Vec<Tile>,
}

/// All tiles locked in one meld.
pub open spec fn meld_tiles(m: Meld) -> Seq<Tile> {
    seq![m.claimed] + m.melded@
}

/// All tiles locked in a sequence of melds, as a multiset.
pub open spec fn melds_multiset(melds: Seq<Meld>) -> Multiset<Tile>
    decreases melds.len(),
{
    if melds.len() == 0 {
        Multiset::empty()
    } else {
        melds_multiset(melds.drop_last()).add(meld_tiles(melds.last()).to_multiset())
    }
}

/// One seat's record: identity, connection state, readiness, and every tile
/// the seat currently accounts for.
#[derive(Debug)]
pub struct Player {
    pub id: u64,
    pub alias: String,
    pub connected: bool,
    pub seat: Seat,
    pub hand: Vec<Tile>,
    pub discarded: Vec<Tile>,
    pub open_melds: Vec<Meld>,
    pub player_state: PlayerStatus,
}

/// Every tile a player accounts for: concealed hand, discard row, and open
/// melds.
pub open spec fn player_multiset(p: Player) -> Multiset<Tile> {
    p.hand@.to_multiset().add(p.discarded@.to_multiset()).add(melds_multiset(p.open_melds@))
}

impl Player {
    /// A freshly seated player: waiting, not yet connected, with the dealt
    /// hand and nothing discarded or melded.
    pub fn new(seat: Seat, req: &JoinRequest, hand: Vec<Tile>) -> (p: Player)
        ensures
            p.id == req.id,
            p.alias@ == req.alias@,
            p.connected == false,
            p.seat == seat,
            p.hand@ == hand@,
            p.discarded@ == Seq::<Tile>::empty(),
            p.open_melds@ == Seq::<Meld>::empty(),
            p.player_state == PlayerStatus::WAITING,
    {
        Player {
            id: req.id,
            seat,
            connected: false,
            alias: req.alias.clone(),
            player_state: PlayerStatus::WAITING,
            hand,
            discarded: Vec::new(),
            open_melds: Vec::new(),
        }
    }

    /// Moves the first hand tile equal to `target` into the discard row.
    /// Returns false, changing nothing, when the hand has no such tile.
    pub fn discard_tile(&mut self, target: &Tile) -> (r: bool)
        ensures
            r <==> old(self).hand@.contains(*target),
            r ==> final(self).hand@.to_multiset() == old(self).hand@.to_multiset().remove(*target),
            r ==> final(self).hand@.len() == old(self).hand@.len() - 1,
            r ==> final(self).discarded@ == old(self).discarded@.push(*target),
            r ==> exists|i: int|
                0 <= i < old(self).hand@.len() && old(self).hand@[i] == *target
                    && final(self).hand@ == old(self).hand@.remove(i) && (forall|j: int|
                    0 <= j < i ==> old(self).hand@[j] != *target),
            !r ==> *final(self) == *old(self),
            final(self).id == old(self).id,
            final(self).alias == old(self).alias,
            final(self).connected == old(self).connected,
            final(self).seat == old(self).seat,
            final(self).open_melds == old(self).open_melds,
            final(self).player_state == old(self).player_state,
    {
        let n = self.hand.len();
        let mut pos: usize = n;
        let mut i: usize = 0;
        while i < n
            invariant
                i <= n,
                n == self.hand@.len(),
                pos == n || (pos < i && self.hand@[pos as int] == *target),
                pos < i ==> forall|j: int| 0 <= j < pos ==> self.hand@[j] != *target,
                pos == n ==> forall|j: int| 0 <= j < i ==> self.hand@[j] != *target,
            decreases n - i,
        {
            if pos == n {
                let t = self.hand[i];
                if t.kind == target.kind && t.copy == target.copy {
                    pos = i;
                }
            }
            i = i + 1;
        }
        if pos < n {
            proof {
                assert(self.hand@[pos as int] == *target);
            }
            let removed = self.hand.remove(pos);
            self.discarded.push(removed);
            true
        } else {
            proof {
                assert(!self.hand@.contains(*target));
            }
            false
        }
    }

    /// The hand as tile-kind codes, in hand order.
    pub fn get_hand(&self) -> (r: Vec<i8>)
        ensures
            r@ == self.hand@.map_values(|t: Tile| kind_code(t.kind)),
    {
        let mut vec: Vec<i8> = Vec::new();
        let mut i: usize = 0;
        while i < self.hand.len()
            invariant
                i <= self.hand@.len(),
                vec@ =~= self.hand@.subrange(0, i as int).map_values(|t: Tile| kind_code(t.kind)),
            decreases self.hand@.len() - i,
        {
            vec.push(self.hand[i].kind.code());
            proof {
                assert(self.hand@.subrange(0, i + 1).map_values(|t: Tile| kind_code(t.kind))
                    =~= self.hand@.subrange(0, i as int).map_values(
                    |t: Tile| kind_code(t.kind),
                ).push(kind_code(self.hand@[i as int].kind)));
            }
            i = i + 1;
        }
        proof {
            assert(self.hand@.subrange(0, self.hand@.len() as int) =~= self.hand@);
        }
        vec
    }

    /// Whether the player has declared readiness.
    pub fn check_ready(&self) -> (r: bool)
        ensures
            r == (self.player_state == PlayerStatus::READY),
    {
        match self.player_state {
            PlayerStatus::READY => true,
            _ => false,
        }
    }

    /// Declares the player ready.
    pub fn set_ready(&mut self)
        ensures
            *final(self) == (Player { player_state: PlayerStatus::READY, ..*old(self) }),
    {
        self.player_state = PlayerStatus::READY;
    }

    /// Returns the player to the waiting state.
    pub fn set_waiting(&mut self)
        ensures
            *final(self) == (Player { player_state: PlayerStatus::WAITING, ..*old(self) }),
    {
        self.player_state = PlayerStatus::WAITING;
    }
}

/// What one seat is shown when it asks for its initial state.
#[derive(Debug)]
pub struct InitialPlayerView {
    pub seat: Seat,
    pub is_first: bool,
    pub hand: Vec<Tile>,
}

impl InitialPlayerView {
    /// The view of one player: the seat, whether that seat is the dealer,
    /// and a copy of the hand.
    pub fn get(p: &Player) -> (v: Self)
        ensures
            v.seat == p.seat,
            v.is_first == (p.seat == Seat::East),
            v.hand@ == p.hand@,
    {
        let mut hand: Vec<Tile> = Vec::new();
        let mut i: usize = 0;
        while i < p.hand.len()
            invariant
                i <= p.hand@.len(),
                hand@ =~= p.hand@.subrange(0, i as int),
            decreases p.hand@.len() - i,
        {
            hand.push(p.hand[i]);
            i = i + 1;
        }
        proof {
            assert(hand@ =~= p.hand@);
        }
        let is_first = match p.seat {
            Seat::East => true,
            _ => false,
        };
        InitialPlayerView { is_first, seat: p.seat, hand }
    }
}

} // verus!
