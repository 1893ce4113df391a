use vstd::arithmetic::div_mod::lemma_fundamental_div_mod;
use vstd::multiset::Multiset;
use vstd::prelude::*;
use vstd::seq_lib::group_to_multiset_ensures;

use crate::game::enums::{kind_code, Tile, TileKind};

verus! {

broadcast use group_to_multiset_ensures;

/// The tile-kind code at position `k` of the canonical kind order: the nine
/// bamboos, nine circles, nine characters, three dragons, four winds.
pub open spec fn wall_code(k: int) -> int {
    if k < 9 {
        11 + k
    } else if k < 18 {
        12 + k
    } else if k < 27 {
        13 + k
    } else {
        14 + k
    }
}

/// The tile kind at position `k` of the canonical kind order.
pub open spec fn kind_of_index(k: int) -> TileKind {
    if k == 0 {
        TileKind::Souzu1
    } else if k == 1 {
        TileKind::Souzu2
    } else if k == 2 {
        TileKind::Souzu3
    } else if k == 3 {
        TileKind::Souzu4
    } else if k == 4 {
        TileKind::Souzu5
    } else if k == 5 {
        TileKind::Souzu6
    } else if k == 6 {
        TileKind::Souzu7
    } else if k == 7 {
        TileKind::Souzu8
    } else if k == 8 {
        TileKind::Souzu9
    } else if k == 9 {
        TileKind::Pinzu1
    } else if k == 10 {
        TileKind::Pinzu2
    } else if k == 11 {
        TileKind::Pinzu3
    } else if k == 12 {
        TileKind::Pinzu4
    } else if k == 13 {
        TileKind::Pinzu5
    } else if k == 14 {
        TileKind::Pinzu6
    } else if k == 15 {
        TileKind::Pinzu7
    } else if k == 16 {
        TileKind::Pinzu8
    } else if k == 17 {
        TileKind::Pinzu9
    } else if k == 18 {
        TileKind::Manzu1
    } else if k == 19 {
        TileKind::Manzu2
    } else if k == 20 {
        TileKind::Manzu3
    } else if k == 21 {
        TileKind::Manzu4
    } else if k == 22 {
        TileKind::Manzu5
    } else if k == 23 {
        TileKind::Manzu6
    } else if k == 24 {
        TileKind::Manzu7
    } else if k == 25 {
        TileKind::Manzu8
    } else if k == 26 {
        TileKind::Manzu9
    } else if k == 27 {
        TileKind::Red
    } else if k == 28 {
        TileKind::White
    } else if k == 29 {
        TileKind::Green
    } else if k == 30 {
        TileKind::East
    } else if k == 31 {
        TileKind::West
    } else if k == 32 {
        TileKind::North
    } else {
        TileKind::South
    }
}

/// The tile at position `i` of the freshly built wall: four copies of each
/// kind, copies innermost.
pub open spec fn tile_of_index(i: int) -> Tile {
    Tile { copy: (i % 4) as u8, kind: kind_of_index(i / 4) }
}

/// The freshly built wall, before shuffling.
pub open spec fn full_wall_seq() -> Seq<Tile> {
    Seq::new(136, |i: int| tile_of_index(i))
}

/// The canonical 136-tile set.
pub open spec fn full_wall_multiset() -> Multiset<Tile> {
    full_wall_seq().to_multiset()
}

/// Within the canonical kind order, each position carries its own code.
pub proof fn lemma_kind_of_index_code(k: int)
    requires
        0 <= k < 34,
    ensures
        kind_code(kind_of_index(k)) == wall_code(k),
{
}

/// Distinct wall positions hold distinct tiles: the wall has each
/// `(kind, copy)` pair exactly once.
pub proof fn lemma_tile_of_index_injective(i: int, j: int)
    requires
        0 <= i < 136,
        0 <= j < 136,
        tile_of_index(i) == tile_of_index(j),
    ensures
        i == j,
{
    lemma_kind_of_index_code(i / 4);
    lemma_kind_of_index_code(j / 4);
    lemma_fundamental_div_mod(i, 4);
    lemma_fundamental_div_mod(j, 4);
}

/// The full wall lists no tile twice.
pub proof fn lemma_full_wall_no_duplicates()
    ensures
        full_wall_seq().no_duplicates(),
{
    assert forall|i: int, j: int|
        0 <= i < full_wall_seq().len() && 0 <= j < full_wall_seq().len() && i != j
        implies full_wall_seq()[i] != full_wall_seq()[j] by {
        if full_wall_seq()[i] == full_wall_seq()[j] {
            lemma_tile_of_index_injective(i, j);
        }
    }
}

/// Lays out the 136 tiles in canonical order: for each kind in order, its
/// four copies.
pub fn build_wall() -> (w: Vec<Tile>)
    ensures
        w@ == full_wall_seq(),
{
    let mut w: Vec<Tile> = Vec::new();
    let mut i: usize = 0;
    while i < 136
        invariant
            i <= 136,
            w@.len() == i,
            forall|j: int| 0 <= j < i ==> w@[j] == tile_of_index(j),
        decreases 136 - i,
    {
        let kind = kind_from_index(i / 4);
        let copy = (i % 4) as u8;
        w.push(Tile { copy, kind });
        i = i + 1;
    }
    proof {
        assert(w@ =~= full_wall_seq());
    }
    w
}

/// The executable form of `kind_of_index`.
fn kind_from_index(k: usize) -> (r: TileKind)
    requires
        k < 34,
    ensures
        r == kind_of_index(k as int),
{
    match k {
        0 => TileKind::Souzu1,
        1 => TileKind::Souzu2,
        2 => TileKind::Souzu3,
        3 => TileKind::Souzu4,
        4 => TileKind::Souzu5,
        5 => TileKind::Souzu6,
        6 => TileKind::Souzu7,
        7 => TileKind::Souzu8,
        8 => TileKind::Souzu9,
        9 => TileKind::Pinzu1,
        10 => TileKind::Pinzu2,
        11 => TileKind::Pinzu3,
        12 => TileKind::Pinzu4,
        13 => TileKind::Pinzu5,
        14 => TileKind::Pinzu6,
        15 => TileKind::Pinzu7,
        16 => TileKind::Pinzu8,
        17 => TileKind::Pinzu9,
        18 => TileKind::Manzu1,
        19 => TileKind::Manzu2,
        20 => TileKind::Manzu3,
        21 => TileKind::Manzu4,
        22 => TileKind::Manzu5,
        23 => TileKind::Manzu6,
        24 => TileKind::Manzu7,
        25 => TileKind::Manzu8,
        26 => TileKind::Manzu9,
        27 => TileKind::Red,
        28 => TileKind::White,
        29 => TileKind::Green,
        30 => TileKind::East,
        31 => TileKind::West,
        32 => TileKind::North,
        _ => TileKind::South,
    }
}

/// Applies a seed-determined permutation: repeatedly pulls a pseudo-randomly
/// chosen remaining tile. The same seed always yields the same order, and
/// the tiles are exactly those given.
pub fn shuffle_wall(wall: &mut Vec<Tile>, seed: u64)
    ensures
        final(wall)@.to_multiset() == old(wall)@.to_multiset(),
        final(wall)@.len() == old(wall)@.len(),
{
    let ghost orig = wall@;
    let mut out: Vec<Tile> = Vec::new();
    let mut s: u64 = seed;
    while wall.len() > 0
        invariant
            out@.to_multiset().add(wall@.to_multiset()) =~= orig.to_multiset(),
            out@.len() + wall@.len() == orig.len(),
        decreases wall@.len(),
    {
        s = s.wrapping_mul(6364136223846793005).wrapping_add(1442695040888963407);
        let j = (s % (wall.len() as u64)) as usize;
        let ghost before_out = out@;
        let ghost before_wall = wall@;
        let t = wall.remove(j);
        out.push(t);
        proof {
            assert(out@.to_multiset() =~= before_out.to_multiset().insert(t));
            assert(wall@.to_multiset() =~= before_wall.to_multiset().remove(t));
            assert(out@.to_multiset().add(wall@.to_multiset()) =~= orig.to_multiset());
        }
    }
    proof {
        assert(wall@.to_multiset() =~= Multiset::<Tile>::empty());
    }
    *wall = out;
    proof {
        assert(wall@.to_multiset() =~= orig.to_multiset());
        assert(orig.to_multiset().len() == orig.len());
        assert(wall@.to_multiset().len() == wall@.len());
    }
}

} // verus!
