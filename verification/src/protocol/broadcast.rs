use vstd::prelude::*;

verus! {

/// Events fanned out to every connected session.
#[derive(Clone, Copy, Debug, PartialEq, Eq, Structural)]
pub enum Broadcast {
    /// Player has drawn a tile. Does not reveal the tile drawn.
    DREW,
    /// Player discarded a tile. Reveals which tile was discarded.
    DISCARDED,
    /// Broadcasts the new turn number and who is the next in line.
    TURNCHANGE,
    /// Broadcasts a winner and that the round has ended.
    WINNER,
    /// Broadcasts a player's tile call (KAN, CHI, PON). Reveals the claim.
    CALLS,
    /// Fatal server error broadcast to end the match.
    ERROR,
}

} // verus!
