use vstd::prelude::*;

use crate::game::enums::{action_code, kind_code, valid_kind_code, Action, Tile};
use crate::utils::errors::Error;

verus! {

/// A parsed `Action` body: the action code and, for a discard, the targeted
/// tile.
#[derive(Clone, Copy, Debug, PartialEq, Eq, Structural)]
pub struct GameAction {
    pub action: Action,
    pub target: Option<Tile>,
}

impl GameAction {
    /// Parses an `Action` body: byte 0 is the action code; a discard carries
    /// the tile as two further bytes `(kind, copy)`.
    pub fn parse(b: &[u8]) -> (r: Result<GameAction, Error>)
        ensures
            b@.len() == 0 || (b@.len() >= 1 && b@[0] > 6) ==> r == Err::<GameAction, Error>(
                Error::GameActionParsingFailed(1),
            ),
            b@.len() >= 1 && b@[0] <= 6 && b@[0] != 1 ==> (r matches Ok(g) && action_code(g.action)
                == b@[0] && g.target is None),
            b@.len() >= 1 && b@[0] == 1 ==> {
                if b@.len() >= 3 && valid_kind_code((b@[1] as i8) as int) && b@[2] < 4 {
                    r matches Ok(g) && g.action == Action::DISCARD && (g.target matches Some(t)
                        && kind_code(t.kind) == b@[1] as i8 && t.copy == b@[2])
                } else {
                    r == Err::<GameAction, Error>(Error::TileParsingFailed)
                }
            },
    {
        if b.len() == 0 {
            return Err(Error::GameActionParsingFailed(1));
        }
        match Action::get(b[0]) {
            None => Err(Error::GameActionParsingFailed(1)),
            Some(action) => {
                let target: Option<Tile> = match action {
                    Action::DISCARD => {
                        if b.len() < 3 {
                            return Err(Error::TileParsingFailed);
                        }
                        match Tile::from_bytes(b[1], b[2]) {
                            Ok(tile) => Some(tile),
                            Err(e) => {
                                return Err(e);
                            },
                        }
                    },
                    _ => None,
                };
                Ok(GameAction { target, action })
            },
        }
    }
}

} // verus!
