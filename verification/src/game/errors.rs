use vstd::prelude::*;

verus! {

/// Game-side failures kept apart from the main [`crate::utils::errors::Error`]
/// vocabulary.
#[derive(Clone, Copy, Debug, PartialEq, Eq, Structural)]
pub enum GameError {
    /// A received body did not describe a valid game action.
    GameActionParsing,
    /// Every seat is taken.
    NoAvailableSeats,
}

} // verus!
