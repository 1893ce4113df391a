use vstd::prelude::*;

verus! {

/// Protocol-side failures kept apart from the main
/// [`crate::utils::errors::Error`] vocabulary.
#[derive(Clone, Copy, Debug, PartialEq, Eq, Structural)]
pub enum ProtocolError {
    /// The frame could not be decoded.
    InvalidPacket,
    /// Every seat is taken.
    MatchIsFull,
}

} // verus!
