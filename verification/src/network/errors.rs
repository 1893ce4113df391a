use vstd::prelude::*;

verus! {

/// Network-side failures kept apart from the main
/// [`crate::utils::errors::Error`] vocabulary.
#[derive(Clone, Copy, Debug, PartialEq, Eq, Structural)]
pub enum NetworkError {
    /// The join handshake could not be completed.
    FailedAuthentication,
    /// Every seat is taken.
    MatchIsFull,
}

} // verus!
