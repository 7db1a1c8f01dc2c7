use vstd::prelude::*;

verus! {

/// Why a game ends, or why a request could not be served.
#[derive(Clone, Copy, Debug, PartialEq, Eq, Structural)]
pub enum GameError {
    /// The head moved outside the arena.
    OutOfBounds,
    /// The head moved onto a cell of the body.
    SelfCollision,
    /// Apple placement found no free cell within its attempts.
    NoFreeCell,
    /// No heading was available to resolve.
    EmptyState,
}

} // verus!
