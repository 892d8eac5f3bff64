//! The ways in which an operation of the session can be refused.

use vstd::prelude::*;

verus! {

/// Why an operation was refused. A refused operation changes nothing.
#[derive(Clone, Copy, Debug, PartialEq, Eq, Structural)]
pub enum GameError {
    /// The identifier names no entity of the registry.
    NotFound,
    /// The entity is in a state that forbids the operation.
    InvalidState,
    /// The plane already has a pilot.
    AlreadyLinked,
    /// The plane already takes part in a match.
    AlreadyJoined,
    /// An argument is not acceptable, such as an empty plane name.
    InvalidArgument,
}

} // verus!
