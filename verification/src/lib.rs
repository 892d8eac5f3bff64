//! Authoritative in-memory state of a small multiplayer session: users,
//! the planes they pilot, and the matches those planes take part in.
//!
//! Every entity is described by a mathematical view, and every operation
//! is stated as a transition on those views. The registry of matches,
//! [`game_state::GameState`], is the only component that changes the
//! membership or the lifecycle state of a match.

pub mod error;
pub mod game_match;
pub mod game_state;
pub mod ids;
pub mod laws;
pub mod plane;
pub mod user;

pub use error::GameError;
pub use game_match::{Match, MatchState, MatchView};
pub use game_state::{GameState, GameStateView};
pub use ids::{MatchId, PlaneId, UserId};
pub use plane::{Plane, PlaneView};
pub use user::{User, UserView};
