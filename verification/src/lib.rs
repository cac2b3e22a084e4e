//! Engine-independent core of a small grid-scene prototype.
//!
//! The crate models the recurring logic of the scene: a board of grid
//! cells with an actor that moves one cell per decoded input and is
//! clamped to the board (`grid`, `actor`), a camera-focus tracker that
//! eases a continuous point toward a target with a snap-stop dead zone
//! (`camera`), a finite game-flow state machine over
//! splash/menu/playing/game-over (`flow`), a registry of state-scoped
//! entity handles for bulk teardown (`registry`), a score counter with a
//! display string (`score`), and a session object tying them together
//! (`session`).
//!
//! Continuous quantities (focus coordinates, cell heights) are carried in
//! thousandths of a world unit, so the whole core stays in integer
//! arithmetic. Rendering, asset loading and input polling are outside
//! collaborators: the core consumes decoded events and hands back plain
//! values.

use vstd::prelude::*;

pub mod actor;
pub mod camera;
pub mod flow;
pub mod grid;
pub mod registry;
pub mod score;
pub mod session;

verus! {

/// The ways the core can fail. Per-tick input is validated upstream, so
/// these only arise at construction or on a programming error.
#[derive(Clone, Copy, Debug, PartialEq, Eq, Structural)]
pub enum GameError {
    /// A board was requested with zero rows or zero columns.
    InvalidDimensions,
    /// A game-flow transition was requested along an edge the state
    /// machine does not have.
    ForbiddenTransition,
    /// A coordinate outside the board was handed to an accessor that
    /// does not repair it.
    OutOfBoundsCoordinate,
}

} // verus!
