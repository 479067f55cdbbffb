//! Core round logic for a pass-the-device social deduction word game.
//!
//! One player per round is secretly the imposter and does not receive the
//! shared secret word; the rest see a word tied to the chosen category. This
//! crate holds the round state machine: role and card assignment, the screen
//! controller, the discussion/voting rotation, elimination resolution, and
//! round reset. Rendering and input belong to a presentation layer that reads
//! the state exposed here and submits intents.

use vstd::prelude::*;

pub mod player;
pub mod round;
pub mod screen;
pub mod voting;

verus! {

/// The contract violations the round core can report. All of them mean a
/// caller handed the machine state it could not have produced through valid
/// transitions; the state is never left partially mutated when one is raised.
#[derive(Clone, Copy, Debug, PartialEq, Eq, Structural)]
pub enum GameError {
    /// An elimination or vote target is out of range or already eliminated.
    InvalidIndex,
    /// A round was started with fewer than three roster entries.
    InsufficientPlayers,
    /// A discussion order was requested while no player is active.
    NoActivePlayers,
}

} // verus!
