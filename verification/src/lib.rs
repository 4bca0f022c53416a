//! Rules engine for a two-player race game on a branching board:
//! two private lanes joined by a shared middle lane, with bonus
//! ("rosette") cells that grant an extra turn.
//!
//! The engine is a pure library: it validates proposed moves against
//! the current game state and folds accepted moves into the next state.

pub mod game;
pub mod moves;
pub mod state;
pub mod validation;
