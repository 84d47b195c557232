//! Authoritative session engine for a two-player, turn-based 3x3 board game,
//! playable locally (hotseat) or over a network with one side acting as the
//! authoritative host.
//!
//! The crate covers the game's decision core: the board model, the turn
//! authority that validates and applies picks, the win evaluator, the session
//! lifecycle state machine, the replication fact protocol, and the semantics
//! of the local-network host discovery exchange. Socket handling, rendering
//! and scheduling live outside the library and only hand plain values in and
//! out.

use vstd::prelude::*;

pub mod board;
pub mod discovery;
pub mod evaluator;
pub mod player;
pub mod protocol;
pub mod resources;
pub mod session;
pub mod state;
pub mod symbol;

verus! {

/// Board dimension: the board is a GRID_SIZE x GRID_SIZE square.
pub const GRID_SIZE: usize = 3;

/// Number of cells on the board.
pub const CELL_COUNT: usize = GRID_SIZE * GRID_SIZE;

} // verus!
