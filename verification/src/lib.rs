//! A verified chess rules engine: legal-move generation, legality checking,
//! and game-state transition over a flat 64-square board with a packed
//! piece encoding, together with a FEN reader and the perft move-tree
//! counters that validate the move generator.

use vstd::prelude::*;

pub mod apply;
pub mod attack;
pub mod board;
pub mod encoding;
pub mod eval;
pub mod fen;
pub mod geometry;
pub mod laws;
pub mod legality;
pub mod movegen;
pub mod perft;
pub mod props;
pub mod render;
pub mod search;
pub mod threats;
pub mod types;
pub mod value;

verus! {

} // verus!
