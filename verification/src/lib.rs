//! A transposition table for game-tree search: a fixed-size, lossy cache from
//! position hashes to packed search results, with quality-based replacement,
//! generation ageing and mate-distance score normalisation.

pub mod chess;
pub mod definitions;
pub mod laws;
pub mod packed;
pub mod score;
pub mod shared;
pub mod table;

pub use chess::{MoveRecord, PieceKind};
pub use definitions::{EPOCH_MAX, NOMOVE, TB_LOSS_IN_PLY, TB_WIN_IN_PLY};
pub use packed::{AgeAndFlag, PackedMove, TTEntry, TTFlag};
pub use score::{score_from_tt, score_to_tt};
pub use shared::SharedTT;
pub use table::TT;
