//! Constants shared by the packed formats, the table and the score functions.

use vstd::prelude::*;

verus! {

/// The packed word that stands for "no move".
pub const NOMOVE: u16 = 0;

/// Scores at or above this value are wins whose distance is counted in plies.
pub const TB_WIN_IN_PLY: i16 = 29744;

/// Scores at or below this value are losses whose distance is counted in plies.
pub const TB_LOSS_IN_PLY: i16 = -29744;

/// The largest generation that fits the six age bits of an entry.
pub const EPOCH_MAX: u8 = 63;

/// The number of table slots that one megabyte of budget buys.
pub const SLOTS_PER_MEGABYTE: u64 = 131072;

} // verus!
