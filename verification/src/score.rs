//! Mate-distance score normalisation.
//!
//! A search counts the distance to a forced win or loss from the root. The
//! table stores it from the position itself, so that a later probe at another
//! ply can rebuild the root-relative distance.

use vstd::prelude::*;
use crate::definitions::{TB_LOSS_IN_PLY, TB_WIN_IN_PLY};

verus! {

/// The table-space value of a root-relative `score` seen at `ply`.
pub open spec fn to_table_space(score: int, ply: int) -> int {
    if score >= TB_WIN_IN_PLY {
        score + ply
    } else if score <= TB_LOSS_IN_PLY {
        score - ply
    } else {
        score
    }
}

/// The root-relative value at `ply` of a table-space `score`.
pub open spec fn from_table_space(score: int, ply: int) -> int {
    if score >= TB_WIN_IN_PLY {
        score - ply
    } else if score <= TB_LOSS_IN_PLY {
        score + ply
    } else {
        score
    }
}

/// Whether `value` can be held in a 16-bit score.
pub open spec fn fits_score(value: int) -> bool {
    i16::MIN <= value <= i16::MAX
}

/// Leaving the table undoes entering it at the same ply, for every score,
/// inside and outside the mate window.
pub proof fn lemma_score_round_trip(score: int, ply: int)
    requires
        ply >= 0,
    ensures
        from_table_space(to_table_space(score, ply), ply) == score,
{
}

/// Converts a root-relative score into table space.
#[must_use]
pub fn score_to_tt(score: i16, ply: usize) -> (r: i16)
    requires
        fits_score(to_table_space(score as int, ply as int)),
    ensures
        r as int == to_table_space(score as int, ply as int),
{
    if score >= TB_WIN_IN_PLY {
        score + ply as i16
    } else if score <= TB_LOSS_IN_PLY {
        score - ply as i16
    } else {
        score
    }
}

/// Converts a root-relative score into table space where the result can be
/// held in 16 bits, and gives nothing where it cannot.
#[must_use]
pub fn try_score_to_tt(score: i16, ply: usize) -> (r: Option<i16>)
    ensures
        fits_score(to_table_space(score as int, ply as int)) ==> r is Some && r.unwrap() as int
            == to_table_space(score as int, ply as int),
        !fits_score(to_table_space(score as int, ply as int)) ==> r is None,
{
    if score >= TB_WIN_IN_PLY {
        let room: i16 = i16::MAX - score;
        if ply <= room as usize {
            Some(score_to_tt(score, ply))
        } else {
            None
        }
    } else if score <= TB_LOSS_IN_PLY {
        let room: i16 = score - i16::MIN;
        if ply <= room as usize {
            Some(score_to_tt(score, ply))
        } else {
            None
        }
    } else {
        Some(score)
    }
}

/// Converts a table-space score back into a root-relative one.
#[must_use]
pub fn score_from_tt(score: i16, ply: usize) -> (r: i16)
    requires
        fits_score(from_table_space(score as int, ply as int)),
    ensures
        r as int == from_table_space(score as int, ply as int),
{
    if score >= TB_WIN_IN_PLY {
        let wide: i32 = score as i32 - ply as i32;
        wide as i16
    } else if score <= TB_LOSS_IN_PLY {
        let wide: i32 = score as i32 + ply as i32;
        wide as i16
    } else {
        score
    }
}

} // verus!
