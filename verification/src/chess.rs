//! The move, square and piece types of the board library, and the plain
//! record through which the packed formats read and build them.

use vstd::prelude::*;
use cozy_chess::{Move, Piece, Square};

verus! {

/// `cozy_chess::Move`, carried as an opaque value: what it holds is read and
/// built by the two functions at the end of this file and by nothing else.
#[verifier::external_type_specification]
#[verifier::external_body]
pub struct ExMove(cozy_chess::Move);

/// The kind of a chess piece.
#[derive(Clone, Copy, Debug, PartialEq, Eq, Structural)]
pub enum PieceKind {
    Pawn,
    Knight,
    Bishop,
    Rook,
    Queen,
    King,
}

/// A move as plain values: the indices of its two squares, counted rank by
/// rank from A1 (0) to H8 (63), and the piece it promotes to, if any.
#[derive(Clone, Copy, Debug, PartialEq, Eq, Structural)]
pub struct MoveRecord {
    pub from: u8,
    pub to: u8,
    pub promotion: Option<PieceKind>,
}

impl MoveRecord {
    /// Both squares lie on the board.
    pub open spec fn on_board(self) -> bool {
        self.from < 64 && self.to < 64
    }
}

/// What a `cozy_chess::Move` holds, as a plain record: the discriminants of
/// its two squares and its promotion piece.
pub uninterp spec fn move_record(mv: Move) -> MoveRecord;

/// The record of a move that may be absent.
pub open spec fn option_record(mv: Option<Move>) -> Option<MoveRecord> {
    match mv {
        None => None,
        Some(m) => Some(move_record(m)),
    }
}

/// Reads the fields of a `cozy_chess::Move`. Trusted: the result is the
/// record of `mv`, whose squares are the discriminants of `Square`, an enum of
/// 64 variants in rank-major order, and whose piece is the variant of `Piece`
/// of the same name.
#[verifier::external_body]
pub(crate) fn read_move(mv: &Move) -> (rec: MoveRecord)
    ensures
        rec == move_record(*mv),
        rec.on_board(),
{
    let promotion = match mv.promotion {
        None => None,
        Some(Piece::Pawn) => Some(PieceKind::Pawn),
        Some(Piece::Knight) => Some(PieceKind::Knight),
        Some(Piece::Bishop) => Some(PieceKind::Bishop),
        Some(Piece::Rook) => Some(PieceKind::Rook),
        Some(Piece::Queen) => Some(PieceKind::Queen),
        Some(Piece::King) => Some(PieceKind::King),
    };
    MoveRecord { from: mv.from as u8, to: mv.to as u8, promotion }
}

/// Builds a `cozy_chess::Move` with `Square::index` for the two squares.
/// Trusted: `Square::index` returns the variant with the given discriminant
/// and panics from 64 on, which `requires` leaves out; the piece is the
/// variant of `Piece` of the same name. So the move built holds `rec`, and,
/// a move being its three public fields and nothing else, it is the only
/// move that does.
#[verifier::external_body]
pub(crate) fn build_move(rec: MoveRecord) -> (mv: Move)
    requires
        rec.on_board(),
    ensures
        move_record(mv) == rec,
        forall|other: Move| #[trigger] move_record(other) == rec ==> mv == other,
{
    let promotion = match rec.promotion {
        None => None,
        Some(PieceKind::Pawn) => Some(Piece::Pawn),
        Some(PieceKind::Knight) => Some(Piece::Knight),
        Some(PieceKind::Bishop) => Some(Piece::Bishop),
        Some(PieceKind::Rook) => Some(Piece::Rook),
        Some(PieceKind::Queen) => Some(Piece::Queen),
        Some(PieceKind::King) => Some(Piece::King),
    };
    Move { from: Square::index(rec.from as usize), to: Square::index(rec.to as usize), promotion }
}

} // verus!
