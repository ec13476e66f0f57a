//! Core chess vocabulary: colors, piece kinds, ranks, files, small offsets,
//! and the closed family of move shapes the engine works with.
//!
//! Squares and square contents are carried as packed `i8` codes (see the
//! `encoding` module); the enums here give those codes their meaning.

use vstd::prelude::*;

verus! {

/// The color of a piece, or the side to move.
#[derive(Clone, Copy, PartialEq, Eq, Structural, Debug)]
pub enum EnumColor {
    White,
    Black,
}

/// The six kinds of chess pieces, without color.
#[derive(Clone, Copy, PartialEq, Eq, Structural, Debug)]
pub enum EnumPiecesUncolored {
    Pawn,
    Knight,
    Bishop,
    Rook,
    Queen,
    King,
}

/// The eight ranks of the board, from White's home rank upward.
#[derive(Clone, Copy, PartialEq, Eq, Structural, Debug)]
pub enum EnumRank {
    One,
    Two,
    Three,
    Four,
    Five,
    Six,
    Seven,
    Eight,
}

/// The eight files of the board, from the queenside over.
#[derive(Clone, Copy, PartialEq, Eq, Structural, Debug)]
pub enum EnumFile {
    A,
    B,
    C,
    D,
    E,
    F,
    G,
    H,
}

/// A one-axis displacement of at most two squares: every chess move is
/// built from rank and file steps drawn from this range.
#[derive(Clone, Copy, PartialEq, Eq, Structural, Debug)]
pub enum SmallOffset {
    MinusTwo,
    MinusOne,
    Stay,
    PlusOne,
    PlusTwo,
}

/// Relocation of a single piece; a capture is implicit when the
/// destination is occupied.
#[derive(Clone, Copy, PartialEq, Eq, Structural, Debug)]
pub struct StandardMove {
    pub from_square: i8,
    pub to_square: i8,
}

/// An en-passant capture: the mover relocates from `from_square` to
/// `to_square`, and a third square (`taken_square`) is cleared.
#[derive(Clone, Copy, PartialEq, Eq, Structural, Debug)]
pub struct EnPassantMove {
    pub from_square: i8,
    pub taken_square: i8,
    pub to_square: i8,
}

/// A fully explicit castling description. Spelling out all four squares
/// keeps the state-transition code compatible with non-standard castling
/// geometries.
#[derive(Clone, Copy, PartialEq, Eq, Structural, Debug)]
pub struct CastlingMove {
    pub king_from: i8,
    pub rook_from: i8,
    pub king_to: i8,
    pub rook_to: i8,
}

/// A pawn relocation that also changes the piece's kind;
/// `promotion_choice` is a packed piece code carrying both the new kind
/// and the (necessarily unchanged) color.
#[derive(Clone, Copy, PartialEq, Eq, Structural, Debug)]
pub struct PromotionMove {
    pub from_square: i8,
    pub to_square: i8,
    pub promotion_choice: i8,
}

/// The closed family of move shapes. A move is "proper" iff it is not
/// the null move, which touches only the bookkeeping of a position.
#[derive(Clone, Copy, PartialEq, Eq, Structural, Debug)]
pub enum ChessMove {
    StandardMove(StandardMove),
    EnPassantMove(EnPassantMove),
    CastlingMove(CastlingMove),
    PromotionMove(PromotionMove),
    NullMove,
}

impl ChessMove {
    /// Whether this move moves anything at all.
    pub fn is_proper(&self) -> (r: bool)
        ensures
            r == !(*self is NullMove),
    {
        match *self {
            ChessMove::NullMove => false,
            _ => true,
        }
    }
}

} // verus!
