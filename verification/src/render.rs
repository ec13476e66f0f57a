//! Text renderers: a square as file letter then rank digit ("E4"),
//! and a move as origin square, destination square and, for a
//! promotion, a trailing "=" with the chosen piece's letter; the null
//! move renders as "0000". This is the engine's own notation, not
//! standard algebraic notation.

use vstd::prelude::*;

use vstd::string::StringExecFns;

use crate::board::move_squares_ok;
use crate::encoding::file_of_index;
use crate::encoding::is_piece_code;
use crate::encoding::is_square_code;
use crate::encoding::rank_of_index;
use crate::encoding::square_file_index;
use crate::encoding::square_rank_index;
use crate::types::ChessMove;
use crate::types::EnumFile;
use crate::types::EnumPiecesUncolored;
use crate::types::EnumRank;

verus! {

/// The digit a rank renders as.
pub open spec fn rank_text(rank: EnumRank) -> Seq<char> {
    match rank {
        EnumRank::One => "1"@,
        EnumRank::Two => "2"@,
        EnumRank::Three => "3"@,
        EnumRank::Four => "4"@,
        EnumRank::Five => "5"@,
        EnumRank::Six => "6"@,
        EnumRank::Seven => "7"@,
        EnumRank::Eight => "8"@,
    }
}

/// The letter a file renders as.
pub open spec fn file_text(file: EnumFile) -> Seq<char> {
    match file {
        EnumFile::A => "A"@,
        EnumFile::B => "B"@,
        EnumFile::C => "C"@,
        EnumFile::D => "D"@,
        EnumFile::E => "E"@,
        EnumFile::F => "F"@,
        EnumFile::G => "G"@,
        EnumFile::H => "H"@,
    }
}

/// The letter a piece kind renders as; a pawn has none.
pub open spec fn piece_kind_text(kind: EnumPiecesUncolored) -> Seq<char> {
    match kind {
        EnumPiecesUncolored::Pawn => ""@,
        EnumPiecesUncolored::Knight => "N"@,
        EnumPiecesUncolored::Bishop => "B"@,
        EnumPiecesUncolored::Rook => "R"@,
        EnumPiecesUncolored::Queen => "Q"@,
        EnumPiecesUncolored::King => "K"@,
    }
}

/// What a packed square renders as: file letter then rank digit.
pub open spec fn square_text(sq: int) -> Seq<char> {
    file_text(file_of_index(square_file_index(sq))) + rank_text(rank_of_index(square_rank_index(sq)))
}

impl EnumRank {
    /// The rank as its digit.
    pub fn to_string(&self) -> (r: String)
        ensures
            r@ == rank_text(*self),
    {
        match *self {
            EnumRank::One => "1".to_owned(),
            EnumRank::Two => "2".to_owned(),
            EnumRank::Three => "3".to_owned(),
            EnumRank::Four => "4".to_owned(),
            EnumRank::Five => "5".to_owned(),
            EnumRank::Six => "6".to_owned(),
            EnumRank::Seven => "7".to_owned(),
            EnumRank::Eight => "8".to_owned(),
        }
    }
}

impl EnumFile {
    /// The file as its letter.
    pub fn to_string(&self) -> (r: String)
        ensures
            r@ == file_text(*self),
    {
        match *self {
            EnumFile::A => "A".to_owned(),
            EnumFile::B => "B".to_owned(),
            EnumFile::C => "C".to_owned(),
            EnumFile::D => "D".to_owned(),
            EnumFile::E => "E".to_owned(),
            EnumFile::F => "F".to_owned(),
            EnumFile::G => "G".to_owned(),
            EnumFile::H => "H".to_owned(),
        }
    }
}

impl EnumPiecesUncolored {
    /// The piece kind as its letter; the pawn renders as nothing.
    pub fn to_string(&self) -> (r: String)
        ensures
            r@ == piece_kind_text(*self),
    {
        match *self {
            EnumPiecesUncolored::Pawn => "".to_owned(),
            EnumPiecesUncolored::Knight => "N".to_owned(),
            EnumPiecesUncolored::Bishop => "B".to_owned(),
            EnumPiecesUncolored::Rook => "R".to_owned(),
            EnumPiecesUncolored::Queen => "Q".to_owned(),
            EnumPiecesUncolored::King => "K".to_owned(),
        }
    }
}

/// A square held as its rank and file, however the engine encodes
/// squares elsewhere.
#[derive(Clone, Copy, PartialEq, Eq, Structural, Debug)]
pub struct StandardSquare {
    pub rank: EnumRank,
    pub file: EnumFile,
}

/// Read a packed square out into its rank and file.
pub fn standardize(square: i8) -> (r: StandardSquare)
    requires
        is_square_code(square as int),
    ensures
        r.rank == rank_of_index(square_rank_index(square as int)),
        r.file == file_of_index(square_file_index(square as int)),
{
    StandardSquare {
        rank: crate::encoding::get_rank(square),
        file: crate::encoding::get_file(square),
    }
}

impl StandardSquare {
    /// The square as file letter then rank digit.
    pub fn to_string(&self) -> (r: String)
        ensures
            r@ == file_text(self.file) + rank_text(self.rank),
    {
        let rank_string = self.rank.to_string();
        let mut square_string = self.file.to_string();
        square_string.append(rank_string.as_str());
        square_string
    }
}

/// What a move renders as: origin and destination squares (for
/// castling, the king's), with "=" and the chosen piece's letter after
/// a promotion; the null move is "0000".
pub open spec fn move_text(m: ChessMove) -> Seq<char> {
    match m {
        ChessMove::NullMove => "00"@ + "00"@,
        ChessMove::StandardMove(sm) => square_text(sm.from_square as int) + square_text(
            sm.to_square as int,
        ),
        ChessMove::EnPassantMove(em) => square_text(em.from_square as int) + square_text(
            em.to_square as int,
        ),
        ChessMove::CastlingMove(cm) => square_text(cm.king_from as int) + square_text(
            cm.king_to as int,
        ),
        ChessMove::PromotionMove(pm) => square_text(pm.from_square as int) + square_text(
            pm.to_square as int,
        ) + "="@ + piece_kind_text(
            crate::encoding::code_kind(pm.promotion_choice as int),
        ),
    }
}

impl ChessMove {
    /// The move in the engine's origin-destination notation.
    pub fn to_string(&self) -> (r: String)
        requires
            move_squares_ok(*self),
            *self matches ChessMove::PromotionMove(pm) ==> is_piece_code(
                pm.promotion_choice as int,
            ),
        ensures
            r@ == move_text(*self),
    {
        let (start_sq, end_sq) = match *self {
            ChessMove::NullMove => ("00".to_owned(), "00".to_owned()),
            ChessMove::StandardMove(some_move) => (
                standardize(some_move.from_square).to_string(),
                standardize(some_move.to_square).to_string(),
            ),
            ChessMove::EnPassantMove(some_move) => (
                standardize(some_move.from_square).to_string(),
                standardize(some_move.to_square).to_string(),
            ),
            ChessMove::CastlingMove(some_move) => (
                standardize(some_move.king_from).to_string(),
                standardize(some_move.king_to).to_string(),
            ),
            ChessMove::PromotionMove(some_move) => (
                standardize(some_move.from_square).to_string(),
                standardize(some_move.to_square).to_string(),
            ),
        };
        let mut rendered = start_sq;
        rendered.append(end_sq.as_str());
        match *self {
            ChessMove::PromotionMove(some_move) => {
                rendered.append("=");
                let kind_string = crate::encoding::get_piece_type(
                    some_move.promotion_choice,
                ).to_string();
                rendered.append(kind_string.as_str());
            },
            _ => {},
        }
        rendered
    }
}

} // verus!
