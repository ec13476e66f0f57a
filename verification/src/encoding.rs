//! The packed `i8` encodings for pieces, square contents and squares,
//! kept in one place so that nothing else in the engine repeats the
//! arithmetic.
//!
//! A piece is `2 * kind + color` with kinds numbered pawn through king
//! and colors numbered White `0`, Black `1`, giving codes `0..=11`.
//! Square contents are either `-1` (empty) or a piece code. A square is
//! `8 * rank + file`, giving codes `0..=63` with rank One at the bottom.

use vstd::prelude::*;

use crate::types::EnumColor;
use crate::types::EnumFile;
use crate::types::EnumPiecesUncolored;
use crate::types::EnumRank;

verus! {

/// The numeric code of a color.
pub open spec fn color_index(color: EnumColor) -> int {
    match color {
        EnumColor::White => 0,
        EnumColor::Black => 1,
    }
}

/// The other color.
pub open spec fn opposite_color(color: EnumColor) -> EnumColor {
    match color {
        EnumColor::White => EnumColor::Black,
        EnumColor::Black => EnumColor::White,
    }
}

/// The numeric code of a piece kind.
pub open spec fn piece_kind_index(kind: EnumPiecesUncolored) -> int {
    match kind {
        EnumPiecesUncolored::Pawn => 0,
        EnumPiecesUncolored::Knight => 1,
        EnumPiecesUncolored::Bishop => 2,
        EnumPiecesUncolored::Rook => 3,
        EnumPiecesUncolored::Queen => 4,
        EnumPiecesUncolored::King => 5,
    }
}

/// The packed code of a colored piece.
pub open spec fn piece_code(color: EnumColor, kind: EnumPiecesUncolored) -> int {
    2 * piece_kind_index(kind) + color_index(color)
}

/// Whether `code` is a valid packed piece.
pub open spec fn is_piece_code(code: int) -> bool {
    0 <= code < 12
}

/// Whether `code` is valid square contents: empty, or a piece.
pub open spec fn is_contents_code(code: int) -> bool {
    -1 <= code < 12
}

/// The color packed into a piece code.
pub open spec fn code_color(code: int) -> EnumColor
    recommends
        is_piece_code(code),
{
    if code % 2 == 0 {
        EnumColor::White
    } else {
        EnumColor::Black
    }
}

/// The piece kind packed into a piece code.
pub open spec fn code_kind(code: int) -> EnumPiecesUncolored
    recommends
        is_piece_code(code),
{
    if code / 2 == 0 {
        EnumPiecesUncolored::Pawn
    } else if code / 2 == 1 {
        EnumPiecesUncolored::Knight
    } else if code / 2 == 2 {
        EnumPiecesUncolored::Bishop
    } else if code / 2 == 3 {
        EnumPiecesUncolored::Rook
    } else if code / 2 == 4 {
        EnumPiecesUncolored::Queen
    } else {
        EnumPiecesUncolored::King
    }
}

/// The numeric index of a rank, One being `0`.
pub open spec fn rank_index(rank: EnumRank) -> int {
    match rank {
        EnumRank::One => 0,
        EnumRank::Two => 1,
        EnumRank::Three => 2,
        EnumRank::Four => 3,
        EnumRank::Five => 4,
        EnumRank::Six => 5,
        EnumRank::Seven => 6,
        EnumRank::Eight => 7,
    }
}

/// The rank with the given index.
pub open spec fn rank_of_index(i: int) -> EnumRank
    recommends
        0 <= i < 8,
{
    if i == 0 {
        EnumRank::One
    } else if i == 1 {
        EnumRank::Two
    } else if i == 2 {
        EnumRank::Three
    } else if i == 3 {
        EnumRank::Four
    } else if i == 4 {
        EnumRank::Five
    } else if i == 5 {
        EnumRank::Six
    } else if i == 6 {
        EnumRank::Seven
    } else {
        EnumRank::Eight
    }
}

/// The numeric index of a file, A being `0`.
pub open spec fn file_index(file: EnumFile) -> int {
    match file {
        EnumFile::A => 0,
        EnumFile::B => 1,
        EnumFile::C => 2,
        EnumFile::D => 3,
        EnumFile::E => 4,
        EnumFile::F => 5,
        EnumFile::G => 6,
        EnumFile::H => 7,
    }
}

/// The file with the given index.
pub open spec fn file_of_index(i: int) -> EnumFile
    recommends
        0 <= i < 8,
{
    if i == 0 {
        EnumFile::A
    } else if i == 1 {
        EnumFile::B
    } else if i == 2 {
        EnumFile::C
    } else if i == 3 {
        EnumFile::D
    } else if i == 4 {
        EnumFile::E
    } else if i == 5 {
        EnumFile::F
    } else if i == 6 {
        EnumFile::G
    } else {
        EnumFile::H
    }
}

/// Whether `sq` is a valid packed square.
pub open spec fn is_square_code(sq: int) -> bool {
    0 <= sq < 64
}

/// The packed code of a square.
pub open spec fn square_code(rank: EnumRank, file: EnumFile) -> int {
    8 * rank_index(rank) + file_index(file)
}

/// The rank index packed into a square code.
pub open spec fn square_rank_index(sq: int) -> int
    recommends
        is_square_code(sq),
{
    sq / 8
}

/// The file index packed into a square code.
pub open spec fn square_file_index(sq: int) -> int
    recommends
        is_square_code(sq),
{
    sq % 8
}

/// The color half of a packed piece.
pub fn get_color(piece: i8) -> (color: EnumColor)
    requires
        is_piece_code(piece as int),
    ensures
        color == code_color(piece as int),
{
    if piece % 2 == 0 {
        EnumColor::White
    } else {
        EnumColor::Black
    }
}

/// Replace the color half of a packed piece, keeping its kind.
pub fn set_color(piece: &mut i8, color: EnumColor)
    requires
        is_piece_code(*old(piece) as int),
    ensures
        *final(piece) == piece_code(color, code_kind(*old(piece) as int)),
{
    let base: i8 = 2 * (*piece / 2);
    *piece = base + match color {
        EnumColor::White => 0i8,
        EnumColor::Black => 1i8,
    };
}

/// The other color.
pub fn get_opposite_color(color: EnumColor) -> (r: EnumColor)
    ensures
        r == opposite_color(color),
{
    match color {
        EnumColor::White => EnumColor::Black,
        EnumColor::Black => EnumColor::White,
    }
}

/// The kind half of a packed piece.
pub fn get_piece_type(piece: i8) -> (kind: EnumPiecesUncolored)
    requires
        is_piece_code(piece as int),
    ensures
        kind == code_kind(piece as int),
{
    match piece / 2 {
        0 => EnumPiecesUncolored::Pawn,
        1 => EnumPiecesUncolored::Knight,
        2 => EnumPiecesUncolored::Bishop,
        3 => EnumPiecesUncolored::Rook,
        4 => EnumPiecesUncolored::Queen,
        _ => EnumPiecesUncolored::King,
    }
}

/// Replace the kind half of a packed piece, keeping its color.
pub fn set_piece_type(piece: &mut i8, kind: EnumPiecesUncolored)
    requires
        is_piece_code(*old(piece) as int),
    ensures
        *final(piece) == piece_code(code_color(*old(piece) as int), kind),
{
    let color = get_color(*piece);
    *piece = build_piece(color, kind);
}

/// Pack a color and a kind into a piece code.
pub fn build_piece(color: EnumColor, kind: EnumPiecesUncolored) -> (piece: i8)
    ensures
        piece == piece_code(color, kind),
        is_piece_code(piece as int),
{
    2 * match kind {
        EnumPiecesUncolored::Pawn => 0i8,
        EnumPiecesUncolored::Knight => 1i8,
        EnumPiecesUncolored::Bishop => 2i8,
        EnumPiecesUncolored::Rook => 3i8,
        EnumPiecesUncolored::Queen => 4i8,
        EnumPiecesUncolored::King => 5i8,
    } + match color {
        EnumColor::White => 0i8,
        EnumColor::Black => 1i8,
    }
}

/// Read square contents as an optional piece; `-1` encodes emptiness.
pub fn get_contents(contents: i8) -> (r: Option<i8>)
    requires
        is_contents_code(contents as int),
    ensures
        r == (if contents < 0 {
            Option::<i8>::None
        } else {
            Option::<i8>::Some(contents)
        }),
{
    if contents < 0 {
        None
    } else {
        Some(contents)
    }
}

/// Pack an optional piece into square contents.
pub fn build_contents(contents: Option<i8>) -> (r: i8)
    ensures
        r as int == (match contents {
            Option::<i8>::None => -1int,
            Option::<i8>::Some(piece) => piece as int,
        }),
{
    match contents {
        None => -1,
        Some(piece) => piece,
    }
}

/// The rank half of a packed square.
pub fn get_rank(sq: i8) -> (rank: EnumRank)
    requires
        is_square_code(sq as int),
    ensures
        rank == rank_of_index(square_rank_index(sq as int)),
{
    match sq / 8 {
        0 => EnumRank::One,
        1 => EnumRank::Two,
        2 => EnumRank::Three,
        3 => EnumRank::Four,
        4 => EnumRank::Five,
        5 => EnumRank::Six,
        6 => EnumRank::Seven,
        _ => EnumRank::Eight,
    }
}

/// Replace the rank half of a packed square, keeping its file.
pub fn set_rank(sq: &mut i8, rank: EnumRank)
    requires
        is_square_code(*old(sq) as int),
    ensures
        *final(sq) == 8 * rank_index(rank) + square_file_index(*old(sq) as int),
        is_square_code(*final(sq) as int),
{
    let file_part: i8 = *sq % 8;
    *sq = 8 * rank_to_index(rank) + file_part;
}

/// The file half of a packed square.
pub fn get_file(sq: i8) -> (file: EnumFile)
    requires
        is_square_code(sq as int),
    ensures
        file == file_of_index(square_file_index(sq as int)),
{
    match sq % 8 {
        0 => EnumFile::A,
        1 => EnumFile::B,
        2 => EnumFile::C,
        3 => EnumFile::D,
        4 => EnumFile::E,
        5 => EnumFile::F,
        6 => EnumFile::G,
        _ => EnumFile::H,
    }
}

/// Replace the file half of a packed square, keeping its rank.
pub fn set_file(sq: &mut i8, file: EnumFile)
    requires
        is_square_code(*old(sq) as int),
    ensures
        *final(sq) == 8 * square_rank_index(*old(sq) as int) + file_index(file),
        is_square_code(*final(sq) as int),
{
    let rank_part: i8 = 8 * (*sq / 8);
    *sq = rank_part + file_to_index(file);
}

/// The index of a rank as a machine integer.
pub fn rank_to_index(rank: EnumRank) -> (i: i8)
    ensures
        i == rank_index(rank),
{
    match rank {
        EnumRank::One => 0,
        EnumRank::Two => 1,
        EnumRank::Three => 2,
        EnumRank::Four => 3,
        EnumRank::Five => 4,
        EnumRank::Six => 5,
        EnumRank::Seven => 6,
        EnumRank::Eight => 7,
    }
}

/// The index of a file as a machine integer.
pub fn file_to_index(file: EnumFile) -> (i: i8)
    ensures
        i == file_index(file),
{
    match file {
        EnumFile::A => 0,
        EnumFile::B => 1,
        EnumFile::C => 2,
        EnumFile::D => 3,
        EnumFile::E => 4,
        EnumFile::F => 5,
        EnumFile::G => 6,
        EnumFile::H => 7,
    }
}

/// Pack a rank and file into a square code.
pub fn build_square(rank: EnumRank, file: EnumFile) -> (sq: i8)
    ensures
        sq == square_code(rank, file),
        is_square_code(sq as int),
{
    8 * rank_to_index(rank) + file_to_index(file)
}

/// The square on the same file whose rank is mirrored top to bottom.
/// FEN text lists rank Eight first while square codes count from rank
/// One, so the FEN reader flips every index it touches through this.
pub fn vertical_flip_index(sq: i8) -> (r: i8)
    requires
        is_square_code(sq as int),
    ensures
        r == 8 * (7 - square_rank_index(sq as int)) + square_file_index(sq as int),
        is_square_code(r as int),
        square_file_index(r as int) == square_file_index(sq as int),
        square_rank_index(r as int) == 7 - square_rank_index(sq as int),
{
    let rank_part: i8 = sq / 8;
    let file_part: i8 = sq % 8;
    8 * (7 - rank_part) + file_part
}

} // verus!
