//! The aggregate game state: a flat 64-entry board of packed contents,
//! the side to move, the two move counters, the castling-rights table,
//! the en-passant data and the cached king squares, together with the
//! well-formedness invariant every rules-level operation preserves and
//! the pure board-content update (`frozen_make_move`).

use vstd::prelude::*;

use crate::encoding::code_color;
use crate::encoding::code_kind;
use crate::encoding::is_contents_code;
use crate::encoding::is_piece_code;
use crate::encoding::is_square_code;
use crate::encoding::opposite_color;
use crate::encoding::piece_code;
use crate::encoding::square_rank_index;
use crate::encoding::square_file_index;
use crate::types::CastlingMove;
use crate::types::ChessMove;
use crate::types::EnumColor;
use crate::types::EnumPiecesUncolored;

verus! {

/// A complete game state, FEN-equivalent. The castling table holds up
/// to two rules per color, White's in slots 0 and 1 (kingside first by
/// convention, though nothing relies on the order), Black's in slots 2
/// and 3. `ep_data` is the en-passant target square, `-1` when absent.
#[derive(Clone, Copy, Debug)]
pub struct Position {
    pub board: [i8; 64],
    pub moving_side: EnumColor,
    pub ply_count: i8,
    pub move_count: i16,
    pub castling: [Option<CastlingMove>; 4],
    pub ep_data: i8,
    pub w_king_square: i8,
    pub b_king_square: i8,
}

/// The mathematical model of a position: the same components with the
/// board and the castling table read as sequences. Contracts and laws
/// speak of this view.
#[verifier::ext_equal]
pub struct PositionModel {
    pub board: Seq<i8>,
    pub moving_side: EnumColor,
    pub ply_count: i8,
    pub move_count: i16,
    pub castling: Seq<Option<CastlingMove>>,
    pub ep_data: i8,
    pub w_king_square: i8,
    pub b_king_square: i8,
}

impl View for Position {
    type V = PositionModel;

    open spec fn view(&self) -> PositionModel {
        PositionModel {
            board: self.board@,
            moving_side: self.moving_side,
            ply_count: self.ply_count,
            move_count: self.move_count,
            castling: self.castling@,
            ep_data: self.ep_data,
            w_king_square: self.w_king_square,
            b_king_square: self.b_king_square,
        }
    }
}

/// The square of the pawn an en-passant capture would remove, given the
/// side to move and the en-passant target square.
pub open spec fn ep_taken_square(mover: EnumColor, ep: int) -> int {
    match mover {
        EnumColor::White => ep - 8,
        EnumColor::Black => ep + 8,
    }
}

/// The color whose castling rules live in slot `i` of the table.
pub open spec fn castle_slot_color(i: int) -> EnumColor {
    if i < 2 {
        EnumColor::White
    } else {
        EnumColor::Black
    }
}

/// The first slot of the castling table belonging to `color`.
pub open spec fn castle_offset(color: EnumColor) -> int {
    match color {
        EnumColor::White => 0,
        EnumColor::Black => 2,
    }
}

/// Whether `x` lies strictly between `a` and `b`.
pub open spec fn strictly_between(x: int, a: int, b: int) -> bool {
    (a < x && x < b) || (b < x && x < a)
}

impl PositionModel {
    /// Every board entry is empty or a valid packed piece.
    pub open spec fn board_contents_wf(self) -> bool {
        &&& self.board.len() == 64
        &&& forall|i: int| 0 <= i < 64 ==> is_contents_code(#[trigger] self.board[i] as int)
    }

    /// Each king cache points at the one square holding that king.
    pub open spec fn kings_wf(self) -> bool {
        &&& is_square_code(self.w_king_square as int)
        &&& is_square_code(self.b_king_square as int)
        &&& forall|i: int|
            0 <= i < 64 ==> ((#[trigger] self.board[i]) as int == piece_code(
                EnumColor::White,
                EnumPiecesUncolored::King,
            ) <==> i == self.w_king_square as int)
        &&& forall|i: int|
            0 <= i < 64 ==> ((#[trigger] self.board[i]) as int == piece_code(
                EnumColor::Black,
                EnumPiecesUncolored::King,
            ) <==> i == self.b_king_square as int)
    }

    /// When en-passant data is present it describes a double push the
    /// opponent just made: the target square sits on the third rank
    /// from the opponent's side, it is empty, and the pawn to be taken
    /// stands behind it.
    pub open spec fn ep_wf(self) -> bool {
        self.ep_data == -1 || {
            let ep = self.ep_data as int;
            &&& match self.moving_side {
                EnumColor::White => 40 <= ep < 48,
                EnumColor::Black => 16 <= ep < 24,
            }
            &&& self.board[ep] == -1
            &&& self.board[ep_taken_square(self.moving_side, ep)] as int == piece_code(
                opposite_color(self.moving_side),
                EnumPiecesUncolored::Pawn,
            )
        }
    }

    /// A recorded castling rule is honest: its king and rook squares
    /// currently hold that color's king and rook, all four squares
    /// share a rank, and both destinations lie strictly between the two
    /// origins (so the walk that checks the path covers them).
    pub open spec fn castle_rule_wf(self, color: EnumColor, rule: CastlingMove) -> bool {
        &&& is_square_code(rule.king_from as int)
        &&& is_square_code(rule.rook_from as int)
        &&& is_square_code(rule.king_to as int)
        &&& is_square_code(rule.rook_to as int)
        &&& square_rank_index(rule.rook_from as int) == square_rank_index(rule.king_from as int)
        &&& square_rank_index(rule.king_to as int) == square_rank_index(rule.king_from as int)
        &&& square_rank_index(rule.rook_to as int) == square_rank_index(rule.king_from as int)
        &&& self.board[rule.king_from as int] as int == piece_code(
            color,
            EnumPiecesUncolored::King,
        )
        &&& self.board[rule.rook_from as int] as int == piece_code(
            color,
            EnumPiecesUncolored::Rook,
        )
        &&& strictly_between(
            square_file_index(rule.king_to as int),
            square_file_index(rule.king_from as int),
            square_file_index(rule.rook_from as int),
        )
        &&& strictly_between(
            square_file_index(rule.rook_to as int),
            square_file_index(rule.king_from as int),
            square_file_index(rule.rook_from as int),
        )
        &&& rule.king_to != rule.rook_to
    }

    /// Every recorded castling rule is honest for its slot's color.
    pub open spec fn castling_wf(self) -> bool {
        &&& self.castling.len() == 4
        &&& forall|i: int|
            0 <= i < 4 ==> (#[trigger] self.castling[i] matches Some(rule)
                ==> self.castle_rule_wf(castle_slot_color(i), rule))
    }

    /// No pawn stands on the back rank of its own advance, where the
    /// generator could form no forward move for it.
    pub open spec fn pawns_wf(self) -> bool {
        forall|i: int|
            0 <= i < 64 ==> ((i >= 56 ==> (#[trigger] self.board[i]) as int != piece_code(
                EnumColor::White,
                EnumPiecesUncolored::Pawn,
            )) && (i < 8 ==> self.board[i] as int != piece_code(
                EnumColor::Black,
                EnumPiecesUncolored::Pawn,
            )))
    }

    /// The well-formedness invariant of a position: established by the
    /// start position and the FEN reader, preserved by move
    /// application. The move-count bound leaves room for the increment
    /// after Black's move.
    pub open spec fn wf(self) -> bool {
        &&& self.board_contents_wf()
        &&& self.kings_wf()
        &&& self.ep_wf()
        &&& self.castling_wf()
        &&& self.pawns_wf()
        &&& self.move_count < i16::MAX
    }
}

impl Position {
    /// The well-formedness invariant, read through the model.
    pub open spec fn wf(self) -> bool {
        self@.wf()
    }

    /// Decide the well-formedness invariant at run time: whether every
    /// square holds valid contents, each king cache points at the one
    /// square with that king, the en-passant data and castling rules
    /// are honest, no pawn sits on the back rank of its advance, and
    /// the move counter has room to grow.
    pub fn is_well_formed(&self) -> (r: bool)
        ensures
            r == self@.wf(),
    {
        if !(0 <= self.w_king_square && self.w_king_square < 64 && 0 <= self.b_king_square
            && self.b_king_square < 64) {
            return false;
        }
        let mut i: usize = 0;
        while i < 64
            invariant
                0 <= i <= 64,
                is_square_code(self@.w_king_square as int),
                is_square_code(self@.b_king_square as int),
                forall|j: int| 0 <= j < i ==> is_contents_code(#[trigger] self@.board[j] as int),
                forall|j: int|
                    0 <= j < i ==> ((#[trigger] self@.board[j]) as int == piece_code(
                        EnumColor::White,
                        EnumPiecesUncolored::King,
                    ) <==> j == self@.w_king_square as int),
                forall|j: int|
                    0 <= j < i ==> ((#[trigger] self@.board[j]) as int == piece_code(
                        EnumColor::Black,
                        EnumPiecesUncolored::King,
                    ) <==> j == self@.b_king_square as int),
                forall|j: int|
                    0 <= j < i ==> ((j >= 56 ==> (#[trigger] self@.board[j]) as int != piece_code(
                        EnumColor::White,
                        EnumPiecesUncolored::Pawn,
                    )) && (j < 8 ==> self@.board[j] as int != piece_code(
                        EnumColor::Black,
                        EnumPiecesUncolored::Pawn,
                    ))),
            decreases 64 - i,
        {
            let c = self.board[i];
            proof {
                assert(self@.board[i as int] == c);
            }
            if !(-1 <= c && c < 12) {
                return false;
            }
            if (c == 10) != (i == self.w_king_square as usize) {
                return false;
            }
            if (c == 11) != (i == self.b_king_square as usize) {
                return false;
            }
            if i >= 56 && c == 0 {
                return false;
            }
            if i < 8 && c == 1 {
                return false;
            }
            i = i + 1;
        }
        if self.ep_data != -1 {
            let ep_ok = match self.moving_side {
                EnumColor::White => 40 <= self.ep_data && self.ep_data < 48,
                EnumColor::Black => 16 <= self.ep_data && self.ep_data < 24,
            };
            if !ep_ok {
                return false;
            }
            if self.query_square(self.ep_data) != -1 {
                return false;
            }
            let taken: i8 = match self.moving_side {
                EnumColor::White => self.ep_data - 8,
                EnumColor::Black => self.ep_data + 8,
            };
            let expected_pawn = crate::encoding::build_piece(
                crate::encoding::get_opposite_color(self.moving_side),
                EnumPiecesUncolored::Pawn,
            );
            if self.query_square(taken) != expected_pawn {
                return false;
            }
        }
        let mut k: usize = 0;
        while k < 4
            invariant
                0 <= k <= 4,
                self@.board_contents_wf(),
                self@.kings_wf(),
                self@.ep_wf(),
                self@.pawns_wf(),
                forall|j: int|
                    0 <= j < k ==> (#[trigger] self@.castling[j] matches Some(rule)
                        ==> self@.castle_rule_wf(castle_slot_color(j), rule)),
            decreases 4 - k,
        {
            proof {
                assert(self@.castling[k as int] == self.castling@[k as int]);
            }
            match self.castling[k] {
                None => {},
                Some(rule) => {
                    if !(0 <= rule.king_from && rule.king_from < 64 && 0 <= rule.rook_from
                        && rule.rook_from < 64 && 0 <= rule.king_to && rule.king_to < 64 && 0
                        <= rule.rook_to && rule.rook_to < 64) {
                        return false;
                    }
                    if rule.rook_from / 8 != rule.king_from / 8 || rule.king_to / 8
                        != rule.king_from / 8 || rule.rook_to / 8 != rule.king_from / 8 {
                        return false;
                    }
                    let color = if k < 2 {
                        EnumColor::White
                    } else {
                        EnumColor::Black
                    };
                    let king_code = crate::encoding::build_piece(color, EnumPiecesUncolored::King);
                    let rook_code = crate::encoding::build_piece(color, EnumPiecesUncolored::Rook);
                    if self.query_square(rule.king_from) != king_code || self.query_square(
                        rule.rook_from,
                    ) != rook_code {
                        return false;
                    }
                    let kf_file = rule.king_from % 8;
                    let rf_file = rule.rook_from % 8;
                    let kt_file = rule.king_to % 8;
                    let rt_file = rule.rook_to % 8;
                    let kt_between = (kf_file < kt_file && kt_file < rf_file) || (rf_file < kt_file
                        && kt_file < kf_file);
                    let rt_between = (kf_file < rt_file && rt_file < rf_file) || (rf_file < rt_file
                        && rt_file < kf_file);
                    if !kt_between || !rt_between || rule.king_to == rule.rook_to {
                        return false;
                    }
                },
            }
            k = k + 1;
        }
        self.move_count < i16::MAX
    }

    /// The contents of one square.
    pub fn query_square(&self, sq: i8) -> (r: i8)
        requires
            is_square_code(sq as int),
        ensures
            r == self@.board[sq as int],
    {
        self.board[sq as usize]
    }

    /// Overwrite the contents of one square.
    pub fn set_square(&mut self, sq: i8, new_contents: i8)
        requires
            is_square_code(sq as int),
        ensures
            final(self)@ == (
            PositionModel { board: old(self)@.board.update(sq as int, new_contents), ..old(self)@ }),
    {
        self.board[sq as usize] = new_contents;
    }

    /// The side to move.
    pub fn get_color(&self) -> (r: EnumColor)
        ensures
            r == self@.moving_side,
    {
        self.moving_side
    }

    /// Set the side to move.
    pub fn set_color(&mut self, color: EnumColor)
        ensures
            final(self)@ == (PositionModel { moving_side: color, ..old(self)@ }),
    {
        self.moving_side = color;
    }

    /// The color not moving.
    pub fn get_opposite_color(&self) -> (r: EnumColor)
        ensures
            r == opposite_color(self@.moving_side),
    {
        crate::encoding::get_opposite_color(self.moving_side)
    }

    /// The half-move clock for the fifty-move rule.
    pub fn get_ply_count(&self) -> (r: i8)
        ensures
            r == self@.ply_count,
    {
        self.ply_count
    }

    /// Set the half-move clock.
    pub fn set_ply_count(&mut self, ply_count: i8)
        ensures
            final(self)@ == (PositionModel { ply_count: ply_count, ..old(self)@ }),
    {
        self.ply_count = ply_count;
    }

    /// Zero the half-move clock, as any capture or pawn move does.
    pub fn reset_ply_counter(&mut self)
        ensures
            final(self)@ == (PositionModel { ply_count: 0, ..old(self)@ }),
    {
        self.set_ply_count(0);
    }

    /// Advance the half-move clock, saturating at fifty.
    pub fn increment_ply(&mut self)
        ensures
            final(self)@ == (
            PositionModel {
                ply_count: if old(self).ply_count >= 49 {
                    50
                } else {
                    (old(self).ply_count + 1) as i8
                },
                ..old(self)@
            }),
    {
        let capped: i8 = if self.ply_count >= 49 {
            49
        } else {
            self.ply_count
        };
        self.set_ply_count(capped + 1);
    }

    /// Whether the fifty-move clock has run out.
    pub fn time_up(&self) -> (r: bool)
        ensures
            r == (self@.ply_count == 50),
    {
        self.ply_count == 50
    }

    /// The full-move number.
    pub fn get_move_count(&self) -> (r: i16)
        ensures
            r == self@.move_count,
    {
        self.move_count
    }

    /// Set the full-move number.
    pub fn set_move_count(&mut self, move_count: i16)
        ensures
            final(self)@ == (PositionModel { move_count: move_count, ..old(self)@ }),
    {
        self.move_count = move_count;
    }

    /// Advance the full-move number, as happens after Black moves.
    pub fn increment_move(&mut self)
        requires
            old(self).move_count < i16::MAX,
        ensures
            final(self)@ == (
            PositionModel { move_count: (old(self).move_count + 1) as i16, ..old(self)@ }),
    {
        let count = self.get_move_count();
        self.set_move_count(count + 1);
    }

    /// The two castling rules recorded for `color`, kingside slot
    /// first.
    pub fn get_castling(&self, color: EnumColor) -> (r: [Option<CastlingMove>; 2])
        ensures
            r@[0] == self@.castling[castle_offset(color)],
            r@[1] == self@.castling[castle_offset(color) + 1],
    {
        let offset: usize = match color {
            EnumColor::White => 0,
            EnumColor::Black => 2,
        };
        [self.castling[offset], self.castling[offset + 1]]
    }

    /// Overwrite the two castling rules recorded for `color`.
    pub fn set_castling(&mut self, color: EnumColor, new_rules: [Option<CastlingMove>; 2])
        ensures
            final(self)@ == (
            PositionModel {
                castling: old(self)@.castling.update(castle_offset(color), new_rules@[0]).update(
                    castle_offset(color) + 1,
                    new_rules@[1],
                ),
                ..old(self)@
            }),
    {
        let offset: usize = match color {
            EnumColor::White => 0,
            EnumColor::Black => 2,
        };
        self.castling[offset] = new_rules[0];
        self.castling[offset + 1] = new_rules[1];
    }

    /// The cached square of the white king.
    pub fn get_w_king_square(&self) -> (r: i8)
        ensures
            r == self@.w_king_square,
    {
        self.w_king_square
    }

    /// Update the cached square of the white king.
    pub fn set_w_king_square(&mut self, sq: i8)
        ensures
            final(self)@ == (PositionModel { w_king_square: sq, ..old(self)@ }),
    {
        self.w_king_square = sq;
    }

    /// The cached square of the black king.
    pub fn get_b_king_square(&self) -> (r: i8)
        ensures
            r == self@.b_king_square,
    {
        self.b_king_square
    }

    /// Update the cached square of the black king.
    pub fn set_b_king_square(&mut self, sq: i8)
        ensures
            final(self)@ == (PositionModel { b_king_square: sq, ..old(self)@ }),
    {
        self.b_king_square = sq;
    }

    /// The en-passant data, as the (pawn to be taken, target square)
    /// pair, when present.
    pub fn try_get_ep_square(&self) -> (r: Option<(i8, i8)>)
        requires
            self@.ep_data >= 0 ==> self@.ep_data < 64,
        ensures
            self@.ep_data < 0 ==> r is None,
            self@.ep_data >= 0 ==> r == Some(
                (
                    ep_taken_square(self@.moving_side, self@.ep_data as int) as i8,
                    self@.ep_data,
                ),
            ),
    {
        let ep_to_taken: i8 = match self.moving_side {
            EnumColor::White => -8,
            EnumColor::Black => 8,
        };
        if self.ep_data < 0 {
            None
        } else {
            Some((self.ep_data + ep_to_taken, self.ep_data))
        }
    }

    /// Record or clear the en-passant data; only the target square of
    /// the pair is stored.
    pub fn set_ep_square(&mut self, value: Option<(i8, i8)>)
        ensures
            final(self)@ == (
            PositionModel {
                ep_data: match value {
                    None => -1i8,
                    Some(pair) => pair.1,
                },
                ..old(self)@
            }),
    {
        match value {
            None => self.ep_data = -1,
            Some(pair) => self.ep_data = pair.1,
        }
    }
}

/// Whether every square a move touches is on the board, and a
/// promotion's chosen piece is a valid code.
pub open spec fn move_squares_ok(m: ChessMove) -> bool {
    match m {
        ChessMove::NullMove => true,
        ChessMove::StandardMove(sm) => is_square_code(sm.from_square as int) && is_square_code(
            sm.to_square as int,
        ),
        ChessMove::PromotionMove(pm) => is_square_code(pm.from_square as int) && is_square_code(
            pm.to_square as int,
        ) && is_piece_code(pm.promotion_choice as int),
        ChessMove::EnPassantMove(em) => is_square_code(em.from_square as int) && is_square_code(
            em.taken_square as int,
        ) && is_square_code(em.to_square as int),
        ChessMove::CastlingMove(cm) => is_square_code(cm.king_from as int) && is_square_code(
            cm.rook_from as int,
        ) && is_square_code(cm.king_to as int) && is_square_code(cm.rook_to as int),
    }
}

/// The board contents after the pure relocation a move describes,
/// leaving all other state untouched: a standard move relocates one
/// piece, a promotion relocates and re-types it, an en-passant move
/// also clears the taken square, castling relocates king and rook, and
/// the null move changes nothing.
pub open spec fn frozen_board(b: Seq<i8>, m: ChessMove) -> Seq<i8>
    recommends
        b.len() == 64,
        move_squares_ok(m),
{
    match m {
        ChessMove::NullMove => b,
        ChessMove::StandardMove(sm) => b.update(sm.from_square as int, -1i8).update(
            sm.to_square as int,
            b[sm.from_square as int],
        ),
        ChessMove::PromotionMove(pm) => {
            let orig = b[pm.from_square as int] as int;
            let promoted: i8 = if orig < 0 {
                -1i8
            } else {
                piece_code(code_color(orig), code_kind(pm.promotion_choice as int)) as i8
            };
            b.update(pm.from_square as int, -1i8).update(pm.to_square as int, promoted)
        },
        ChessMove::EnPassantMove(em) => b.update(em.from_square as int, -1i8).update(
            em.taken_square as int,
            -1i8,
        ).update(em.to_square as int, b[em.from_square as int]),
        ChessMove::CastlingMove(cm) => b.update(cm.rook_from as int, -1i8).update(
            cm.king_from as int,
            -1i8,
        ).update(cm.rook_to as int, b[cm.rook_from as int]).update(
            cm.king_to as int,
            b[cm.king_from as int],
        ),
    }
}

impl Position {
    /// Apply the pure board-content part of a move in place, touching
    /// no counters, rights, caches or the side to move.
    pub fn frozen_make_move(&mut self, possible_move: ChessMove)
        requires
            old(self)@.board_contents_wf(),
            move_squares_ok(possible_move),
        ensures
            final(self)@ == (
            PositionModel {
                board: frozen_board(old(self)@.board, possible_move),
                ..old(self)@
            }),
            final(self)@.board_contents_wf(),
    {
        match possible_move {
            ChessMove::NullMove => {},
            ChessMove::StandardMove(standard_move) => {
                let thing_moved = self.query_square(standard_move.from_square);
                self.set_square(standard_move.from_square, crate::encoding::build_contents(None));
                self.set_square(standard_move.to_square, thing_moved);
            },
            ChessMove::PromotionMove(promotion_move) => {
                let promoted_content = match crate::encoding::get_contents(
                    self.query_square(promotion_move.from_square),
                ) {
                    None => None,
                    Some(piece) => {
                        let mut new_piece = piece;
                        crate::encoding::set_piece_type(
                            &mut new_piece,
                            crate::encoding::get_piece_type(promotion_move.promotion_choice),
                        );
                        Some(new_piece)
                    },
                };
                self.set_square(promotion_move.from_square, crate::encoding::build_contents(None));
                self.set_square(
                    promotion_move.to_square,
                    crate::encoding::build_contents(promoted_content),
                );
            },
            ChessMove::EnPassantMove(ep_move) => {
                let thing_moved = self.query_square(ep_move.from_square);
                self.set_square(ep_move.from_square, crate::encoding::build_contents(None));
                self.set_square(ep_move.taken_square, crate::encoding::build_contents(None));
                self.set_square(ep_move.to_square, thing_moved);
            },
            ChessMove::CastlingMove(castling_move) => {
                let rook_moved = self.query_square(castling_move.rook_from);
                let king_moved = self.query_square(castling_move.king_from);
                self.set_square(castling_move.rook_from, crate::encoding::build_contents(None));
                self.set_square(castling_move.king_from, crate::encoding::build_contents(None));
                self.set_square(castling_move.rook_to, rook_moved);
                self.set_square(castling_move.king_to, king_moved);
            },
        }
    }

    /// The position reached from a copy of `self` by the pure
    /// board-content part of a move.
    pub fn after_frozen_move(&self, possible_move: ChessMove) -> (r: Position)
        requires
            self@.board_contents_wf(),
            move_squares_ok(possible_move),
        ensures
            r@ == (PositionModel { board: frozen_board(self@.board, possible_move), ..self@ }),
            r@.board_contents_wf(),
    {
        let mut after_pos = *self;
        after_pos.frozen_make_move(possible_move);
        after_pos
    }
}

/// The piece standing on square `i` in the standard chess start
/// position, as packed contents.
pub open spec fn startpos_piece(i: int) -> i8
    recommends
        0 <= i < 64,
{
    if i < 8 {
        piece_code(EnumColor::White, back_rank_kind(i)) as i8
    } else if i < 16 {
        piece_code(EnumColor::White, EnumPiecesUncolored::Pawn) as i8
    } else if i < 48 {
        -1i8
    } else if i < 56 {
        piece_code(EnumColor::Black, EnumPiecesUncolored::Pawn) as i8
    } else {
        piece_code(EnumColor::Black, back_rank_kind(i - 56)) as i8
    }
}

/// The piece kind on file `f` of either back rank in the start
/// position.
pub open spec fn back_rank_kind(f: int) -> EnumPiecesUncolored
    recommends
        0 <= f < 8,
{
    if f == 0 || f == 7 {
        EnumPiecesUncolored::Rook
    } else if f == 1 || f == 6 {
        EnumPiecesUncolored::Knight
    } else if f == 2 || f == 5 {
        EnumPiecesUncolored::Bishop
    } else if f == 3 {
        EnumPiecesUncolored::Queen
    } else {
        EnumPiecesUncolored::King
    }
}

/// The start-position board as a sequence of packed contents.
pub open spec fn startpos_board() -> Seq<i8> {
    Seq::new(64, |i: int| startpos_piece(i))
}

/// The four castling rules every game starts with: White kingside and
/// queenside, then Black kingside and queenside.
pub open spec fn startpos_castling() -> Seq<Option<CastlingMove>> {
    seq![
        Some(CastlingMove { king_from: 4, rook_from: 7, king_to: 6, rook_to: 5 }),
        Some(CastlingMove { king_from: 4, rook_from: 0, king_to: 2, rook_to: 3 }),
        Some(CastlingMove { king_from: 60, rook_from: 63, king_to: 62, rook_to: 61 }),
        Some(CastlingMove { king_from: 60, rook_from: 56, king_to: 58, rook_to: 59 }),
    ]
}

/// The standard chess start position.
pub fn startpos() -> (r: Position)
    ensures
        r@ == (PositionModel {
            board: startpos_board(),
            moving_side: EnumColor::White,
            ply_count: 0,
            move_count: 1,
            castling: startpos_castling(),
            ep_data: -1i8,
            w_king_square: 4,
            b_king_square: 60,
        }),
        r@.wf(),
{
    let board: [i8; 64] = [
        6, 2, 4, 8, 10, 4, 2, 6,
        0, 0, 0, 0, 0, 0, 0, 0,
        -1, -1, -1, -1, -1, -1, -1, -1,
        -1, -1, -1, -1, -1, -1, -1, -1,
        -1, -1, -1, -1, -1, -1, -1, -1,
        -1, -1, -1, -1, -1, -1, -1, -1,
        1, 1, 1, 1, 1, 1, 1, 1,
        7, 3, 5, 9, 11, 5, 3, 7,
    ];
    let castling: [Option<CastlingMove>; 4] = [
        Some(CastlingMove { king_from: 4, rook_from: 7, king_to: 6, rook_to: 5 }),
        Some(CastlingMove { king_from: 4, rook_from: 0, king_to: 2, rook_to: 3 }),
        Some(CastlingMove { king_from: 60, rook_from: 63, king_to: 62, rook_to: 61 }),
        Some(CastlingMove { king_from: 60, rook_from: 56, king_to: 58, rook_to: 59 }),
    ];
    let r = Position {
        board,
        moving_side: EnumColor::White,
        ply_count: 0,
        move_count: 1,
        castling,
        ep_data: -1,
        w_king_square: 4,
        b_king_square: 60,
    };
    proof {
        assert(r.board@ =~= startpos_board());
        assert(r.castling@ =~= startpos_castling());
    }
    r
}

/// Whether two positions agree in every component: board, side to
/// move, both counters, castling table, en-passant data and king
/// caches.
pub fn positions_equal(a: &Position, b: &Position) -> (r: bool)
    ensures
        r == (a@ == b@),
{
    let mut i: usize = 0;
    while i < 64
        invariant
            0 <= i <= 64,
            forall|j: int| 0 <= j < i ==> a@.board[j] == b@.board[j],
        decreases 64 - i,
    {
        if a.board[i] != b.board[i] {
            proof {
                assert(a@.board[i as int] != b@.board[i as int]);
            }
            return false;
        }
        i = i + 1;
    }
    proof {
        assert(a@.board =~= b@.board);
    }
    let mut k: usize = 0;
    while k < 4
        invariant
            0 <= k <= 4,
            a@.board == b@.board,
            forall|j: int| 0 <= j < k ==> a@.castling[j] == b@.castling[j],
        decreases 4 - k,
    {
        let same = match (a.castling[k], b.castling[k]) {
            (None, None) => true,
            (Some(x), Some(y)) => x == y,
            _ => false,
        };
        if !same {
            proof {
                assert(a@.castling[k as int] != b@.castling[k as int]);
            }
            return false;
        }
        k = k + 1;
    }
    proof {
        assert(a@.castling =~= b@.castling);
    }
    let colors_match = match (a.moving_side, b.moving_side) {
        (EnumColor::White, EnumColor::White) => true,
        (EnumColor::Black, EnumColor::Black) => true,
        _ => false,
    };
    let rest = colors_match && a.ply_count == b.ply_count && a.move_count == b.move_count
        && a.ep_data == b.ep_data && a.w_king_square == b.w_king_square && a.b_king_square
        == b.b_king_square;
    proof {
        if rest {
            assert(a@ =~= b@);
        }
    }
    rest
}

} // verus!
