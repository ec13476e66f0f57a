//! The full state transition: applying a move to a position updates the
//! board, the fifty-move clock, the castling rights, the en-passant
//! data and the king caches, and flips the side to move. The whole
//! transition is pinned down by `make_move_spec`.

use vstd::prelude::*;

use crate::board::castle_offset;
use crate::board::frozen_board;
use crate::board::move_squares_ok;
use crate::board::Position;
use crate::board::PositionModel;
use crate::encoding::code_kind;
use crate::encoding::opposite_color;
use crate::encoding::square_file_index;
use crate::encoding::square_rank_index;
use crate::types::CastlingMove;
use crate::types::ChessMove;
use crate::types::EnumColor;
use crate::types::EnumPiecesUncolored;

verus! {

/// A castling rule after its owner moved a piece off `moved`: dropped
/// when that vacated its king or rook origin, kept otherwise.
pub open spec fn strip_own_rule(rule: Option<CastlingMove>, moved: int) -> Option<CastlingMove> {
    match rule {
        None => None,
        Some(r) => if r.king_from as int == moved || r.rook_from as int == moved {
            None
        } else {
            Some(r)
        },
    }
}

/// A castling rule after the opponent captured on `removed`: dropped
/// when that was its rook origin, kept otherwise.
pub open spec fn strip_enemy_rule(rule: Option<CastlingMove>, removed: int) -> Option<
    CastlingMove,
> {
    match rule {
        None => None,
        Some(r) => if r.rook_from as int == removed {
            None
        } else {
            Some(r)
        },
    }
}

/// The castling table after `color` vacated square `moved`.
pub open spec fn remove_castling_spec(
    castling: Seq<Option<CastlingMove>>,
    color: EnumColor,
    moved: int,
) -> Seq<Option<CastlingMove>> {
    let off = castle_offset(color);
    castling.update(off, strip_own_rule(castling[off], moved)).update(
        off + 1,
        strip_own_rule(castling[off + 1], moved),
    )
}

/// The castling table after `color`'s opponent captured on `removed`,
/// where `color` is the side whose rights are inspected.
pub open spec fn remove_enemy_castling_spec(
    castling: Seq<Option<CastlingMove>>,
    color: EnumColor,
    removed: int,
) -> Seq<Option<CastlingMove>> {
    let off = castle_offset(color);
    castling.update(off, strip_enemy_rule(castling[off], removed)).update(
        off + 1,
        strip_enemy_rule(castling[off + 1], removed),
    )
}

/// Whether a move resets the fifty-move clock: any capture or any pawn
/// move. Castling and the null move move no pawn and take nothing, so
/// neither is forward progress; en-passant and promotion moves are
/// pawn moves.
pub open spec fn is_forward_progress_spec(p: PositionModel, m: ChessMove) -> bool {
    match m {
        ChessMove::StandardMove(sm) => {
            if p.board[sm.to_square as int] >= 0 {
                true
            } else {
                code_kind(p.board[sm.from_square as int] as int) == EnumPiecesUncolored::Pawn
            }
        },
        ChessMove::NullMove => false,
        ChessMove::CastlingMove(_cm) => false,
        _ => true,
    }
}

/// The half-move clock advanced by one, saturating at fifty.
pub open spec fn inc_ply(ply: i8) -> i8 {
    if ply >= 49 {
        50
    } else {
        (ply + 1) as i8
    }
}

/// The en-passant target square recorded after a double pawn push from
/// `from`: the midpoint square, on rank Three for White and rank Six
/// for Black.
pub open spec fn double_push_midpoint(mover: EnumColor, from: int) -> int {
    match mover {
        EnumColor::White => 8 * 2 + square_file_index(from),
        EnumColor::Black => 8 * 5 + square_file_index(from),
    }
}

/// Whether a standard move is a pawn double push on the pre-move board.
pub open spec fn is_double_pawn_push(p: PositionModel, from: int, to: int) -> bool {
    let c = p.board[from] as int;
    &&& c >= 0
    &&& code_kind(c) == EnumPiecesUncolored::Pawn
    &&& (square_rank_index(to) - square_rank_index(from) == 2 || square_rank_index(to)
        - square_rank_index(from) == -2)
}

/// Whether the full-move number has room to grow once more after a
/// Black move: a machine limit every reachable game meets with room to
/// spare.
pub open spec fn full_move_headroom(p: PositionModel) -> bool {
    p.moving_side == EnumColor::Black ==> p.move_count < i16::MAX - 1
}

/// What a move is permitted to assume of the position it is applied
/// to: every referenced square is on the board, and a standard move
/// touches at least one occupied square (moves drawn from the
/// generator always do).
pub open spec fn applicable(p: PositionModel, m: ChessMove) -> bool {
    &&& move_squares_ok(m)
    &&& (m matches ChessMove::StandardMove(sm) ==> p.board[sm.to_square as int] >= 0
        || p.board[sm.from_square as int] >= 0)
}

/// The complete state transition a move performs: the fifty-move clock
/// resets on forward progress and otherwise advances; the full-move
/// number advances after Black's move; castling rights are stripped
/// for vacated own origins and captured enemy rook origins (castling
/// clears all of the mover's rights); the en-passant data is cleared,
/// then re-set only by a pawn double push; the board changes per
/// `frozen_board`; a king that moved drags its cache square along; the
/// side to move flips.
pub open spec fn make_move_spec(p: PositionModel, m: ChessMove) -> PositionModel {
    let mover = p.moving_side;
    let ply = if is_forward_progress_spec(p, m) {
        0i8
    } else {
        inc_ply(p.ply_count)
    };
    let castling = match m {
        ChessMove::StandardMove(sm) => remove_enemy_castling_spec(
            remove_castling_spec(p.castling, mover, sm.from_square as int),
            opposite_color(mover),
            sm.to_square as int,
        ),
        ChessMove::CastlingMove(cm) => p.castling.update(castle_offset(mover), None).update(
            castle_offset(mover) + 1,
            None,
        ),
        ChessMove::PromotionMove(pm) => remove_enemy_castling_spec(
            p.castling,
            opposite_color(mover),
            pm.to_square as int,
        ),
        _ => p.castling,
    };
    let ep: i8 = match m {
        ChessMove::StandardMove(sm) => {
            if p.board[sm.from_square as int] < 0 {
                p.ep_data
            } else if is_double_pawn_push(p, sm.from_square as int, sm.to_square as int) {
                double_push_midpoint(mover, sm.from_square as int) as i8
            } else {
                -1i8
            }
        },
        _ => -1i8,
    };
    let king_target: Option<i8> = match m {
        ChessMove::StandardMove(sm) => {
            let c = p.board[sm.from_square as int] as int;
            if c >= 0 && code_kind(c) == EnumPiecesUncolored::King {
                Some(sm.to_square)
            } else {
                None
            }
        },
        ChessMove::CastlingMove(cm) => Some(cm.king_to),
        _ => None,
    };
    PositionModel {
        board: frozen_board(p.board, m),
        moving_side: opposite_color(mover),
        ply_count: ply,
        move_count: if mover == EnumColor::Black {
            (p.move_count + 1) as i16
        } else {
            p.move_count
        },
        castling: castling,
        ep_data: ep,
        w_king_square: match (king_target, mover) {
            (Some(sq), EnumColor::White) => sq,
            _ => p.w_king_square,
        },
        b_king_square: match (king_target, mover) {
            (Some(sq), EnumColor::Black) => sq,
            _ => p.b_king_square,
        },
    }
}

/// The model of the position the null move leads to.
pub open spec fn null_move_spec(p: PositionModel) -> PositionModel {
    PositionModel {
        ply_count: inc_ply(p.ply_count),
        move_count: if p.moving_side == EnumColor::Black {
            (p.move_count + 1) as i16
        } else {
            p.move_count
        },
        ep_data: -1i8,
        moving_side: opposite_color(p.moving_side),
        ..p
    }
}

impl Position {
    /// Drop the mover's castling rules whose king or rook origin is the
    /// square just vacated.
    pub fn remove_castling(&mut self, moved_square: i8)
        ensures
            final(self)@ == (
            PositionModel {
                castling: remove_castling_spec(
                    old(self)@.castling,
                    old(self)@.moving_side,
                    moved_square as int,
                ),
                ..old(self)@
            }),
    {
        let color = self.get_color();
        let mut new_rules = self.get_castling(color);
        let mut i: usize = 0;
        while i < 2
            invariant
                0 <= i <= 2,
                i >= 1 ==> new_rules@[0] == strip_own_rule(
                    old(self)@.castling[castle_offset(old(self).moving_side)],
                    moved_square as int,
                ),
                i == 0 ==> new_rules@[0] == old(self)@.castling[castle_offset(
                    old(self).moving_side,
                )],
                i >= 2 ==> new_rules@[1] == strip_own_rule(
                    old(self)@.castling[castle_offset(old(self).moving_side) + 1],
                    moved_square as int,
                ),
                i < 2 ==> new_rules@[1] == old(self)@.castling[castle_offset(
                    old(self).moving_side,
                ) + 1],
                *self == *old(self),
                color == old(self).moving_side,
            decreases 2 - i,
        {
            match new_rules[i] {
                None => {},
                Some(castling_move) => {
                    if castling_move.king_from == moved_square || castling_move.rook_from
                        == moved_square {
                        new_rules[i] = None;
                    }
                },
            }
            i = i + 1;
        }
        self.set_castling(color, new_rules);
    }

    /// Drop the opponent's castling rules whose rook origin is the
    /// square the mover just captured on.
    pub fn remove_enemy_castling(&mut self, removed_square: i8)
        ensures
            final(self)@ == (
            PositionModel {
                castling: remove_enemy_castling_spec(
                    old(self)@.castling,
                    opposite_color(old(self)@.moving_side),
                    removed_square as int,
                ),
                ..old(self)@
            }),
    {
        let color = self.get_opposite_color();
        let mut new_rules = self.get_castling(color);
        let mut i: usize = 0;
        while i < 2
            invariant
                0 <= i <= 2,
                i >= 1 ==> new_rules@[0] == strip_enemy_rule(
                    old(self)@.castling[castle_offset(opposite_color(old(self).moving_side))],
                    removed_square as int,
                ),
                i == 0 ==> new_rules@[0] == old(self)@.castling[castle_offset(
                    opposite_color(old(self).moving_side),
                )],
                i >= 2 ==> new_rules@[1] == strip_enemy_rule(
                    old(self)@.castling[castle_offset(opposite_color(old(self).moving_side)) + 1],
                    removed_square as int,
                ),
                i < 2 ==> new_rules@[1] == old(self)@.castling[castle_offset(
                    opposite_color(old(self).moving_side),
                ) + 1],
                *self == *old(self),
                color == opposite_color(old(self).moving_side),
            decreases 2 - i,
        {
            match new_rules[i] {
                None => {},
                Some(castling_move) => {
                    if castling_move.rook_from == removed_square {
                        new_rules[i] = None;
                    }
                },
            }
            i = i + 1;
        }
        self.set_castling(color, new_rules);
    }

    /// Whether a move resets the fifty-move clock: any capture or any
    /// pawn move; castling and the null move are neither.
    pub fn is_forward_progress(&self, possible_move: ChessMove) -> (r: bool)
        requires
            self@.board_contents_wf(),
            applicable(self@, possible_move),
        ensures
            r == is_forward_progress_spec(self@, possible_move),
    {
        match possible_move {
            ChessMove::StandardMove(unwrapped_move) => {
                match crate::encoding::get_contents(self.query_square(unwrapped_move.to_square)) {
                    None => {
                        let piece = self.query_square(unwrapped_move.from_square);
                        crate::encoding::get_piece_type(piece) == EnumPiecesUncolored::Pawn
                    },
                    Some(_piece) => true,
                }
            },
            ChessMove::NullMove => false,
            ChessMove::CastlingMove(_castling_move) => false,
            _ => true,
        }
    }

    /// Apply a move in place: the full state transition of
    /// `make_move_spec`.
    pub fn make_move(&mut self, possible_move: ChessMove)
        requires
            old(self)@.board_contents_wf(),
            old(self)@.move_count < i16::MAX,
            applicable(old(self)@, possible_move),
        ensures
            final(self)@ == make_move_spec(old(self)@, possible_move),
            final(self)@.board_contents_wf(),
    {
        if self.is_forward_progress(possible_move) {
            self.reset_ply_counter();
        } else {
            self.increment_ply();
        }
        let mut update_king_square: Option<i8> = None;
        match possible_move {
            ChessMove::StandardMove(updating_move) => {
                self.remove_castling(updating_move.from_square);
                self.remove_enemy_castling(updating_move.to_square);
                match crate::encoding::get_contents(self.query_square(updating_move.from_square)) {
                    None => {},
                    Some(piece) => {
                        let gap = crate::geometry::get_offset(
                            updating_move.from_square,
                            updating_move.to_square,
                        ).0;
                        if (gap == 2 || gap == -2) && crate::encoding::get_piece_type(piece)
                            == EnumPiecesUncolored::Pawn {
                            let midpoint_square = match self.get_color() {
                                EnumColor::White => crate::encoding::build_square(
                                    crate::types::EnumRank::Three,
                                    crate::encoding::get_file(updating_move.from_square),
                                ),
                                EnumColor::Black => crate::encoding::build_square(
                                    crate::types::EnumRank::Six,
                                    crate::encoding::get_file(updating_move.from_square),
                                ),
                            };
                            self.set_ep_square(Some((updating_move.to_square, midpoint_square)));
                        } else {
                            self.set_ep_square(None);
                        }
                        if crate::encoding::get_piece_type(piece) == EnumPiecesUncolored::King {
                            update_king_square = Some(updating_move.to_square);
                        }
                    },
                }
            },
            ChessMove::CastlingMove(castling_move) => {
                self.set_ep_square(None);
                let color = self.get_color();
                self.set_castling(color, [None, None]);
                update_king_square = Some(castling_move.king_to);
            },
            ChessMove::PromotionMove(promotion_move) => {
                self.set_ep_square(None);
                self.remove_enemy_castling(promotion_move.to_square);
            },
            _ => self.set_ep_square(None),
        }
        self.frozen_make_move(possible_move);
        match update_king_square {
            None => {},
            Some(new_square) => {
                match self.get_color() {
                    EnumColor::White => self.set_w_king_square(new_square),
                    EnumColor::Black => self.set_b_king_square(new_square),
                }
            },
        }
        if self.get_color() == EnumColor::Black {
            self.increment_move();
        }
        let flipped = self.get_opposite_color();
        self.set_color(flipped);
    }

    /// The position a move leads to, leaving `self` untouched.
    pub fn after_move(&self, possible_move: ChessMove) -> (r: Position)
        requires
            self@.board_contents_wf(),
            self@.move_count < i16::MAX,
            applicable(self@, possible_move),
        ensures
            r@ == make_move_spec(self@, possible_move),
            r@.board_contents_wf(),
    {
        let mut position_after = *self;
        position_after.make_move(possible_move);
        position_after
    }

    /// The state transition of the null move: it advances the fifty-
    /// move clock, advances the full-move number after Black's turn,
    /// clears the en-passant data and flips the side to move, touching
    /// nothing on the board.
    pub fn do_null_move(&mut self)
        requires
            old(self).move_count < i16::MAX,
        ensures
            final(self)@ == null_move_spec(old(self)@),
    {
        self.increment_ply();
        if self.get_color() == EnumColor::Black {
            self.increment_move();
        }
        self.set_ep_square(None);
        let flipped = self.get_opposite_color();
        self.set_color(flipped);
    }

    /// The position the null move leads to, leaving `self` untouched.
    pub fn after_null_move(&self) -> (r: Position)
        requires
            self.move_count < i16::MAX,
        ensures
            r@ == null_move_spec(self@),
    {
        let mut position_after = *self;
        position_after.do_null_move();
        position_after
    }
}

} // verus!
