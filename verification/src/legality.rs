//! The legality filter over pseudo-legal moves, and the game-ending
//! classifications built on it. A castling move is legal when the
//! mover is not in check and no square the king passes over (origin
//! exclusive, destination inclusive) is attacked; any other move is
//! legal when the mover is not in check after playing it.

use vstd::prelude::*;

use crate::apply::applicable;
use crate::apply::make_move_spec;
use crate::attack::sees_attack;
use crate::board::Position;
use crate::board::PositionModel;
use crate::encoding::code_color;
use crate::encoding::code_kind;
use crate::encoding::is_square_code;
use crate::encoding::opposite_color;
use crate::encoding::square_file_index;
use crate::geometry::offset_amount;
use crate::geometry::offset_in_board;
use crate::geometry::offset_square;
use crate::geometry::ray_direction_to;
use crate::geometry::Ray;
use crate::movegen::pseudo_legal_moves_spec;
use crate::props::lemma_pseudo_legal_props;
use crate::types::ChessMove;
use crate::types::EnumColor;
use crate::types::EnumPiecesUncolored;

verus! {

/// Whether every square the king passes over on its way to `king_to`
/// (origin exclusive, destination inclusive) is free of enemy attack.
/// The walk stops once it reaches the destination's file, or at the
/// board edge.
pub open spec fn castle_king_path_safe(
    b: Seq<i8>,
    defender: EnumColor,
    cur: int,
    king_to: int,
    dr: int,
    df: int,
    fuel: nat,
) -> bool
    decreases fuel,
{
    if fuel == 0 {
        true
    } else if !offset_in_board(cur, dr, df) {
        true
    } else {
        let t = offset_square(cur, dr, df);
        if sees_attack(b, defender, t) {
            false
        } else if square_file_index(t) == square_file_index(king_to) {
            true
        } else {
            castle_king_path_safe(b, defender, t, king_to, dr, df, (fuel - 1) as nat)
        }
    }
}

/// Whether a pseudo-legal move passes the remaining legality test:
/// castling must start out of check and walk the king over safe
/// squares only; every other move must not leave the mover in check.
pub open spec fn check_remaining_legality_spec(p: PositionModel, m: ChessMove) -> bool {
    match m {
        ChessMove::CastlingMove(cm) => {
            &&& !p.mover_in_check_spec()
            &&& match ray_direction_to(cm.king_from as int, cm.king_to as int) {
                None => true,
                Some(d) => castle_king_path_safe(
                    p.board,
                    p.moving_side,
                    cm.king_from as int,
                    cm.king_to as int,
                    d.0,
                    d.1,
                    8,
                ),
            }
        },
        _ => !make_move_spec(p, m).non_mover_in_check_spec(),
    }
}

/// The moves of `s` up to index `n` that pass the legality test, in
/// order.
pub open spec fn legal_upto(p: PositionModel, s: Seq<ChessMove>, n: int) -> Seq<ChessMove>
    decreases n,
{
    if n <= 0 {
        Seq::empty()
    } else {
        let prev = legal_upto(p, s, n - 1);
        if check_remaining_legality_spec(p, s[n - 1]) {
            prev.push(s[n - 1])
        } else {
            prev
        }
    }
}

/// The legal proper moves: the pseudo-legal moves that pass the
/// legality test, in generation order.
pub open spec fn legal_moves_spec(p: PositionModel) -> Seq<ChessMove> {
    legal_upto(p, pseudo_legal_moves_spec(p), pseudo_legal_moves_spec(p).len() as int)
}

/// Checkmate: no legal move, and the mover is attacked.
pub open spec fn is_checkmate_spec(p: PositionModel) -> bool {
    legal_moves_spec(p).len() == 0 && p.mover_in_check_spec()
}

/// Stalemate: no legal move, and the mover is not attacked.
pub open spec fn is_stalemate_spec(p: PositionModel) -> bool {
    legal_moves_spec(p).len() == 0 && !p.mover_in_check_spec()
}

impl Position {
    /// Whether the rest of the king's castling path is safe, walking
    /// `ray` until the destination's file.
    fn castle_safety_walk(&self, ray: Ray, king_to: i8, fuel: u8) -> (r: bool)
        requires
            self@.board_contents_wf(),
            is_square_code(ray.curr_pos as int),
            is_square_code(king_to as int),
        ensures
            r == castle_king_path_safe(
                self@.board,
                self@.moving_side,
                ray.curr_pos as int,
                king_to as int,
                offset_amount(ray.direction.0),
                offset_amount(ray.direction.1),
                fuel as nat,
            ),
        decreases fuel,
    {
        if fuel == 0 {
            return true;
        }
        let mut walker = ray;
        match walker.next() {
            None => true,
            Some(passed_over_square) => {
                if self.sees_obvious_attack(self.get_color(), passed_over_square) {
                    false
                } else if crate::encoding::get_file(passed_over_square) == crate::encoding::get_file(
                    king_to,
                ) {
                    true
                } else {
                    self.castle_safety_walk(walker, king_to, fuel - 1)
                }
            },
        }
    }

    /// Whether a pseudo-legal move passes the remaining legality test.
    pub fn check_remaining_legality(&self, possible_move: ChessMove) -> (r: bool)
        requires
            self@.board_contents_wf(),
            self@.move_count < i16::MAX,
            is_square_code(self@.w_king_square as int),
            is_square_code(self@.b_king_square as int),
            applicable(self@, possible_move),
        ensures
            r == check_remaining_legality_spec(self@, possible_move),
    {
        match possible_move {
            ChessMove::CastlingMove(proposed_move) => {
                if self.mover_in_check() {
                    return false;
                }
                match crate::geometry::try_get_ray_to(
                    proposed_move.king_from,
                    proposed_move.king_to,
                ) {
                    None => true,
                    Some(ray) => self.castle_safety_walk(ray, proposed_move.king_to, 8),
                }
            },
            _ => {
                let after = self.after_move(possible_move);
                !after.non_mover_in_check()
            },
        }
    }

    /// The legal proper moves of the side to move, in generation
    /// order.
    pub fn get_legal_proper_moves(&self) -> (r: Vec<ChessMove>)
        requires
            self@.wf(),
        ensures
            r@ == legal_moves_spec(self@),
    {
        let possible_moves = self.get_pseudo_legal_proper_moves();
        proof {
            lemma_pseudo_legal_props(self@);
        }
        let mut legal_moves: Vec<ChessMove> = Vec::new();
        let mut i: usize = 0;
        while i < possible_moves.len()
            invariant
                self@.wf(),
                possible_moves@ == pseudo_legal_moves_spec(self@),
                forall|j: int|
                    0 <= j < possible_moves@.len() ==> applicable(
                        self@,
                        #[trigger] possible_moves@[j],
                    ),
                0 <= i <= possible_moves@.len(),
                legal_moves@ == legal_upto(self@, possible_moves@, i as int),
            decreases possible_moves@.len() - i,
        {
            let possible_move = possible_moves[i];
            if self.check_remaining_legality(possible_move) {
                legal_moves.push(possible_move);
            }
            i = i + 1;
        }
        legal_moves
    }

    /// Whether the position is stalemate: no legal move and the mover
    /// not attacked.
    pub fn is_stalemate(&self) -> (r: bool)
        requires
            self@.wf(),
        ensures
            r == is_stalemate_spec(self@),
    {
        self.get_legal_proper_moves().len() == 0 && !self.mover_in_check()
    }

    /// Whether the position is checkmate: no legal move and the mover
    /// attacked.
    pub fn is_checkmate(&self) -> (r: bool)
        requires
            self@.wf(),
        ensures
            r == is_checkmate_spec(self@),
    {
        self.get_legal_proper_moves().len() == 0 && self.mover_in_check()
    }
}

/// Every move of a filtered prefix is drawn from the source sequence
/// and passes the legality test.
pub proof fn lemma_legal_upto_props(p: PositionModel, s: Seq<ChessMove>, n: int)
    requires
        0 <= n <= s.len(),
    ensures
        forall|j: int|
            0 <= j < legal_upto(p, s, n).len() ==> (exists|i: int|
                0 <= i < n && #[trigger] legal_upto(p, s, n)[j] == s[i])
                && check_remaining_legality_spec(p, legal_upto(p, s, n)[j]),
    decreases n,
{
    if n > 0 {
        lemma_legal_upto_props(p, s, n - 1);
        let cur = legal_upto(p, s, n);
        let prev = legal_upto(p, s, n - 1);
        assert forall|j: int| 0 <= j < cur.len() implies (exists|i: int|
            0 <= i < n && #[trigger] cur[j] == s[i]) && check_remaining_legality_spec(
            p,
            cur[j],
        ) by {
            if j < prev.len() {
                assert(cur[j] == prev[j]);
                let i0 = choose|i: int| 0 <= i < n - 1 && prev[j] == s[i];
                assert(0 <= i0 < n && cur[j] == s[i0]);
            } else {
                assert(cur[j] == s[n - 1]);
            }
        }
    }
}

/// Every legal move is a pseudo-legal move satisfying the generator's
/// structural guarantees, and passes the legality test.
pub proof fn lemma_legal_moves_props(p: PositionModel)
    requires
        p.board_contents_wf(),
        p.ep_wf(),
        p.castling_wf(),
        p.pawns_wf(),
    ensures
        forall|j: int|
            0 <= j < legal_moves_spec(p).len() ==> crate::props::move_props(
                p,
                #[trigger] legal_moves_spec(p)[j],
            ) && applicable(p, legal_moves_spec(p)[j]) && check_remaining_legality_spec(
                p,
                legal_moves_spec(p)[j],
            ),
{
    lemma_pseudo_legal_props(p);
    let s = pseudo_legal_moves_spec(p);
    lemma_legal_upto_props(p, s, s.len() as int);
    assert forall|j: int| 0 <= j < legal_moves_spec(p).len() implies crate::props::move_props(
        p,
        #[trigger] legal_moves_spec(p)[j],
    ) && applicable(p, legal_moves_spec(p)[j]) && check_remaining_legality_spec(
        p,
        legal_moves_spec(p)[j],
    ) by {
        let i0 = choose|i: int| 0 <= i < s.len() && legal_moves_spec(p)[j] == s[i];
        assert(crate::props::move_props(p, s[i0]));
    }
}

/// The slider kind that attacks along a direction: the rook for
/// orthogonal rays, the bishop for diagonal ones.
pub open spec fn ray_slider_kind(dr: int, df: int) -> EnumPiecesUncolored {
    if dr == 0 || df == 0 {
        EnumPiecesUncolored::Rook
    } else {
        EnumPiecesUncolored::Bishop
    }
}

/// The first enemy queen or ray-matching slider found walking from
/// `cur`, treating empty squares and the candidate square itself as
/// transparent and stopping at any other occupied square.
pub open spec fn pin_search(
    b: Seq<i8>,
    attacker: EnumColor,
    square: int,
    cur: int,
    dr: int,
    df: int,
    kind: EnumPiecesUncolored,
    fuel: nat,
) -> Option<i8>
    decreases fuel,
{
    if fuel == 0 {
        None
    } else if !offset_in_board(cur, dr, df) {
        None
    } else {
        let t = offset_square(cur, dr, df);
        let c = b[t] as int;
        if c >= 0 && code_color(c) == attacker && (code_kind(c) == EnumPiecesUncolored::Queen
            || code_kind(c) == kind) {
            Some(t as i8)
        } else if c >= 0 && t != square {
            None
        } else {
            pin_search(b, attacker, square, t, dr, df, kind, (fuel - 1) as nat)
        }
    }
}

/// The square of the enemy slider pinning the piece on `square`
/// against the mover's king along their shared ray, if the ray walk
/// finds one. An experimental helper for move-ordering layers; the
/// legality filter does not rely on it.
pub open spec fn pinning_square_spec(p: PositionModel, square: int) -> Option<i8> {
    match ray_direction_to(p.own_king_square(), square) {
        None => None,
        Some(d) => pin_search(
            p.board,
            opposite_color(p.moving_side),
            square,
            p.own_king_square(),
            d.0,
            d.1,
            ray_slider_kind(d.0, d.1),
            8,
        ),
    }
}

impl Position {
    /// The pin walker shared by `is_pinned` and `pinning_square`.
    fn pin_walk(
        &self,
        attacker: EnumColor,
        square: i8,
        ray: Ray,
        kind: EnumPiecesUncolored,
        fuel: u8,
    ) -> (r: Option<i8>)
        requires
            self@.board_contents_wf(),
            is_square_code(ray.curr_pos as int),
        ensures
            r == pin_search(
                self@.board,
                attacker,
                square as int,
                ray.curr_pos as int,
                offset_amount(ray.direction.0),
                offset_amount(ray.direction.1),
                kind,
                fuel as nat,
            ),
        decreases fuel,
    {
        if fuel == 0 {
            return None;
        }
        let mut walker = ray;
        match walker.next() {
            None => None,
            Some(threatening_square) => {
                match crate::encoding::get_contents(self.query_square(threatening_square)) {
                    None => self.pin_walk(attacker, square, walker, kind, fuel - 1),
                    Some(piece) => {
                        let piece_kind = crate::encoding::get_piece_type(piece);
                        if crate::encoding::get_color(piece) == attacker && (piece_kind
                            == EnumPiecesUncolored::Queen || piece_kind == kind) {
                            Some(threatening_square)
                        } else if threatening_square != square {
                            None
                        } else {
                            self.pin_walk(attacker, square, walker, kind, fuel - 1)
                        }
                    },
                }
            },
        }
    }

    /// The square of the enemy slider pinning the piece on `square`
    /// against the mover's king, if any.
    pub fn pinning_square(&self, square: i8) -> (r: Option<i8>)
        requires
            self@.board_contents_wf(),
            is_square_code(self@.w_king_square as int),
            is_square_code(self@.b_king_square as int),
            is_square_code(square as int),
        ensures
            r == pinning_square_spec(self@, square as int),
    {
        let king_square = match self.get_color() {
            EnumColor::White => self.get_w_king_square(),
            EnumColor::Black => self.get_b_king_square(),
        };
        match crate::geometry::try_get_ray_to(king_square, square) {
            None => None,
            Some(ray) => {
                let kind = match ray.direction {
                    (crate::types::SmallOffset::Stay, _) => EnumPiecesUncolored::Rook,
                    (_, crate::types::SmallOffset::Stay) => EnumPiecesUncolored::Rook,
                    _ => EnumPiecesUncolored::Bishop,
                };
                self.pin_walk(self.get_opposite_color(), square, ray, kind, 8)
            },
        }
    }

    /// Whether the piece on `square` is pinned against the mover's
    /// king.
    pub fn is_pinned(&self, square: i8) -> (r: bool)
        requires
            self@.board_contents_wf(),
            is_square_code(self@.w_king_square as int),
            is_square_code(self@.b_king_square as int),
            is_square_code(square as int),
        ensures
            r == (pinning_square_spec(self@, square as int) is Some),
    {
        match self.pinning_square(square) {
            None => false,
            Some(_sq) => true,
        }
    }
}

} // verus!
