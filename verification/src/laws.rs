//! The engine's laws: facts that hold of every position and move, not
//! of chosen examples. The centerpiece is preservation of the position
//! invariant by move application, from which the symmetry of `apply`
//! (flipped side to move, honest king caches) follows; beside it stand
//! the one-ply lifetime of the en-passant offer, the monotone decay of
//! castling rights, the classification of positions without legal
//! moves, and the determinacy of legal-move generation.

use vstd::prelude::*;

use crate::apply::full_move_headroom;
use crate::apply::is_double_pawn_push;
use crate::apply::double_push_midpoint;
use crate::apply::make_move_spec;
use crate::board::castle_offset;
use crate::board::castle_slot_color;
use crate::board::PositionModel;
use crate::encoding::code_color;
use crate::encoding::code_kind;
use crate::encoding::is_contents_code;
use crate::encoding::is_square_code;
use crate::encoding::opposite_color;
use crate::encoding::piece_code;
use crate::encoding::square_file_index;
use crate::encoding::square_rank_index;
use crate::geometry::lemma_offset_square_coords;
use crate::geometry::offset_in_board;
use crate::geometry::offset_square;
use crate::legality::check_remaining_legality_spec;
use crate::legality::is_checkmate_spec;
use crate::legality::is_stalemate_spec;
use crate::legality::legal_moves_spec;
use crate::movegen::castle_path_clear;
use crate::props::move_props;
use crate::types::CastlingMove;
use crate::types::ChessMove;
use crate::types::EnPassantMove;
use crate::types::EnumColor;
use crate::types::EnumPiecesUncolored;
use crate::types::PromotionMove;
use crate::types::StandardMove;

verus! {

/// Whether a move lands on the waiting side's king square. No such
/// move arises in a real game: it requires a position whose waiting
/// side is already in check.
pub open spec fn captures_king(p: PositionModel, m: ChessMove) -> bool {
    match m {
        ChessMove::StandardMove(sm) => sm.to_square as int == p.enemy_king_square(),
        ChessMove::PromotionMove(pm) => pm.to_square as int == p.enemy_king_square(),
        _ => false,
    }
}

/// A clear castling path means every square strictly between the walk's
/// start and the rook, on their shared rank, is empty.
pub proof fn lemma_castle_path_empty(b: Seq<i8>, cur: int, rook_from: int, df: int, fuel: nat)
    requires
        castle_path_clear(b, cur, rook_from, df, fuel),
        df == 1 || df == -1,
        is_square_code(cur),
        is_square_code(rook_from),
        square_rank_index(rook_from) == square_rank_index(cur),
        df == 1 ==> square_file_index(cur) < square_file_index(rook_from),
        df == -1 ==> square_file_index(rook_from) < square_file_index(cur),
    ensures
        forall|x: int|
            is_square_code(x) && square_rank_index(x) == square_rank_index(cur)
                && crate::board::strictly_between(
                #[trigger] square_file_index(x),
                square_file_index(cur),
                square_file_index(rook_from),
            ) ==> b[x] < 0,
    decreases fuel,
{
    if fuel > 0 && offset_in_board(cur, 0, df) {
        let t = offset_square(cur, 0, df);
        lemma_offset_square_coords(cur, 0, df);
        if t != rook_from && b[t] < 0 {
            assert(square_file_index(t) != square_file_index(rook_from)) by {
                lemma_square_identity(t);
                lemma_square_identity(rook_from);
            };
            lemma_castle_path_empty(b, t, rook_from, df, (fuel - 1) as nat);
            assert forall|x: int|
                is_square_code(x) && square_rank_index(x) == square_rank_index(cur)
                    && crate::board::strictly_between(
                    #[trigger] square_file_index(x),
                    square_file_index(cur),
                    square_file_index(rook_from),
                ) implies b[x] < 0 by {
                if x != t {
                    assert(square_file_index(x) != square_file_index(t)) by {
                        lemma_square_identity(x);
                        lemma_square_identity(t);
                    };
                }
            }
        }
    }
}

/// A square's code is its rank and file put back together.
proof fn lemma_square_identity(x: int)
    requires
        is_square_code(x),
    ensures
        x == 8 * square_rank_index(x) + square_file_index(x),
{
    vstd::arithmetic::div_mod::lemma_fundamental_div_mod(x, 8);
}

/// The board entries a move leaves untouched keep every per-square
/// invariant clause; the touched entries are checked directly. This is
/// the pointwise core shared by the preservation lemmas.
proof fn lemma_board_update_clauses(p: PositionModel, q: PositionModel, touched: Set<int>)
    requires
        p.board_contents_wf(),
        p.pawns_wf(),
        q.board.len() == 64,
        forall|i: int| 0 <= i < 64 && !touched.contains(i) ==> q.board[i] == p.board[i],
        forall|i: int|
            0 <= i < 64 && touched.contains(i) ==> is_contents_code(#[trigger] q.board[i] as int)
                && ((i >= 56 ==> q.board[i] as int != piece_code(
                EnumColor::White,
                EnumPiecesUncolored::Pawn,
            )) && (i < 8 ==> q.board[i] as int != piece_code(
                EnumColor::Black,
                EnumPiecesUncolored::Pawn,
            ))),
    ensures
        q.board_contents_wf(),
        q.pawns_wf(),
{
    assert forall|i: int| 0 <= i < 64 implies is_contents_code(
        #[trigger] q.board[i] as int,
    ) by {
        if !touched.contains(i) {
            assert(q.board[i] == p.board[i]);
            assert(is_contents_code(p.board[i] as int));
        }
    }
    assert forall|i: int|
        0 <= i < 64 implies ((i >= 56 ==> (#[trigger] q.board[i]) as int != piece_code(
        EnumColor::White,
        EnumPiecesUncolored::Pawn,
    )) && (i < 8 ==> q.board[i] as int != piece_code(
        EnumColor::Black,
        EnumPiecesUncolored::Pawn,
    ))) by {
        if !touched.contains(i) {
            assert(q.board[i] == p.board[i]);
            assert((i >= 56 ==> p.board[i] as int != piece_code(
                EnumColor::White,
                EnumPiecesUncolored::Pawn,
            )) && (i < 8 ==> p.board[i] as int != piece_code(
                EnumColor::Black,
                EnumPiecesUncolored::Pawn,
            )));
        }
    }
}

/// The king-cache clauses hold of `q` when its board differs from
/// `p`'s only at the touched squares, each checked directly against
/// the new caches.
proof fn lemma_kings_clauses(p: PositionModel, q: PositionModel, touched: Set<int>)
    requires
        p.kings_wf(),
        q.board.len() == 64,
        is_square_code(q.w_king_square as int),
        is_square_code(q.b_king_square as int),
        forall|i: int| 0 <= i < 64 && !touched.contains(i) ==> q.board[i] == p.board[i],
        forall|i: int|
            0 <= i < 64 && touched.contains(i) ==> ((#[trigger] q.board[i]) as int == piece_code(
                EnumColor::White,
                EnumPiecesUncolored::King,
            ) <==> i == q.w_king_square as int) && (q.board[i] as int == piece_code(
                EnumColor::Black,
                EnumPiecesUncolored::King,
            ) <==> i == q.b_king_square as int),
        forall|i: int|
            0 <= i < 64 && !touched.contains(i) ==> ((#[trigger] p.board[i]) as int == piece_code(
                EnumColor::White,
                EnumPiecesUncolored::King,
            ) <==> i == q.w_king_square as int) && (p.board[i] as int == piece_code(
                EnumColor::Black,
                EnumPiecesUncolored::King,
            ) <==> i == q.b_king_square as int),
    ensures
        q.kings_wf(),
{
    assert forall|i: int|
        0 <= i < 64 implies ((#[trigger] q.board[i]) as int == piece_code(
        EnumColor::White,
        EnumPiecesUncolored::King,
    ) <==> i == q.w_king_square as int) && (q.board[i] as int == piece_code(
        EnumColor::Black,
        EnumPiecesUncolored::King,
    ) <==> i == q.b_king_square as int) by {
        if !touched.contains(i) {
            assert(q.board[i] == p.board[i]);
        }
    }
}

/// Applying a generated standard move that does not capture the
/// waiting king preserves the invariant.
#[verifier::rlimit(50)]
proof fn lemma_standard_preserves_wf(p: PositionModel, sm: StandardMove)
    requires
        p.wf(),
        full_move_headroom(p),
        move_props(p, ChessMove::StandardMove(sm)),
        !captures_king(p, ChessMove::StandardMove(sm)),
    ensures
        make_move_spec(p, ChessMove::StandardMove(sm)).wf(),
{
    let m = ChessMove::StandardMove(sm);
    let q = make_move_spec(p, m);
    let from = sm.from_square as int;
    let to = sm.to_square as int;
    let c = p.board[from] as int;
    let mover = p.moving_side;
    let wk = piece_code(EnumColor::White, EnumPiecesUncolored::King);
    let bk = piece_code(EnumColor::Black, EnumPiecesUncolored::King);
    let touched = set![from, to];

    assert(q.board =~= p.board.update(from, -1i8).update(to, p.board[from]));
    assert(forall|i: int| 0 <= i < 64 && !touched.contains(i) ==> q.board[i] == p.board[i]);
    assert(q.board[to] as int == c && q.board[from] == -1);

    // the caches: a non-king mover leaves both; a king mover drags its own.
    assert(p.board[p.w_king_square as int] as int == wk);
    assert(p.board[p.b_king_square as int] as int == bk);
    assert(to != p.w_king_square as int && to != p.b_king_square as int);
    lemma_board_update_clauses(p, q, touched);
    lemma_kings_clauses(p, q, touched);

    if c >= 0 && code_kind(c) == EnumPiecesUncolored::Pawn && (square_rank_index(to)
        - square_rank_index(from) == 2 || square_rank_index(to) - square_rank_index(from) == -2) {
        assert(crate::props::double_push_ok(p, from, to));
        let mid = double_push_midpoint(mover, from);
        assert(mid == from + 8 * crate::movegen::pawn_move_dir(mover)) by {
            lemma_square_identity(from);
        };
        assert(q.ep_wf()) by {
            lemma_square_identity(from);
            lemma_square_identity(to);
            assert(q.board[mid] == p.board[mid]);
            assert(q.board[to] as int == c);
        };
    } else {
        assert(q.ep_data == -1);
    }

    assert(q.castling_wf()) by {
        assert forall|i: int|
            0 <= i < 4 implies ((#[trigger] q.castling[i]) matches Some(rule)
            ==> q.castle_rule_wf(castle_slot_color(i), rule)) by {
            if q.castling[i] is Some {
                let rule = q.castling[i]->Some_0;
                assert(q.castling[i] == p.castling[i]);
                assert(p.castle_rule_wf(castle_slot_color(i), rule));
                assert(rule.king_from as int != from && rule.rook_from as int != from);
                assert(rule.king_from as int != to && rule.rook_from as int != to);
                assert(q.board[rule.king_from as int] == p.board[rule.king_from as int]);
                assert(q.board[rule.rook_from as int] == p.board[rule.rook_from as int]);
                assert(q.castle_rule_wf(castle_slot_color(i), rule));
            }
        }
    };
}

/// Applying a generated promotion that does not capture the waiting
/// king preserves the invariant.
#[verifier::rlimit(50)]
proof fn lemma_promotion_preserves_wf(p: PositionModel, pm: PromotionMove)
    requires
        p.wf(),
        full_move_headroom(p),
        move_props(p, ChessMove::PromotionMove(pm)),
        !captures_king(p, ChessMove::PromotionMove(pm)),
    ensures
        make_move_spec(p, ChessMove::PromotionMove(pm)).wf(),
{
    let m = ChessMove::PromotionMove(pm);
    let q = make_move_spec(p, m);
    let from = pm.from_square as int;
    let to = pm.to_square as int;
    let c = p.board[from] as int;
    let promoted = piece_code(code_color(c), code_kind(pm.promotion_choice as int));
    let wk = piece_code(EnumColor::White, EnumPiecesUncolored::King);
    let bk = piece_code(EnumColor::Black, EnumPiecesUncolored::King);
    let touched = set![from, to];

    assert(q.board =~= p.board.update(from, -1i8).update(to, promoted as i8));
    assert(forall|i: int| 0 <= i < 64 && !touched.contains(i) ==> q.board[i] == p.board[i]);
    assert(q.board[to] as int == promoted && q.board[from] == -1);
    assert(promoted != wk && promoted != bk);
    assert(code_kind(promoted) != EnumPiecesUncolored::Pawn);
    assert(p.board[p.w_king_square as int] as int == wk);
    assert(p.board[p.b_king_square as int] as int == bk);
    assert(to != p.w_king_square as int && to != p.b_king_square as int);
    lemma_board_update_clauses(p, q, touched);
    lemma_kings_clauses(p, q, touched);
    assert(q.ep_data == -1);
    assert(q.castling_wf()) by {
        assert forall|i: int|
            0 <= i < 4 implies ((#[trigger] q.castling[i]) matches Some(rule)
            ==> q.castle_rule_wf(castle_slot_color(i), rule)) by {
            if q.castling[i] is Some {
                let rule = q.castling[i]->Some_0;
                assert(q.castling[i] == p.castling[i]);
                assert(p.castle_rule_wf(castle_slot_color(i), rule));
                assert(rule.king_from as int != from && rule.rook_from as int != from);
                assert(rule.king_from as int != to && rule.rook_from as int != to);
                assert(q.board[rule.king_from as int] == p.board[rule.king_from as int]);
                assert(q.board[rule.rook_from as int] == p.board[rule.rook_from as int]);
                assert(q.castle_rule_wf(castle_slot_color(i), rule));
            }
        }
    };
}

/// Applying a generated en-passant capture preserves the invariant.
#[verifier::rlimit(50)]
proof fn lemma_ep_preserves_wf(p: PositionModel, em: EnPassantMove)
    requires
        p.wf(),
        full_move_headroom(p),
        move_props(p, ChessMove::EnPassantMove(em)),
    ensures
        make_move_spec(p, ChessMove::EnPassantMove(em)).wf(),
{
    let m = ChessMove::EnPassantMove(em);
    let q = make_move_spec(p, m);
    let from = em.from_square as int;
    let taken = em.taken_square as int;
    let to = em.to_square as int;
    let c = p.board[from] as int;
    let wk = piece_code(EnumColor::White, EnumPiecesUncolored::King);
    let bk = piece_code(EnumColor::Black, EnumPiecesUncolored::King);
    let touched = set![from, taken, to];

    assert(q.board =~= p.board.update(from, -1i8).update(taken, -1i8).update(
        to,
        p.board[from],
    ));
    assert(forall|i: int| 0 <= i < 64 && !touched.contains(i) ==> q.board[i] == p.board[i]);
    assert(q.board[to] as int == c && q.board[from] == -1 && q.board[taken] == -1);
    assert(p.board[to] == -1 && p.board[taken] as int == piece_code(
        opposite_color(p.moving_side),
        EnumPiecesUncolored::Pawn,
    ));
    assert(p.board[p.w_king_square as int] as int == wk);
    assert(p.board[p.b_king_square as int] as int == bk);
    // the en-passant range keeps the landing square off the back ranks
    assert(8 <= to < 56);
    lemma_board_update_clauses(p, q, touched);
    lemma_kings_clauses(p, q, touched);
    assert(q.ep_data == -1);
    assert(q.castling_wf()) by {
        assert forall|i: int|
            0 <= i < 4 implies ((#[trigger] q.castling[i]) matches Some(rule)
            ==> q.castle_rule_wf(castle_slot_color(i), rule)) by {
            if q.castling[i] is Some {
                let rule = q.castling[i]->Some_0;
                assert(q.castling[i] == p.castling[i]);
                assert(p.castle_rule_wf(castle_slot_color(i), rule));
                assert(rule.king_from as int != from && rule.rook_from as int != from);
                assert(rule.king_from as int != to && rule.rook_from as int != to);
                assert(rule.king_from as int != taken && rule.rook_from as int != taken);
                assert(q.board[rule.king_from as int] == p.board[rule.king_from as int]);
                assert(q.board[rule.rook_from as int] == p.board[rule.rook_from as int]);
                assert(q.castle_rule_wf(castle_slot_color(i), rule));
            }
        }
    };
}

/// Applying a generated castling move preserves the invariant.
#[verifier::rlimit(50)]
proof fn lemma_castling_preserves_wf(p: PositionModel, cm: CastlingMove)
    requires
        p.wf(),
        full_move_headroom(p),
        move_props(p, ChessMove::CastlingMove(cm)),
    ensures
        make_move_spec(p, ChessMove::CastlingMove(cm)).wf(),
{
    let m = ChessMove::CastlingMove(cm);
    let q = make_move_spec(p, m);
    let mover = p.moving_side;
    let kf = cm.king_from as int;
    let rf = cm.rook_from as int;
    let kt = cm.king_to as int;
    let rt = cm.rook_to as int;
    let wk = piece_code(EnumColor::White, EnumPiecesUncolored::King);
    let bk = piece_code(EnumColor::Black, EnumPiecesUncolored::King);
    let touched = set![rf, kf, rt, kt];

    // the recorded rule is honest
    assert(p.castle_rule_wf(mover, cm)) by {
        if p.castling[castle_offset(mover)] == Some(cm) {
            assert(castle_slot_color(castle_offset(mover)) == mover);
            assert((#[trigger] p.castling[castle_offset(mover)]) matches Some(rule)
                ==> p.castle_rule_wf(castle_slot_color(castle_offset(mover)), rule));
        } else {
            assert(castle_slot_color(castle_offset(mover) + 1) == mover);
            assert((#[trigger] p.castling[castle_offset(mover) + 1]) matches Some(rule)
                ==> p.castle_rule_wf(castle_slot_color(castle_offset(mover) + 1), rule));
        }
    };

    // the two destinations were empty: they lie strictly between the origins
    assert(square_file_index(kf) != square_file_index(rf)) by {
        lemma_square_identity(kf);
        lemma_square_identity(rf);
    };
    lemma_castle_path_empty(p.board, kf, rf, crate::movegen::castle_dir(kf, rf), 8);
    assert(p.board[kt] < 0 && p.board[rt] < 0);
    assert(p.board[kt] == -1 && p.board[rt] == -1);

    assert(q.board =~= p.board.update(rf, -1i8).update(kf, -1i8).update(
        rt,
        p.board[rf],
    ).update(kt, p.board[kf]));
    assert(kt != rt && kt != kf && kt != rf && rt != kf && rt != rf) by {
        lemma_square_identity(kt);
        lemma_square_identity(rt);
        lemma_square_identity(kf);
        lemma_square_identity(rf);
    };
    assert(forall|i: int| 0 <= i < 64 && !touched.contains(i) ==> q.board[i] == p.board[i]);
    assert(q.board[kt] as int == piece_code(mover, EnumPiecesUncolored::King));
    assert(q.board[rt] as int == piece_code(mover, EnumPiecesUncolored::Rook));
    assert(q.board[kf] == -1 && q.board[rf] == -1);
    assert(p.board[p.w_king_square as int] as int == wk);
    assert(p.board[p.b_king_square as int] as int == bk);
    lemma_board_update_clauses(p, q, touched);
    lemma_kings_clauses(p, q, touched);
    assert(q.ep_data == -1);
    assert(q.castling_wf()) by {
        assert forall|i: int|
            0 <= i < 4 implies ((#[trigger] q.castling[i]) matches Some(rule)
            ==> q.castle_rule_wf(castle_slot_color(i), rule)) by {
            if q.castling[i] is Some {
                assert(i != castle_offset(mover) && i != castle_offset(mover) + 1);
                let rule = q.castling[i]->Some_0;
                assert(q.castling[i] == p.castling[i]);
                assert(castle_slot_color(i) == opposite_color(mover));
                assert(p.castle_rule_wf(castle_slot_color(i), rule));
                assert(rule.king_from as int != kf && rule.king_from as int != rf
                    && rule.king_from as int != kt && rule.king_from as int != rt);
                assert(rule.rook_from as int != kf && rule.rook_from as int != rf
                    && rule.rook_from as int != kt && rule.rook_from as int != rt);
                assert(q.board[rule.king_from as int] == p.board[rule.king_from as int]);
                assert(q.board[rule.rook_from as int] == p.board[rule.rook_from as int]);
                assert(q.castle_rule_wf(castle_slot_color(i), rule));
            }
        }
    };
}

/// Applying any generated move that does not land on the waiting
/// king's square preserves the position invariant, and flips the side
/// to move. The headroom hypothesis is a machine limit: the full-move
/// number must have room to advance once more after a Black move.
pub proof fn lemma_apply_preserves_wf(p: PositionModel, m: ChessMove)
    requires
        p.wf(),
        full_move_headroom(p),
        move_props(p, m),
        !captures_king(p, m),
    ensures
        make_move_spec(p, m).wf(),
        make_move_spec(p, m).moving_side == opposite_color(p.moving_side),
{
    match m {
        ChessMove::StandardMove(sm) => lemma_standard_preserves_wf(p, sm),
        ChessMove::PromotionMove(pm) => lemma_promotion_preserves_wf(p, pm),
        ChessMove::EnPassantMove(em) => lemma_ep_preserves_wf(p, em),
        ChessMove::CastlingMove(cm) => lemma_castling_preserves_wf(p, cm),
        ChessMove::NullMove => {},
    }
}

/// Symmetry of `apply`: after any legal move that does not land on the
/// waiting king's square — only a position whose waiting side is
/// already in check offers such a move — the side to move is the
/// opposite of before, and each king cache points at the one square
/// actually holding that king, as a scan of the board would find it.
pub proof fn lemma_apply_symmetry(p: PositionModel, m: ChessMove)
    requires
        p.wf(),
        full_move_headroom(p),
        move_props(p, m),
        check_remaining_legality_spec(p, m),
        !captures_king(p, m),
    ensures
        make_move_spec(p, m).moving_side == opposite_color(p.moving_side),
        make_move_spec(p, m).kings_wf(),
{
    lemma_apply_preserves_wf(p, m);
}

/// The en-passant offer lives for exactly one ply: the position after
/// a generated move carries en-passant data exactly when that move was
/// a pawn double push, and then it names the push's midpoint square.
pub proof fn lemma_ep_offer_lifetime(p: PositionModel, m: ChessMove)
    requires
        move_props(p, m),
    ensures
        (make_move_spec(p, m).ep_data != -1) <==> (m matches ChessMove::StandardMove(sm)
            && is_double_pawn_push(p, sm.from_square as int, sm.to_square as int)),
        m matches ChessMove::StandardMove(sm) ==> (is_double_pawn_push(
            p,
            sm.from_square as int,
            sm.to_square as int,
        ) ==> make_move_spec(p, m).ep_data == double_push_midpoint(
            p.moving_side,
            sm.from_square as int,
        )),
{
    match m {
        ChessMove::StandardMove(sm) => {
            let from = sm.from_square as int;
            if is_double_pawn_push(p, from, sm.to_square as int) {
                assert(0 <= square_file_index(from) < 8) by {
                    lemma_square_identity(from);
                };
            }
        },
        _ => {},
    }
}

/// Castling rights never reappear: after any move, each slot of the
/// rights table holds its old rule or nothing.
pub proof fn lemma_castling_monotone(p: PositionModel, m: ChessMove)
    requires
        p.castling.len() == 4,
    ensures
        make_move_spec(p, m).castling.len() == 4,
        forall|i: int|
            0 <= i < 4 ==> (#[trigger] make_move_spec(p, m).castling[i]) == p.castling[i]
                || make_move_spec(p, m).castling[i] is None,
{
}

/// The positions along a sequence of moves, each applied to the last.
pub open spec fn apply_all(p: PositionModel, moves: Seq<ChessMove>) -> PositionModel
    decreases moves.len(),
{
    if moves.len() == 0 {
        p
    } else {
        apply_all(make_move_spec(p, moves[0]), moves.drop_first())
    }
}

/// Castling rights never reappear along any move sequence: a right
/// absent at any point stays absent.
pub proof fn lemma_castling_monotone_sequence(p: PositionModel, moves: Seq<ChessMove>, i: int)
    requires
        p.castling.len() == 4,
        0 <= i < 4,
        p.castling[i] is None,
    ensures
        apply_all(p, moves).castling.len() == 4,
        apply_all(p, moves).castling[i] is None,
    decreases moves.len(),
{
    if moves.len() > 0 {
        lemma_castling_monotone(p, moves[0]);
        lemma_castling_monotone_sequence(make_move_spec(p, moves[0]), moves.drop_first(), i);
    }
}

/// Over positions with no legal move, checkmate and stalemate are
/// mutually exclusive and exhaustive, split by whether the mover is
/// attacked.
pub proof fn lemma_mate_classification(p: PositionModel)
    ensures
        !(is_checkmate_spec(p) && is_stalemate_spec(p)),
        legal_moves_spec(p).len() == 0 ==> (is_checkmate_spec(p) || is_stalemate_spec(p)),
        is_checkmate_spec(p) ==> legal_moves_spec(p).len() == 0 && p.mover_in_check_spec(),
        is_stalemate_spec(p) ==> legal_moves_spec(p).len() == 0 && !p.mover_in_check_spec(),
{
}

/// Reading the legal moves is a pure function of the position: any two
/// results of `get_legal_proper_moves` on one unchanged position are
/// the same sequence of moves, because each is pinned to
/// `legal_moves_spec`.
pub proof fn lemma_legal_moves_deterministic(
    p: PositionModel,
    first: Seq<ChessMove>,
    second: Seq<ChessMove>,
)
    requires
        first == legal_moves_spec(p),
        second == legal_moves_spec(p),
    ensures
        first == second,
{
}


/// The null move preserves the invariant: it touches no board square,
/// clears the en-passant data, and needs one more notch of room in the
/// full-move number.
pub proof fn lemma_null_move_preserves_wf(p: PositionModel)
    requires
        p.wf(),
        p.move_count < i16::MAX - 1,
    ensures
        crate::apply::null_move_spec(p).wf(),
        crate::apply::null_move_spec(p).moving_side == opposite_color(p.moving_side),
{
}

/// Every legal move is proper: the generator never offers the null
/// move.
pub proof fn lemma_legal_moves_are_proper(p: PositionModel)
    requires
        p.wf(),
    ensures
        forall|j: int|
            0 <= j < legal_moves_spec(p).len() ==> !((#[trigger] legal_moves_spec(p)[j])
                is NullMove),
{
    crate::legality::lemma_legal_moves_props(p);
    assert forall|j: int| 0 <= j < legal_moves_spec(p).len() implies !((
    #[trigger] legal_moves_spec(p)[j]) is NullMove) by {
        assert(move_props(p, legal_moves_spec(p)[j]));
    }
}
} // verus!
