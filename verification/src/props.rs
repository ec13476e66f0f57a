//! Structural properties of generated moves. Every move the
//! pseudo-legal generator yields satisfies `move_props`: it references
//! only board squares, moves a piece of the side to move onto an empty
//! or enemy-held square, expands pawn arrivals on the back rank into
//! promotions, records honest en-passant and double-push data, and
//! offers castling only from the recorded rules over a clear path.
//! These facts are what move application relies on to preserve the
//! position invariant.

use vstd::prelude::*;

use crate::apply::applicable;
use crate::board::castle_offset;
use crate::board::ep_taken_square;
use crate::board::PositionModel;
use crate::encoding::code_color;
use crate::encoding::code_kind;
use crate::encoding::is_piece_code;
use crate::encoding::is_square_code;
use crate::encoding::square_file_index;
use crate::encoding::square_rank_index;
use crate::geometry::offset_amount;
use crate::geometry::offset_in_board;
use crate::geometry::offset_square;
use crate::geometry::offset_squares_upto;
use crate::movegen::board_moves_upto;
use crate::movegen::castle_dir;
use crate::movegen::castle_path_clear;
use crate::movegen::castle_slot_moves;
use crate::movegen::castling_moves_spec;
use crate::movegen::empty_or_enemy;
use crate::movegen::ep_capture_from;
use crate::movegen::ep_moves_spec;
use crate::movegen::offset_moves_upto;
use crate::movegen::pawn_capture_moves;
use crate::movegen::pawn_double_rank;
use crate::movegen::pawn_forward_moves;
use crate::movegen::pawn_move_dir;
use crate::movegen::pawn_moves_spec;
use crate::movegen::pawn_promo_rank;
use crate::movegen::piece_moves_spec;
use crate::movegen::pseudo_legal_moves_spec;
use crate::movegen::ray_moves;
use crate::movegen::rays_moves_upto;
use crate::types::ChessMove;
use crate::types::EnumPiecesUncolored;
use crate::types::SmallOffset;

verus! {

/// The exact double-push shape: same file, from the pawn's home rank,
/// two ranks forward over an empty midpoint square.
pub open spec fn double_push_ok(p: PositionModel, from: int, to: int) -> bool {
    let dir = pawn_move_dir(p.moving_side);
    &&& square_file_index(to) == square_file_index(from)
    &&& square_rank_index(from) == pawn_double_rank(p.moving_side)
    &&& to == from + 16 * dir
    &&& p.board[from + 8 * dir] == -1
}

/// What every generated move guarantees about itself against the
/// position it was generated from.
pub open spec fn move_props(p: PositionModel, m: ChessMove) -> bool {
    match m {
        ChessMove::NullMove => false,
        ChessMove::StandardMove(sm) => {
            let from = sm.from_square as int;
            let to = sm.to_square as int;
            let c = p.board[from] as int;
            &&& is_square_code(from)
            &&& is_square_code(to)
            &&& from != to
            &&& c >= 0
            &&& code_color(c) == p.moving_side
            &&& empty_or_enemy(p.board, p.moving_side, to)
            &&& (code_kind(c) == EnumPiecesUncolored::Pawn ==> square_rank_index(to) != 0
                && square_rank_index(to) != 7)
            &&& (code_kind(c) == EnumPiecesUncolored::Pawn && (square_rank_index(to)
                - square_rank_index(from) == 2 || square_rank_index(to) - square_rank_index(from)
                == -2) ==> double_push_ok(p, from, to))
        },
        ChessMove::PromotionMove(pm) => {
            let from = pm.from_square as int;
            let to = pm.to_square as int;
            let c = p.board[from] as int;
            let choice = pm.promotion_choice as int;
            &&& is_square_code(from)
            &&& is_square_code(to)
            &&& from != to
            &&& c >= 0
            &&& code_color(c) == p.moving_side
            &&& code_kind(c) == EnumPiecesUncolored::Pawn
            &&& empty_or_enemy(p.board, p.moving_side, to)
            &&& square_rank_index(to) == pawn_promo_rank(p.moving_side)
            &&& is_piece_code(choice)
            &&& code_color(choice) == p.moving_side
            &&& code_kind(choice) != EnumPiecesUncolored::Pawn
            &&& code_kind(choice) != EnumPiecesUncolored::King
        },
        ChessMove::EnPassantMove(em) => {
            let from = em.from_square as int;
            let taken = em.taken_square as int;
            let to = em.to_square as int;
            let c = p.board[from] as int;
            &&& is_square_code(from)
            &&& is_square_code(taken)
            &&& is_square_code(to)
            &&& p.ep_data >= 0
            &&& to == p.ep_data as int
            &&& taken == ep_taken_square(p.moving_side, p.ep_data as int)
            &&& c >= 0
            &&& code_color(c) == p.moving_side
            &&& code_kind(c) == EnumPiecesUncolored::Pawn
            &&& from != to
            &&& from != taken
            &&& taken != to
        },
        ChessMove::CastlingMove(cm) => {
            &&& (p.castling[castle_offset(p.moving_side)] == Some(cm) || p.castling[castle_offset(
                p.moving_side,
            ) + 1] == Some(cm))
            &&& castle_path_clear(
                p.board,
                cm.king_from as int,
                cm.rook_from as int,
                castle_dir(cm.king_from as int, cm.rook_from as int),
                8,
            )
        },
    }
}

/// A generated move can always be applied.
pub proof fn lemma_move_props_applicable(p: PositionModel, m: ChessMove)
    requires
        p.castling_wf(),
        move_props(p, m),
    ensures
        applicable(p, m),
{
    match m {
        ChessMove::CastlingMove(cm) => {
            assert(p.castling[castle_offset(p.moving_side)] == Some(cm) || p.castling[castle_offset(
                p.moving_side,
            ) + 1] == Some(cm));
            if p.castling[castle_offset(p.moving_side)] == Some(cm) {
                assert(p.castling[castle_offset(p.moving_side)] matches Some(rule)
                    ==> p.castle_rule_wf(
                    crate::board::castle_slot_color(castle_offset(p.moving_side)),
                    rule,
                ));
            } else {
                assert(p.castling[castle_offset(p.moving_side) + 1] matches Some(rule)
                    ==> p.castle_rule_wf(
                    crate::board::castle_slot_color(castle_offset(p.moving_side) + 1),
                    rule,
                ));
            }
        },
        _ => {},
    }
}

/// The squares produced by walking an offset list all lie on the board
/// and, when no offset is the zero step, differ from the origin.
pub proof fn lemma_offset_squares_props(sq: int, offs: Seq<(SmallOffset, SmallOffset)>, n: int)
    requires
        is_square_code(sq),
        0 <= n <= offs.len(),
        forall|k: int|
            0 <= k < offs.len() ==> !(offset_amount((#[trigger] offs[k]).0) == 0 && offset_amount(
                offs[k].1,
            ) == 0),
    ensures
        forall|j: int|
            0 <= j < offset_squares_upto(sq, offs, n).len() ==> is_square_code(
                #[trigger] offset_squares_upto(sq, offs, n)[j] as int,
            ) && offset_squares_upto(sq, offs, n)[j] != sq,
    decreases n,
{
    if n > 0 {
        lemma_offset_squares_props(sq, offs, n - 1);
        let cur = offset_squares_upto(sq, offs, n);
        let prev = offset_squares_upto(sq, offs, n - 1);
        assert forall|j: int| 0 <= j < cur.len() implies is_square_code(
            #[trigger] cur[j] as int,
        ) && cur[j] != sq by {
            if j < prev.len() {
                assert(cur[j] == prev[j]);
            }
        }
    }
}

/// Moves built from listed target squares satisfy `move_props` when
/// the origin holds a non-pawn piece of the mover.
pub proof fn lemma_offset_moves_props(
    p: PositionModel,
    from: i8,
    squares: Seq<i8>,
    n: int,
)
    requires
        is_square_code(from as int),
        p.board[from as int] >= 0,
        code_color(p.board[from as int] as int) == p.moving_side,
        code_kind(p.board[from as int] as int) != EnumPiecesUncolored::Pawn,
        0 <= n <= squares.len(),
        forall|j: int|
            0 <= j < squares.len() ==> is_square_code(#[trigger] squares[j] as int) && squares[j]
                != from,
    ensures
        forall|j: int|
            0 <= j < offset_moves_upto(p, from, squares, n).len() ==> move_props(
                p,
                #[trigger] offset_moves_upto(p, from, squares, n)[j],
            ),
    decreases n,
{
    if n > 0 {
        lemma_offset_moves_props(p, from, squares, n - 1);
        let cur = offset_moves_upto(p, from, squares, n);
        let prev = offset_moves_upto(p, from, squares, n - 1);
        assert forall|j: int| 0 <= j < cur.len() implies move_props(p, #[trigger] cur[j]) by {
            if j < prev.len() {
                assert(cur[j] == prev[j]);
            } else {
                assert(cur[j] == crate::movegen::std_move(from, squares[n - 1]));
            }
        }
    }
}

/// Moves along one ray satisfy `move_props`: the walk never returns to
/// its origin because it is monotone along its direction.
pub proof fn lemma_ray_moves_props(
    p: PositionModel,
    from: i8,
    cur: int,
    dr: int,
    df: int,
    fuel: nat,
)
    requires
        is_square_code(from as int),
        is_square_code(cur),
        p.board[from as int] >= 0,
        code_color(p.board[from as int] as int) == p.moving_side,
        code_kind(p.board[from as int] as int) != EnumPiecesUncolored::Pawn,
        !(dr == 0 && df == 0),
        -1 <= dr <= 1,
        -1 <= df <= 1,
        dr > 0 ==> square_rank_index(cur) >= square_rank_index(from as int),
        dr < 0 ==> square_rank_index(cur) <= square_rank_index(from as int),
        df > 0 ==> square_file_index(cur) >= square_file_index(from as int),
        df < 0 ==> square_file_index(cur) <= square_file_index(from as int),
    ensures
        forall|j: int|
            0 <= j < ray_moves(p, from, cur, dr, df, fuel).len() ==> move_props(
                p,
                #[trigger] ray_moves(p, from, cur, dr, df, fuel)[j],
            ),
    decreases fuel,
{
    if fuel > 0 && offset_in_board(cur, dr, df) {
        let t = offset_square(cur, dr, df);
        assert(t != from as int);
        let here = ray_moves(p, from, cur, dr, df, fuel);
        if p.board[t] < 0 {
            lemma_ray_moves_props(p, from, t, dr, df, (fuel - 1) as nat);
            let rest = ray_moves(p, from, t, dr, df, (fuel - 1) as nat);
            assert forall|j: int| 0 <= j < here.len() implies move_props(
                p,
                #[trigger] here[j],
            ) by {
                if j == 0 {
                    assert(here[j] == crate::movegen::std_move(from, t as i8));
                } else {
                    assert(here[j] == rest[j - 1]);
                }
            }
        } else if code_color(p.board[t] as int) == crate::encoding::opposite_color(
            p.moving_side,
        ) {
            assert(here[0] == crate::movegen::std_move(from, t as i8));
        }
    }
}

/// Slider moves along a direction list satisfy `move_props`.
pub proof fn lemma_rays_moves_props(
    p: PositionModel,
    from: i8,
    dirs: Seq<(SmallOffset, SmallOffset)>,
    n: int,
)
    requires
        is_square_code(from as int),
        p.board[from as int] >= 0,
        code_color(p.board[from as int] as int) == p.moving_side,
        code_kind(p.board[from as int] as int) != EnumPiecesUncolored::Pawn,
        0 <= n <= dirs.len(),
        forall|k: int|
            0 <= k < dirs.len() ==> !(offset_amount((#[trigger] dirs[k]).0) == 0 && offset_amount(
                dirs[k].1,
            ) == 0) && -1 <= offset_amount(dirs[k].0) <= 1 && -1 <= offset_amount(dirs[k].1) <= 1,
    ensures
        forall|j: int|
            0 <= j < rays_moves_upto(p, from, dirs, n).len() ==> move_props(
                p,
                #[trigger] rays_moves_upto(p, from, dirs, n)[j],
            ),
    decreases n,
{
    if n > 0 {
        lemma_rays_moves_props(p, from, dirs, n - 1);
        lemma_ray_moves_props(
            p,
            from,
            from as int,
            offset_amount(dirs[n - 1].0),
            offset_amount(dirs[n - 1].1),
            8,
        );
        let cur = rays_moves_upto(p, from, dirs, n);
        let prev = rays_moves_upto(p, from, dirs, n - 1);
        let part = ray_moves(
            p,
            from,
            from as int,
            offset_amount(dirs[n - 1].0),
            offset_amount(dirs[n - 1].1),
            8,
        );
        assert forall|j: int| 0 <= j < cur.len() implies move_props(p, #[trigger] cur[j]) by {
            if j < prev.len() {
                assert(cur[j] == prev[j]);
            } else {
                assert(cur[j] == part[j - prev.len()]);
            }
        }
    }
}

/// Pawn moves satisfy `move_props` when the origin holds a mover pawn
/// off the promotion rank.
pub proof fn lemma_pawn_moves_props(p: PositionModel, from: i8)
    requires
        p.board_contents_wf(),
        is_square_code(from as int),
        p.board[from as int] >= 0,
        code_color(p.board[from as int] as int) == p.moving_side,
        code_kind(p.board[from as int] as int) == EnumPiecesUncolored::Pawn,
        square_rank_index(from as int) != pawn_promo_rank(p.moving_side),
    ensures
        forall|j: int|
            0 <= j < pawn_moves_spec(p, from).len() ==> move_props(
                p,
                #[trigger] pawn_moves_spec(p, from)[j],
            ),
{
    assert forall|j: int| 0 <= j < pawn_moves_spec(p, from).len() implies move_props(
        p,
        #[trigger] pawn_moves_spec(p, from)[j],
    ) by {
        let caps_a = pawn_capture_moves(p, from, -1);
        let caps_b = pawn_capture_moves(p, from, 1);
        let fwd = pawn_forward_moves(p, from);
        let m = pawn_moves_spec(p, from)[j];
        let dir = pawn_move_dir(p.moving_side);
        if offset_in_board(from as int, dir, -1) {
            crate::geometry::lemma_offset_square_coords(from as int, dir, -1);
        }
        if offset_in_board(from as int, dir, 1) {
            crate::geometry::lemma_offset_square_coords(from as int, dir, 1);
        }
        if offset_in_board(from as int, dir, 0) {
            let f1 = offset_square(from as int, dir, 0);
            crate::geometry::lemma_offset_square_coords(from as int, dir, 0);
            if offset_in_board(f1, dir, 0) {
                crate::geometry::lemma_offset_square_coords(f1, dir, 0);
            }
        }
        if j < caps_a.len() {
            assert(m == caps_a[j]);
            assert(move_props(p, m));
        } else if j < caps_a.len() + caps_b.len() {
            assert(m == caps_b[j - caps_a.len()]);
            assert(move_props(p, m));
        } else {
            assert(m == fwd[j - caps_a.len() - caps_b.len()]);
            assert(move_props(p, m));
        }
    }
}

/// En-passant captures satisfy `move_props`.
pub proof fn lemma_ep_moves_props(p: PositionModel)
    requires
        p.board_contents_wf(),
        p.ep_wf(),
    ensures
        forall|j: int|
            0 <= j < ep_moves_spec(p).len() ==> move_props(p, #[trigger] ep_moves_spec(p)[j]),
{
    if p.ep_data >= 0 {
        assert forall|j: int| 0 <= j < ep_moves_spec(p).len() implies move_props(
            p,
            #[trigger] ep_moves_spec(p)[j],
        ) by {
            let left = ep_capture_from(p, -1);
            let right = ep_capture_from(p, 1);
            let m = ep_moves_spec(p)[j];
            if j < left.len() {
                assert(m == left[j]);
                assert(move_props(p, m));
            } else {
                assert(m == right[j - left.len()]);
                assert(move_props(p, m));
            }
        }
    }
}

/// Castling offers satisfy `move_props`.
pub proof fn lemma_castling_moves_props(p: PositionModel)
    ensures
        forall|j: int|
            0 <= j < castling_moves_spec(p).len() ==> move_props(
                p,
                #[trigger] castling_moves_spec(p)[j],
            ),
{
    assert forall|j: int| 0 <= j < castling_moves_spec(p).len() implies move_props(
        p,
        #[trigger] castling_moves_spec(p)[j],
    ) by {
        let first = castle_slot_moves(p, castle_offset(p.moving_side));
        let second = castle_slot_moves(p, castle_offset(p.moving_side) + 1);
        let m = castling_moves_spec(p)[j];
        if j < first.len() {
            assert(m == first[j]);
            match p.castling[castle_offset(p.moving_side)] {
                Some(rule) => {
                    assert(m == ChessMove::CastlingMove(rule));
                    assert(move_props(p, m));
                },
                None => {
                    assert(false);
                },
            }
        } else {
            assert(m == second[j - first.len()]);
            match p.castling[castle_offset(p.moving_side) + 1] {
                Some(rule) => {
                    assert(m == ChessMove::CastlingMove(rule));
                    assert(move_props(p, m));
                },
                None => {
                    assert(false);
                },
            }
        }
    }
}

/// The moves of the piece on one square satisfy `move_props`.
pub proof fn lemma_piece_moves_props(p: PositionModel, sq: i8)
    requires
        p.board_contents_wf(),
        p.pawns_wf(),
        is_square_code(sq as int),
    ensures
        forall|j: int|
            0 <= j < piece_moves_spec(p, sq).len() ==> move_props(
                p,
                #[trigger] piece_moves_spec(p, sq)[j],
            ),
{
    let c = p.board[sq as int] as int;
    if c >= 0 && code_color(c) == p.moving_side {
        match code_kind(c) {
            EnumPiecesUncolored::Pawn => {
                assert(square_rank_index(sq as int) != pawn_promo_rank(p.moving_side));
                lemma_pawn_moves_props(p, sq);
            },
            EnumPiecesUncolored::Knight => {
                lemma_offset_squares_props(sq as int, crate::geometry::knight_offsets(), 8);
                lemma_offset_moves_props(
                    p,
                    sq,
                    crate::attack::knight_jump_squares(sq as int),
                    crate::attack::knight_jump_squares(sq as int).len() as int,
                );
            },
            EnumPiecesUncolored::King => {
                lemma_offset_squares_props(sq as int, crate::geometry::king_offsets(), 8);
                lemma_offset_moves_props(
                    p,
                    sq,
                    crate::movegen::king_step_squares(sq as int),
                    crate::movegen::king_step_squares(sq as int).len() as int,
                );
            },
            EnumPiecesUncolored::Bishop => {
                lemma_rays_moves_props(p, sq, crate::geometry::bishop_directions(), 4);
            },
            EnumPiecesUncolored::Rook => {
                lemma_rays_moves_props(p, sq, crate::geometry::rook_directions(), 4);
            },
            EnumPiecesUncolored::Queen => {
                lemma_rays_moves_props(p, sq, crate::geometry::queen_directions(), 8);
            },
        }
    }
}

/// The per-square union over a board prefix satisfies `move_props`.
pub proof fn lemma_board_moves_props(p: PositionModel, n: int)
    requires
        p.board_contents_wf(),
        p.pawns_wf(),
        0 <= n <= 64,
    ensures
        forall|j: int|
            0 <= j < board_moves_upto(p, n).len() ==> move_props(
                p,
                #[trigger] board_moves_upto(p, n)[j],
            ),
    decreases n,
{
    if n > 0 {
        lemma_board_moves_props(p, n - 1);
        lemma_piece_moves_props(p, (n - 1) as i8);
        assert forall|j: int| 0 <= j < board_moves_upto(p, n).len() implies move_props(
            p,
            #[trigger] board_moves_upto(p, n)[j],
        ) by {
            let prev = board_moves_upto(p, n - 1);
            let part = piece_moves_spec(p, (n - 1) as i8);
            if j < prev.len() {
                assert(board_moves_upto(p, n)[j] == prev[j]);
            } else {
                assert(board_moves_upto(p, n)[j] == part[j - prev.len()]);
            }
        }
    }
}

/// Every pseudo-legal move satisfies `move_props`: the central fact
/// connecting generation to application.
pub proof fn lemma_pseudo_legal_props(p: PositionModel)
    requires
        p.board_contents_wf(),
        p.ep_wf(),
        p.castling_wf(),
        p.pawns_wf(),
    ensures
        forall|j: int|
            0 <= j < pseudo_legal_moves_spec(p).len() ==> move_props(
                p,
                #[trigger] pseudo_legal_moves_spec(p)[j],
            ) && applicable(p, #[trigger] pseudo_legal_moves_spec(p)[j]),
{
    lemma_board_moves_props(p, 64);
    lemma_castling_moves_props(p);
    lemma_ep_moves_props(p);
    assert forall|j: int| 0 <= j < pseudo_legal_moves_spec(p).len() implies move_props(
        p,
        #[trigger] pseudo_legal_moves_spec(p)[j],
    ) && applicable(p, pseudo_legal_moves_spec(p)[j]) by {
        let body = board_moves_upto(p, 64);
        let castles = castling_moves_spec(p);
        let eps = ep_moves_spec(p);
        let m = pseudo_legal_moves_spec(p)[j];
        if j < body.len() {
            assert(m == body[j]);
        } else if j < body.len() + castles.len() {
            assert(m == castles[j - body.len()]);
        } else {
            assert(m == eps[j - body.len() - castles.len()]);
        }
        assert(move_props(p, m));
        lemma_move_props_applicable(p, m);
    }
}

} // verus!
