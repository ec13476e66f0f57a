//! Captures are attacks: whenever the generator offers a move onto an
//! occupied square, the attack scan run for that square's side sees
//! the threat. From this it follows that a well-formed position whose
//! waiting side is not in check — every position of a real game —
//! offers no king capture, and that every pseudo-legal move from such
//! a position leads to a well-formed position again.

use vstd::prelude::*;

use crate::attack::enemy_knight_at;
use crate::attack::knight_jump_squares;
use crate::attack::pawn_attack;
use crate::attack::pawn_threat_at;
use crate::attack::pawn_threat_rank_dir;
use crate::attack::ray_attack;
use crate::attack::sees_attack;
use crate::attack::slider_attack;
use crate::attack::slider_directions;
use crate::board::PositionModel;
use crate::encoding::code_color;
use crate::encoding::code_kind;
use crate::encoding::is_square_code;
use crate::encoding::opposite_color;
use crate::geometry::offset_amount;
use crate::geometry::lemma_offset_square_coords;
use crate::geometry::offset_in_board;
use crate::geometry::offset_square;
use crate::geometry::offset_squares_upto;
use crate::legality::ray_slider_kind;
use crate::movegen::board_moves_upto;
use crate::movegen::king_step_squares;
use crate::movegen::knight_moves_spec;
use crate::movegen::offset_moves_upto;
use crate::movegen::pawn_capture_moves;
use crate::movegen::pawn_forward_moves;
use crate::movegen::pawn_move_dir;
use crate::movegen::pawn_moves_spec;
use crate::movegen::piece_moves_spec;
use crate::movegen::pseudo_legal_moves_spec;
use crate::movegen::ray_moves;
use crate::movegen::rays_moves_upto;
use crate::movegen::std_move;
use crate::types::ChessMove;
use crate::types::EnumColor;
use crate::types::EnumPiecesUncolored;
use crate::types::SmallOffset;

verus! {

/// Whether a capture onto every occupied destination of this move
/// would be seen by the attack scan run for the victim's side.
pub open spec fn capture_is_attack(p: PositionModel, m: ChessMove) -> bool {
    match m {
        ChessMove::StandardMove(sm) => p.board[sm.to_square as int] >= 0 ==> sees_attack(
            p.board,
            opposite_color(p.moving_side),
            sm.to_square as int,
        ),
        ChessMove::PromotionMove(pm) => p.board[pm.to_square as int] >= 0 ==> sees_attack(
            p.board,
            opposite_color(p.moving_side),
            pm.to_square as int,
        ),
        _ => true,
    }
}

/// A true ray-attack verdict survives more fuel.
proof fn lemma_ray_attack_fuel_monotone(
    b: Seq<i8>,
    defender: EnumColor,
    cur: int,
    dr: int,
    df: int,
    slider: EnumPiecesUncolored,
    king_relevant: bool,
    f1: nat,
    f2: nat,
)
    requires
        ray_attack(b, defender, cur, dr, df, slider, king_relevant, f1),
        f1 <= f2,
    ensures
        ray_attack(b, defender, cur, dr, df, slider, king_relevant, f2),
    decreases f1,
{
    if f1 > 0 && offset_in_board(cur, dr, df) {
        let nxt = offset_square(cur, dr, df);
        if b[nxt] < 0 {
            lemma_ray_attack_fuel_monotone(
                b,
                defender,
                nxt,
                dr,
                df,
                slider,
                false,
                (f1 - 1) as nat,
                (f2 - 1) as nat,
            );
        }
    }
}

/// The reversal of a slider-family direction is in the same family.
proof fn lemma_reverse_direction_in_family(slider: EnumPiecesUncolored, k: int)
    requires
        slider == EnumPiecesUncolored::Bishop || slider == EnumPiecesUncolored::Rook,
        0 <= k < slider_directions(slider).len(),
    ensures
        exists|j: int|
            0 <= j < slider_directions(slider).len() && offset_amount(
                (#[trigger] slider_directions(slider)[j]).0,
            ) == -offset_amount(slider_directions(slider)[k].0) && offset_amount(
                slider_directions(slider)[j].1,
            ) == -offset_amount(slider_directions(slider)[k].1),
{
    let dirs = slider_directions(slider);
    if slider == EnumPiecesUncolored::Bishop {
        if k == 0 {
            assert(offset_amount(dirs[3].0) == -offset_amount(dirs[0].0) && offset_amount(
                dirs[3].1,
            ) == -offset_amount(dirs[0].1));
        } else if k == 1 {
            assert(offset_amount(dirs[2].0) == -offset_amount(dirs[1].0) && offset_amount(
                dirs[2].1,
            ) == -offset_amount(dirs[1].1));
        } else if k == 2 {
            assert(offset_amount(dirs[1].0) == -offset_amount(dirs[2].0) && offset_amount(
                dirs[1].1,
            ) == -offset_amount(dirs[2].1));
        } else {
            assert(offset_amount(dirs[0].0) == -offset_amount(dirs[3].0) && offset_amount(
                dirs[0].1,
            ) == -offset_amount(dirs[3].1));
        }
    } else {
        if k == 0 {
            assert(offset_amount(dirs[1].0) == -offset_amount(dirs[0].0) && offset_amount(
                dirs[1].1,
            ) == -offset_amount(dirs[0].1));
        } else if k == 1 {
            assert(offset_amount(dirs[0].0) == -offset_amount(dirs[1].0) && offset_amount(
                dirs[0].1,
            ) == -offset_amount(dirs[1].1));
        } else if k == 2 {
            assert(offset_amount(dirs[3].0) == -offset_amount(dirs[2].0) && offset_amount(
                dirs[3].1,
            ) == -offset_amount(dirs[2].1));
        } else {
            assert(offset_amount(dirs[2].0) == -offset_amount(dirs[3].0) && offset_amount(
                dirs[2].1,
            ) == -offset_amount(dirs[3].1));
        }
    }
}

/// How many steps a ray walk from `from` has taken to reach `cur`,
/// read off the coordinate of the axis the direction moves along.
pub open spec fn axis_progress(from: int, cur: int, dr: int, df: int) -> int {
    if dr > 0 {
        crate::encoding::square_rank_index(cur) - crate::encoding::square_rank_index(from)
    } else if dr < 0 {
        crate::encoding::square_rank_index(from) - crate::encoding::square_rank_index(cur)
    } else if df > 0 {
        crate::encoding::square_file_index(cur) - crate::encoding::square_file_index(from)
    } else {
        crate::encoding::square_file_index(from) - crate::encoding::square_file_index(cur)
    }
}

/// A slider standing at the other end of an empty corridor is seen by
/// the backward ray scan: the captures of one generation ray land on
/// attacked squares.
#[verifier::rlimit(80)]
proof fn lemma_ray_moves_captures(
    p: PositionModel,
    from: i8,
    cur: int,
    dr: int,
    df: int,
    fuel: nat,
    back_fuel: nat,
)
    requires
        p.board_contents_wf(),
        is_square_code(from as int),
        is_square_code(cur),
        p.board[from as int] >= 0,
        code_color(p.board[from as int] as int) == p.moving_side,
        code_kind(p.board[from as int] as int) == ray_slider_kind(dr, df) || code_kind(
            p.board[from as int] as int,
        ) == EnumPiecesUncolored::Queen,
        -1 <= dr <= 1,
        -1 <= df <= 1,
        !(dr == 0 && df == 0),
        back_fuel <= 1 + axis_progress(from as int, cur, dr, df),
        cur == from as int || (p.board[cur] == -1 && back_fuel >= 1 && ray_attack(
            p.board,
            opposite_color(p.moving_side),
            cur,
            -dr,
            -df,
            ray_slider_kind(dr, df),
            false,
            back_fuel,
        )),
    ensures
        forall|j: int|
            0 <= j < ray_moves(p, from, cur, dr, df, fuel).len() ==> capture_is_attack(
                p,
                #[trigger] ray_moves(p, from, cur, dr, df, fuel)[j],
            ),
    decreases fuel,
{
    let defender = opposite_color(p.moving_side);
    let kind = ray_slider_kind(dr, df);
    if fuel > 0 && offset_in_board(cur, dr, df) {
        let t = offset_square(cur, dr, df);
        lemma_offset_square_coords(cur, dr, df);
        let c = p.board[t] as int;
        // the backward scan from t sees the slider: its first square is
        // cur, which is the slider itself or an empty link of the chain
        assert(offset_in_board(t, -dr, -df) && offset_square(t, -dr, -df) == cur) by {
            lemma_offset_square_coords(t, -dr, -df);
        };
        assert(back_fuel <= 7);
        let lifted: nat = (back_fuel + 1) as nat;
        assert(axis_progress(from as int, t, dr, df) == axis_progress(from as int, cur, dr, df)
            + 1);
        if cur == from as int {
            assert(p.board[cur] >= 0);
            assert(ray_attack(p.board, defender, t, -dr, -df, kind, true, lifted));
        } else {
            assert(p.board[cur] == -1);
            assert(ray_attack(p.board, defender, cur, -dr, -df, kind, false, (lifted - 1) as nat));
            assert(ray_attack(p.board, defender, t, -dr, -df, kind, true, lifted));
        }
        assert(ray_attack(p.board, defender, t, -dr, -df, kind, true, 8)) by {
            lemma_ray_attack_fuel_monotone(
                p.board,
                defender,
                t,
                -dr,
                -df,
                kind,
                true,
                lifted,
                8,
            );
        };
        if c < 0 {
            assert(ray_attack(p.board, defender, t, -dr, -df, kind, false, lifted));
            lemma_ray_moves_captures(p, from, t, dr, df, (fuel - 1) as nat, lifted);
            let here = ray_moves(p, from, cur, dr, df, fuel);
            let rest = ray_moves(p, from, t, dr, df, (fuel - 1) as nat);
            assert forall|j: int| 0 <= j < here.len() implies capture_is_attack(
                p,
                #[trigger] here[j],
            ) by {
                if j == 0 {
                    assert(here[j] == std_move(from, t as i8));
                } else {
                    assert(here[j] == rest[j - 1]);
                }
            }
        } else if code_color(c) == opposite_color(p.moving_side) {
            // the capture: t is occupied, and the backward scan sees us
            assert(exists|i: int|
                0 <= i < slider_directions(kind).len() && offset_amount(
                    (#[trigger] slider_directions(kind)[i]).0,
                ) == dr && offset_amount(slider_directions(kind)[i].1) == df) by {
                if kind == EnumPiecesUncolored::Bishop {
                    if dr == 1 && df == 1 {
                        assert(offset_amount(slider_directions(kind)[0].0) == dr && offset_amount(
                            slider_directions(kind)[0].1,
                        ) == df);
                    } else if dr == 1 && df == -1 {
                        assert(offset_amount(slider_directions(kind)[1].0) == dr && offset_amount(
                            slider_directions(kind)[1].1,
                        ) == df);
                    } else if dr == -1 && df == 1 {
                        assert(offset_amount(slider_directions(kind)[2].0) == dr && offset_amount(
                            slider_directions(kind)[2].1,
                        ) == df);
                    } else {
                        assert(offset_amount(slider_directions(kind)[3].0) == dr && offset_amount(
                            slider_directions(kind)[3].1,
                        ) == df);
                    }
                } else {
                    if dr == 1 && df == 0 {
                        assert(offset_amount(slider_directions(kind)[0].0) == dr && offset_amount(
                            slider_directions(kind)[0].1,
                        ) == df);
                    } else if dr == -1 && df == 0 {
                        assert(offset_amount(slider_directions(kind)[1].0) == dr && offset_amount(
                            slider_directions(kind)[1].1,
                        ) == df);
                    } else if dr == 0 && df == 1 {
                        assert(offset_amount(slider_directions(kind)[2].0) == dr && offset_amount(
                            slider_directions(kind)[2].1,
                        ) == df);
                    } else {
                        assert(offset_amount(slider_directions(kind)[3].0) == dr && offset_amount(
                            slider_directions(kind)[3].1,
                        ) == df);
                    }
                }
            };
            let i0 = choose|i: int|
                0 <= i < slider_directions(kind).len() && offset_amount(
                    (#[trigger] slider_directions(kind)[i]).0,
                ) == dr && offset_amount(slider_directions(kind)[i].1) == df;
            lemma_reverse_direction_in_family(kind, i0);
            assert(slider_attack(p.board, defender, t, kind));
            assert(sees_attack(p.board, defender, t));
        }
    }
}

/// The first square of a generation ray is attacked by the slider when
/// occupied, and so on down the ray: every capture of a slider's moves
/// lands on an attacked square.
proof fn lemma_rays_moves_captures(
    p: PositionModel,
    from: i8,
    dirs: Seq<(SmallOffset, SmallOffset)>,
    n: int,
)
    requires
        p.board_contents_wf(),
        is_square_code(from as int),
        p.board[from as int] >= 0,
        code_color(p.board[from as int] as int) == p.moving_side,
        0 <= n <= dirs.len(),
        forall|k: int|
            0 <= k < dirs.len() ==> {
                let dr = offset_amount((#[trigger] dirs[k]).0);
                let df = offset_amount(dirs[k].1);
                &&& -1 <= dr <= 1
                &&& -1 <= df <= 1
                &&& !(dr == 0 && df == 0)
                &&& (code_kind(p.board[from as int] as int) == ray_slider_kind(dr, df) || code_kind(
                    p.board[from as int] as int,
                ) == EnumPiecesUncolored::Queen)
            },
    ensures
        forall|j: int|
            0 <= j < rays_moves_upto(p, from, dirs, n).len() ==> capture_is_attack(
                p,
                #[trigger] rays_moves_upto(p, from, dirs, n)[j],
            ),
    decreases n,
{
    if n > 0 {
        lemma_rays_moves_captures(p, from, dirs, n - 1);
        lemma_ray_moves_captures(
            p,
            from,
            from as int,
            offset_amount(dirs[n - 1].0),
            offset_amount(dirs[n - 1].1),
            8,
            1,
        );
        let cur = rays_moves_upto(p, from, dirs, n);
        let prev = rays_moves_upto(p, from, dirs, n - 1);
        let part = ray_moves(
            p,
            from,
            from as int,
            offset_amount(dirs[n - 1].0),
            offset_amount(dirs[n - 1].1),
            8,
        );
        assert forall|j: int| 0 <= j < cur.len() implies capture_is_attack(
            p,
            #[trigger] cur[j],
        ) by {
            if j < prev.len() {
                assert(cur[j] == prev[j]);
            } else {
                assert(cur[j] == part[j - prev.len()]);
            }
        }
    }
}


/// Every square of a filtered offset list arises from some listed
/// offset that stays on the board.
proof fn lemma_offset_squares_origin(sq: int, offs: Seq<(SmallOffset, SmallOffset)>, n: int, j: int)
    requires
        is_square_code(sq),
        0 <= n <= offs.len(),
        0 <= j < offset_squares_upto(sq, offs, n).len(),
    ensures
        exists|k: int|
            0 <= k < n && offset_in_board(
                sq,
                offset_amount((#[trigger] offs[k]).0),
                offset_amount(offs[k].1),
            ) && offset_squares_upto(sq, offs, n)[j] == offset_square(
                sq,
                offset_amount(offs[k].0),
                offset_amount(offs[k].1),
            ) as i8,
    decreases n,
{
    let cur = offset_squares_upto(sq, offs, n);
    let prev = offset_squares_upto(sq, offs, n - 1);
    if j < prev.len() {
        lemma_offset_squares_origin(sq, offs, n - 1, j);
        let k0 = choose|k: int|
            0 <= k < n - 1 && offset_in_board(
                sq,
                offset_amount((#[trigger] offs[k]).0),
                offset_amount(offs[k].1),
            ) && offset_squares_upto(sq, offs, n - 1)[j] == offset_square(
                sq,
                offset_amount(offs[k].0),
                offset_amount(offs[k].1),
            ) as i8;
        assert(cur[j] == prev[j]);
        assert(0 <= k0 < n && offset_in_board(
            sq,
            offset_amount(offs[k0].0),
            offset_amount(offs[k0].1),
        ) && cur[j] == offset_square(
            sq,
            offset_amount(offs[k0].0),
            offset_amount(offs[k0].1),
        ) as i8);
    } else {
        assert(cur[j] == offset_square(
            sq,
            offset_amount(offs[n - 1].0),
            offset_amount(offs[n - 1].1),
        ) as i8);
    }
}

/// An on-board offset square is in the filtered list.
proof fn lemma_offset_squares_member(sq: int, offs: Seq<(SmallOffset, SmallOffset)>, n: int, k: int)
    requires
        is_square_code(sq),
        0 <= k < n <= offs.len(),
        offset_in_board(sq, offset_amount(offs[k].0), offset_amount(offs[k].1)),
    ensures
        exists|j: int|
            0 <= j < offset_squares_upto(sq, offs, n).len() && #[trigger] offset_squares_upto(
                sq,
                offs,
                n,
            )[j] == offset_square(sq, offset_amount(offs[k].0), offset_amount(offs[k].1)) as i8,

    decreases n,
{
    let cur = offset_squares_upto(sq, offs, n);
    let prev = offset_squares_upto(sq, offs, n - 1);
    if k == n - 1 {
        assert(cur[prev.len() as int] == offset_square(
            sq,
            offset_amount(offs[k].0),
            offset_amount(offs[k].1),
        ) as i8);
    } else {
        lemma_offset_squares_member(sq, offs, n - 1, k);
        let j0 = choose|j: int|
            0 <= j < prev.len() && #[trigger] prev[j] == offset_square(
                sq,
                offset_amount(offs[k].0),
                offset_amount(offs[k].1),
            ) as i8;
        assert(cur[j0] == prev[j0]);
    }
}

/// The knight jumps come in opposite pairs.
proof fn lemma_knight_offsets_reverse(k: int)
    requires
        0 <= k < 8,
    ensures
        exists|j: int|
            0 <= j < 8 && offset_amount(
                (#[trigger] crate::geometry::knight_offsets()[j]).0,
            ) == -offset_amount(crate::geometry::knight_offsets()[k].0) && offset_amount(
                crate::geometry::knight_offsets()[j].1,
            ) == -offset_amount(crate::geometry::knight_offsets()[k].1),
{
    let offs = crate::geometry::knight_offsets();
    let j = 7 - k;
    assert(offset_amount(offs[j].0) == -offset_amount(offs[k].0) && offset_amount(offs[j].1)
        == -offset_amount(offs[k].1));
}

/// A knight's captures land on squares its victim's side sees
/// attacked.
proof fn lemma_knight_moves_captures(p: PositionModel, from: i8)
    requires
        p.board_contents_wf(),
        is_square_code(from as int),
        p.board[from as int] >= 0,
        code_color(p.board[from as int] as int) == p.moving_side,
        code_kind(p.board[from as int] as int) == EnumPiecesUncolored::Knight,
    ensures
        forall|j: int|
            0 <= j < knight_moves_spec(p, from).len() ==> capture_is_attack(
                p,
                #[trigger] knight_moves_spec(p, from)[j],
            ),
{
    let defender = opposite_color(p.moving_side);
    let squares = knight_jump_squares(from as int);
    lemma_offset_moves_targets(p, from, squares, squares.len() as int);
    assert forall|j: int| 0 <= j < knight_moves_spec(p, from).len() implies capture_is_attack(
        p,
        #[trigger] knight_moves_spec(p, from)[j],
    ) by {
        let m = knight_moves_spec(p, from)[j];
        let t = choose|t: int|
            0 <= t < squares.len() && m == std_move(from, #[trigger] squares[t]);
        let s = squares[t] as int;
        if p.board[s] >= 0 {
            lemma_offset_squares_origin(from as int, crate::geometry::knight_offsets(), 8, t);
            let k0 = choose|k: int|
                0 <= k < 8 && offset_in_board(
                    from as int,
                    offset_amount((#[trigger] crate::geometry::knight_offsets()[k]).0),
                    offset_amount(crate::geometry::knight_offsets()[k].1),
                ) && squares[t] == offset_square(
                    from as int,
                    offset_amount(crate::geometry::knight_offsets()[k].0),
                    offset_amount(crate::geometry::knight_offsets()[k].1),
                ) as i8;
            let dr = offset_amount(crate::geometry::knight_offsets()[k0].0);
            let df = offset_amount(crate::geometry::knight_offsets()[k0].1);
            crate::geometry::lemma_offset_square_coords(from as int, dr, df);
            assert(offset_in_board(s, -dr, -df) && offset_square(s, -dr, -df) == from as int) by {
                crate::geometry::lemma_offset_square_coords(s, -dr, -df);
            };
            lemma_knight_offsets_reverse(k0);
            let k1 = choose|k: int|
                0 <= k < 8 && offset_amount(
                    (#[trigger] crate::geometry::knight_offsets()[k]).0,
                ) == -dr && offset_amount(crate::geometry::knight_offsets()[k].1) == -df;
            lemma_offset_squares_member(s, crate::geometry::knight_offsets(), 8, k1);
            assert(enemy_knight_at(p.board, defender, from as int));
            let j1 = choose|jj: int|
                0 <= jj < knight_jump_squares(s).len() && #[trigger] knight_jump_squares(s)[jj]
                    == offset_square(s, -dr, -df) as i8;
            assert(enemy_knight_at(p.board, defender, knight_jump_squares(s)[j1] as int));
            assert(crate::attack::knight_attack(p.board, defender, s));
            assert(sees_attack(p.board, defender, s));
        }
    }
}

/// Every move of an offset generator goes to a listed square.
proof fn lemma_offset_moves_targets(p: PositionModel, from: i8, squares: Seq<i8>, n: int)
    requires
        0 <= n <= squares.len(),
    ensures
        forall|j: int|
            0 <= j < offset_moves_upto(p, from, squares, n).len() ==> exists|t: int|
                0 <= t < n && #[trigger] offset_moves_upto(p, from, squares, n)[j] == std_move(
                    from,
                    squares[t],
                ),
    decreases n,
{
    if n > 0 {
        lemma_offset_moves_targets(p, from, squares, n - 1);
        let cur = offset_moves_upto(p, from, squares, n);
        let prev = offset_moves_upto(p, from, squares, n - 1);
        assert forall|j: int| 0 <= j < cur.len() implies exists|t: int|
            0 <= t < n && #[trigger] cur[j] == std_move(from, squares[t]) by {
            if j < prev.len() {
                assert(cur[j] == prev[j]);
                let t0 = choose|t: int| 0 <= t < n - 1 && prev[j] == std_move(
                    from,
                    #[trigger] squares[t],
                );
                assert(cur[j] == std_move(from, squares[t0]));
            } else {
                assert(cur[j] == std_move(from, squares[n - 1]));
            }
        }
    }
}

/// The reversal of each king step is a slider direction of the
/// matching family.
proof fn lemma_king_offsets_reverse(k: int)
    requires
        0 <= k < 8,
    ensures
        ({
            let dr = offset_amount(crate::geometry::king_offsets()[k].0);
            let df = offset_amount(crate::geometry::king_offsets()[k].1);
            exists|j: int|
                0 <= j < slider_directions(ray_slider_kind(dr, df)).len() && offset_amount(
                    (#[trigger] slider_directions(ray_slider_kind(dr, df))[j]).0,
                ) == -dr && offset_amount(slider_directions(ray_slider_kind(dr, df))[j].1) == -df
        }),
{
    let offs = crate::geometry::king_offsets();
    let dr = offset_amount(offs[k].0);
    let df = offset_amount(offs[k].1);
    let dirs = slider_directions(ray_slider_kind(dr, df));
    if k == 0 {
        assert(offset_amount(dirs[2].0) == -dr && offset_amount(dirs[2].1) == -df);
    } else if k == 1 {
        assert(offset_amount(dirs[1].0) == -dr && offset_amount(dirs[1].1) == -df);
    } else if k == 2 {
        assert(offset_amount(dirs[3].0) == -dr && offset_amount(dirs[3].1) == -df);
    } else if k == 3 {
        assert(offset_amount(dirs[2].0) == -dr && offset_amount(dirs[2].1) == -df);
    } else if k == 4 {
        assert(offset_amount(dirs[3].0) == -dr && offset_amount(dirs[3].1) == -df);
    } else if k == 5 {
        assert(offset_amount(dirs[0].0) == -dr && offset_amount(dirs[0].1) == -df);
    } else if k == 6 {
        assert(offset_amount(dirs[0].0) == -dr && offset_amount(dirs[0].1) == -df);
    } else {
        assert(offset_amount(dirs[1].0) == -dr && offset_amount(dirs[1].1) == -df);
    }
}

/// A king's captures land on squares its victim's side sees attacked:
/// the adjacent-king clause of the ray scan.
proof fn lemma_king_moves_captures(p: PositionModel, from: i8)
    requires
        p.board_contents_wf(),
        is_square_code(from as int),
        p.board[from as int] >= 0,
        code_color(p.board[from as int] as int) == p.moving_side,
        code_kind(p.board[from as int] as int) == EnumPiecesUncolored::King,
    ensures
        forall|j: int|
            0 <= j < crate::movegen::king_moves_spec(p, from).len() ==> capture_is_attack(
                p,
                #[trigger] crate::movegen::king_moves_spec(p, from)[j],
            ),
{
    let defender = opposite_color(p.moving_side);
    let squares = king_step_squares(from as int);
    lemma_offset_moves_targets(p, from, squares, squares.len() as int);
    assert forall|j: int|
        0 <= j < crate::movegen::king_moves_spec(p, from).len() implies capture_is_attack(
        p,
        #[trigger] crate::movegen::king_moves_spec(p, from)[j],
    ) by {
        let m = crate::movegen::king_moves_spec(p, from)[j];
        let t = choose|t: int|
            0 <= t < squares.len() && m == std_move(from, #[trigger] squares[t]);
        let s = squares[t] as int;
        if p.board[s] >= 0 {
            lemma_offset_squares_origin(from as int, crate::geometry::king_offsets(), 8, t);
            let k0 = choose|k: int|
                0 <= k < 8 && offset_in_board(
                    from as int,
                    offset_amount((#[trigger] crate::geometry::king_offsets()[k]).0),
                    offset_amount(crate::geometry::king_offsets()[k].1),
                ) && squares[t] == offset_square(
                    from as int,
                    offset_amount(crate::geometry::king_offsets()[k].0),
                    offset_amount(crate::geometry::king_offsets()[k].1),
                ) as i8;
            let dr = offset_amount(crate::geometry::king_offsets()[k0].0);
            let df = offset_amount(crate::geometry::king_offsets()[k0].1);
            crate::geometry::lemma_offset_square_coords(from as int, dr, df);
            assert(offset_in_board(s, -dr, -df) && offset_square(s, -dr, -df) == from as int) by {
                crate::geometry::lemma_offset_square_coords(s, -dr, -df);
            };
            let kind = ray_slider_kind(-dr, -df);
            assert(kind == ray_slider_kind(dr, df));
            assert(ray_attack(p.board, defender, s, -dr, -df, kind, true, 8));
            lemma_king_offsets_reverse(k0);
            assert(slider_attack(p.board, defender, s, kind));
            assert(sees_attack(p.board, defender, s));
        }
    }
}

/// A pawn's captures land on squares its victim's side sees attacked,
/// and its forward moves land on empty squares.
proof fn lemma_pawn_moves_captures(p: PositionModel, from: i8)
    requires
        p.board_contents_wf(),
        is_square_code(from as int),
        p.board[from as int] >= 0,
        code_color(p.board[from as int] as int) == p.moving_side,
        code_kind(p.board[from as int] as int) == EnumPiecesUncolored::Pawn,
    ensures
        forall|j: int|
            0 <= j < pawn_moves_spec(p, from).len() ==> capture_is_attack(
                p,
                #[trigger] pawn_moves_spec(p, from)[j],
            ),
{
    let defender = opposite_color(p.moving_side);
    let dir = pawn_move_dir(p.moving_side);
    assert forall|j: int| 0 <= j < pawn_moves_spec(p, from).len() implies capture_is_attack(
        p,
        #[trigger] pawn_moves_spec(p, from)[j],
    ) by {
        let caps_a = pawn_capture_moves(p, from, -1);
        let caps_b = pawn_capture_moves(p, from, 1);
        let fwd = pawn_forward_moves(p, from);
        let m = pawn_moves_spec(p, from)[j];
        if j < caps_a.len() + caps_b.len() {
            let df: int = if j < caps_a.len() {
                -1
            } else {
                1
            };
            if j < caps_a.len() {
                assert(m == caps_a[j]);
            } else {
                assert(m == caps_b[j - caps_a.len()]);
            }
            let s = offset_square(from as int, dir, df);
            crate::geometry::lemma_offset_square_coords(from as int, dir, df);
            assert(offset_in_board(s, -dir, -df) && offset_square(s, -dir, -df) == from as int)
                by {
                crate::geometry::lemma_offset_square_coords(s, -dir, -df);
            };
            assert(pawn_threat_rank_dir(defender) == -dir);
            assert(pawn_threat_at(p.board, defender, s, -df));
            assert(pawn_attack(p.board, defender, s));
            assert(sees_attack(p.board, defender, s));
        } else {
            assert(m == fwd[j - caps_a.len() - caps_b.len()]);
        }
    }
}


/// The moves of any one piece land captures only on attacked squares.
proof fn lemma_piece_moves_captures(p: PositionModel, sq: i8)
    requires
        p.board_contents_wf(),
        p.pawns_wf(),
        is_square_code(sq as int),
    ensures
        forall|j: int|
            0 <= j < piece_moves_spec(p, sq).len() ==> capture_is_attack(
                p,
                #[trigger] piece_moves_spec(p, sq)[j],
            ),
{
    let c = p.board[sq as int] as int;
    if c >= 0 && code_color(c) == p.moving_side {
        match code_kind(c) {
            EnumPiecesUncolored::Pawn => {
                lemma_pawn_moves_captures(p, sq);
            },
            EnumPiecesUncolored::Knight => {
                lemma_knight_moves_captures(p, sq);
            },
            EnumPiecesUncolored::King => {
                lemma_king_moves_captures(p, sq);
            },
            EnumPiecesUncolored::Bishop => {
                lemma_rays_moves_captures(p, sq, crate::geometry::bishop_directions(), 4);
            },
            EnumPiecesUncolored::Rook => {
                lemma_rays_moves_captures(p, sq, crate::geometry::rook_directions(), 4);
            },
            EnumPiecesUncolored::Queen => {
                lemma_rays_moves_captures(p, sq, crate::geometry::queen_directions(), 8);
            },
        }
    }
}

/// The union over a board prefix lands captures only on attacked
/// squares.
proof fn lemma_board_moves_captures(p: PositionModel, n: int)
    requires
        p.board_contents_wf(),
        p.pawns_wf(),
        0 <= n <= 64,
    ensures
        forall|j: int|
            0 <= j < board_moves_upto(p, n).len() ==> capture_is_attack(
                p,
                #[trigger] board_moves_upto(p, n)[j],
            ),
    decreases n,
{
    if n > 0 {
        lemma_board_moves_captures(p, n - 1);
        lemma_piece_moves_captures(p, (n - 1) as i8);
        assert forall|j: int| 0 <= j < board_moves_upto(p, n).len() implies capture_is_attack(
            p,
            #[trigger] board_moves_upto(p, n)[j],
        ) by {
            let prev = board_moves_upto(p, n - 1);
            let part = piece_moves_spec(p, (n - 1) as i8);
            if j < prev.len() {
                assert(board_moves_upto(p, n)[j] == prev[j]);
            } else {
                assert(board_moves_upto(p, n)[j] == part[j - prev.len()]);
            }
        }
    }
}

/// Every pseudo-legal move lands captures only on attacked squares:
/// castling and en-passant moves are no standard captures, and each
/// piece's captures follow its own attack pattern.
pub proof fn lemma_pseudo_legal_captures(p: PositionModel)
    requires
        p.board_contents_wf(),
        p.pawns_wf(),
    ensures
        forall|j: int|
            0 <= j < pseudo_legal_moves_spec(p).len() ==> capture_is_attack(
                p,
                #[trigger] pseudo_legal_moves_spec(p)[j],
            ),
{
    lemma_board_moves_captures(p, 64);
    assert forall|j: int| 0 <= j < pseudo_legal_moves_spec(p).len() implies capture_is_attack(
        p,
        #[trigger] pseudo_legal_moves_spec(p)[j],
    ) by {
        let body = board_moves_upto(p, 64);
        let castles = crate::movegen::castling_moves_spec(p);
        let eps = crate::movegen::ep_moves_spec(p);
        let m = pseudo_legal_moves_spec(p)[j];
        if j < body.len() {
            assert(m == body[j]);
        } else if j < body.len() + castles.len() {
            assert(m == castles[j - body.len()]);
            crate::props::lemma_castling_moves_props(p);
            assert(crate::props::move_props(p, m));
        } else {
            assert(m == eps[j - body.len() - castles.len()]);
            if p.ep_data >= 0 {
                let left = crate::movegen::ep_capture_from(p, -1);
                if j - body.len() - castles.len() < left.len() {
                    assert(m == left[j - body.len() - castles.len()]);
                } else {
                    assert(m == crate::movegen::ep_capture_from(p, 1)[j - body.len()
                        - castles.len() - left.len()]);
                }
            }
        }
    }
}

/// From a well-formed position whose waiting side is not in check —
/// every position a real game reaches — no pseudo-legal move lands on
/// the waiting king's square: legal play cannot capture a king.
pub proof fn lemma_no_king_capture(p: PositionModel)
    requires
        p.wf(),
        !p.non_mover_in_check_spec(),
    ensures
        forall|j: int|
            0 <= j < pseudo_legal_moves_spec(p).len() ==> !crate::laws::captures_king(
                p,
                #[trigger] pseudo_legal_moves_spec(p)[j],
            ),
{
    lemma_pseudo_legal_captures(p);
    let eks = p.enemy_king_square();
    assert forall|j: int|
        0 <= j < pseudo_legal_moves_spec(p).len() implies !crate::laws::captures_king(
        p,
        #[trigger] pseudo_legal_moves_spec(p)[j],
    ) by {
        let m = pseudo_legal_moves_spec(p)[j];
        if crate::laws::captures_king(p, m) {
            assert(p.board[eks] as int == crate::encoding::piece_code(
                opposite_color(p.moving_side),
                EnumPiecesUncolored::King,
            ));
            assert(p.board[eks] >= 0);
            assert(sees_attack(p.board, opposite_color(p.moving_side), eks));
            assert(false);
        }
    }
}

/// From a well-formed position whose waiting side is not in check,
/// every pseudo-legal move leads to a well-formed position with the
/// side to move flipped: the invariant survives all of legal play. The
/// headroom hypothesis is a machine limit on the full-move number.
pub proof fn lemma_pseudo_legal_preserves_wf(p: PositionModel, j: int)
    requires
        p.wf(),
        crate::apply::full_move_headroom(p),
        !p.non_mover_in_check_spec(),
        0 <= j < pseudo_legal_moves_spec(p).len(),
    ensures
        crate::apply::make_move_spec(p, pseudo_legal_moves_spec(p)[j]).wf(),
        crate::apply::make_move_spec(p, pseudo_legal_moves_spec(p)[j]).moving_side
            == opposite_color(p.moving_side),
{
    crate::props::lemma_pseudo_legal_props(p);
    lemma_no_king_capture(p);
    crate::laws::lemma_apply_preserves_wf(p, pseudo_legal_moves_spec(p)[j]);
}


/// The symmetry of `apply` under its natural hypothesis: from a
/// well-formed position whose waiting side is not in check, every
/// legal move flips the side to move and leaves each king cache
/// pointing at the one square a board scan would find that king on.
pub proof fn lemma_legal_apply_symmetry(p: PositionModel, j: int)
    requires
        p.wf(),
        crate::apply::full_move_headroom(p),
        !p.non_mover_in_check_spec(),
        0 <= j < crate::legality::legal_moves_spec(p).len(),
    ensures
        crate::apply::make_move_spec(p, crate::legality::legal_moves_spec(p)[j]).wf(),
        crate::apply::make_move_spec(p, crate::legality::legal_moves_spec(p)[j]).kings_wf(),
        crate::apply::make_move_spec(p, crate::legality::legal_moves_spec(p)[j]).moving_side
            == opposite_color(p.moving_side),
{
    let moves = pseudo_legal_moves_spec(p);
    crate::legality::lemma_legal_upto_props(p, moves, moves.len() as int);
    let m = crate::legality::legal_moves_spec(p)[j];
    let i0 = choose|i: int| 0 <= i < moves.len() && m == moves[i];
    crate::props::lemma_pseudo_legal_props(p);
    lemma_no_king_capture(p);
    assert(!crate::laws::captures_king(p, moves[i0]));
    crate::laws::lemma_apply_preserves_wf(p, m);
}

} // verus!
