//! The simplest material evaluation: fixed piece values summed over
//! the board from the side to move's point of view. The search layers
//! above the rules engine build on this.

use vstd::prelude::*;

use crate::apply::applicable;
use crate::board::move_squares_ok;
use crate::board::Position;
use crate::board::PositionModel;
use crate::encoding::code_color;
use crate::encoding::code_kind;
use crate::encoding::is_piece_code;
use crate::encoding::is_square_code;
use crate::encoding::square_rank_index;
use crate::legality::legal_upto;
use crate::types::ChessMove;
use crate::types::EnumColor;
use crate::types::EnumPiecesUncolored;

verus! {

/// The material value of a piece kind, in centipawns.
pub open spec fn piece_value_spec(kind: EnumPiecesUncolored) -> int {
    match kind {
        EnumPiecesUncolored::Pawn => 100,
        EnumPiecesUncolored::Knight => 300,
        EnumPiecesUncolored::Bishop => 310,
        EnumPiecesUncolored::Rook => 500,
        EnumPiecesUncolored::Queen => 900,
        EnumPiecesUncolored::King => 1900,
    }
}

/// The material value of a piece kind, in centipawns.
pub fn get_piece_value(piece: EnumPiecesUncolored) -> (r: i16)
    ensures
        r == piece_value_spec(piece),
{
    match piece {
        EnumPiecesUncolored::Pawn => 100,
        EnumPiecesUncolored::Knight => 300,
        EnumPiecesUncolored::Bishop => 310,
        EnumPiecesUncolored::Rook => 500,
        EnumPiecesUncolored::Queen => 900,
        EnumPiecesUncolored::King => 1900,
    }
}

/// The material difference over the first `n` squares, counted
/// positively for the side to move.
pub open spec fn naive_eval_upto(p: PositionModel, n: int) -> int
    decreases n,
{
    if n <= 0 {
        0
    } else {
        naive_eval_upto(p, n - 1) + {
            let c = p.board[n - 1] as int;
            if c < 0 {
                0
            } else if code_color(c) == p.moving_side {
                piece_value_spec(code_kind(c))
            } else {
                -piece_value_spec(code_kind(c))
            }
        }
    }
}

/// The material difference in centipawns from the side to move's point
/// of view. The bound on the partial sums is a machine limit: any
/// position reachable from a legal game stays far inside it.
pub fn naive_evaluation_stm(position: &Position) -> (r: i16)
    requires
        position@.board_contents_wf(),
        forall|n: int|
            0 <= n <= 64 ==> i16::MIN <= #[trigger] naive_eval_upto(position@, n) <= i16::MAX,
    ensures
        r == naive_eval_upto(position@, 64),
{
    let mut sum: i16 = 0;
    let mut i: i8 = 0;
    while i < 64
        invariant
            position@.board_contents_wf(),
            forall|n: int|
                0 <= n <= 64 ==> i16::MIN <= #[trigger] naive_eval_upto(position@, n) <= i16::MAX,
            0 <= i <= 64,
            sum == naive_eval_upto(position@, i as int),
        decreases 64 - i,
    {
        match crate::encoding::get_contents(position.query_square(i)) {
            None => {},
            Some(piece) => {
                let value = get_piece_value(crate::encoding::get_piece_type(piece));
                proof {
                    assert(i16::MIN <= naive_eval_upto(position@, i as int + 1) <= i16::MAX);
                }
                if crate::encoding::get_color(piece) == position.get_color() {
                    sum = sum + value;
                } else {
                    sum = sum - value;
                }
            },
        }
        i = i + 1;
    }
    sum
}


/// The material value of the piece on `sq`, or zero for an empty
/// square.
pub open spec fn occupant_value(p: PositionModel, sq: int) -> int {
    if p.board[sq] < 0 {
        0
    } else {
        piece_value_spec(code_kind(p.board[sq] as int))
    }
}

/// The move-ordering score: twenty times the victim's value minus the
/// attacker's, with a small bonus for forward movement; en-passant and
/// castling carry fixed scores, and promotions weigh the chosen piece.
/// Higher scores mark moves worth trying later under the ascending
/// ordering the sort below applies.
pub open spec fn mvv_lva_score_spec(p: PositionModel, m: ChessMove) -> int {
    match m {
        ChessMove::NullMove => 0,
        ChessMove::StandardMove(sm) => {
            let forward = square_rank_index(sm.to_square as int) - square_rank_index(
                sm.from_square as int,
            );
            20 * occupant_value(p, sm.to_square as int) - occupant_value(p, sm.from_square as int)
                + (match p.moving_side {
                EnumColor::White => forward,
                EnumColor::Black => -forward,
            })
        },
        ChessMove::EnPassantMove(_em) => 1950,
        ChessMove::CastlingMove(_cm) => 4050,
        ChessMove::PromotionMove(pm) => 20 * occupant_value(p, pm.to_square as int) + 300 + 2
            * piece_value_spec(code_kind(pm.promotion_choice as int)),
    }
}

/// What scoring a move needs of it: its squares are on the board, a
/// promotion carries a valid piece, and no victim is a king (whose
/// score would leave the 16-bit range; no move of a real game captures
/// a king).
pub open spec fn scoreable(p: PositionModel, m: ChessMove) -> bool {
    &&& move_squares_ok(m)
    &&& (m matches ChessMove::StandardMove(sm) ==> (p.board[sm.to_square as int] >= 0
        ==> code_kind(p.board[sm.to_square as int] as int) != EnumPiecesUncolored::King))
    &&& (m matches ChessMove::PromotionMove(pm) ==> is_piece_code(pm.promotion_choice as int) && (
    p.board[pm.to_square as int] >= 0 ==> code_kind(p.board[pm.to_square as int] as int)
        != EnumPiecesUncolored::King))
}

impl Position {
    /// The move-ordering score of one move.
    pub fn mvv_lva_score(&self, move_to_make: ChessMove) -> (r: i16)
        requires
            self@.board_contents_wf(),
            scoreable(self@, move_to_make),
        ensures
            r == mvv_lva_score_spec(self@, move_to_make),
    {
        match move_to_make {
            ChessMove::NullMove => 0,
            ChessMove::StandardMove(sm) => {
                let victim: i16 = match crate::encoding::get_contents(
                    self.query_square(sm.to_square),
                ) {
                    None => 0,
                    Some(piece) => get_piece_value(crate::encoding::get_piece_type(piece)),
                };
                let attacker: i16 = match crate::encoding::get_contents(
                    self.query_square(sm.from_square),
                ) {
                    None => 0,
                    Some(piece) => get_piece_value(crate::encoding::get_piece_type(piece)),
                };
                let forward: i16 = (sm.to_square / 8 - sm.from_square / 8) as i16;
                let sign: i16 = match self.get_color() {
                    EnumColor::White => 1,
                    EnumColor::Black => -1,
                };
                20 * victim - attacker + forward * sign
            },
            ChessMove::EnPassantMove(_ep_move) => 1950,
            ChessMove::CastlingMove(_castling_move) => 4050,
            ChessMove::PromotionMove(pm) => {
                let victim: i16 = match crate::encoding::get_contents(
                    self.query_square(pm.to_square),
                ) {
                    None => 0,
                    Some(piece) => get_piece_value(crate::encoding::get_piece_type(piece)),
                };
                20 * victim + 300 + 2 * get_piece_value(
                    crate::encoding::get_piece_type(pm.promotion_choice),
                )
            },
        }
    }
}

/// `m` inserted into `s` after every element whose score is at most
/// its own: one step of a stable ascending insertion sort.
pub open spec fn insert_by_score(p: PositionModel, s: Seq<ChessMove>, m: ChessMove) -> Seq<
    ChessMove,
>
    decreases s.len(),
{
    if s.len() == 0 {
        seq![m]
    } else if mvv_lva_score_spec(p, s.last()) <= mvv_lva_score_spec(p, m) {
        s.push(m)
    } else {
        insert_by_score(p, s.drop_last(), m).push(s.last())
    }
}

/// `s` stably sorted by ascending score: the order a stable
/// comparison sort of the scores produces.
pub open spec fn sort_by_score(p: PositionModel, s: Seq<ChessMove>) -> Seq<ChessMove>
    decreases s.len(),
{
    if s.len() == 0 {
        Seq::empty()
    } else {
        insert_by_score(p, sort_by_score(p, s.drop_last()), s.last())
    }
}

/// `s` cut down to its first `n` elements.
pub open spec fn truncate_spec(s: Seq<ChessMove>, n: int) -> Seq<ChessMove> {
    if s.len() <= n {
        s
    } else {
        s.take(n)
    }
}

/// Every element of an insertion step is the inserted move or one of
/// the source's.
pub proof fn lemma_insert_by_score_elements(p: PositionModel, s: Seq<ChessMove>, m: ChessMove)
    ensures
        forall|j: int|
            0 <= j < insert_by_score(p, s, m).len() ==> (#[trigger] insert_by_score(p, s, m)[j]
                == m || exists|i: int| 0 <= i < s.len() && insert_by_score(p, s, m)[j] == s[i]),
        insert_by_score(p, s, m).len() == s.len() + 1,
    decreases s.len(),
{
    if s.len() > 0 && !(mvv_lva_score_spec(p, s.last()) <= mvv_lva_score_spec(p, m)) {
        lemma_insert_by_score_elements(p, s.drop_last(), m);
        let cur = insert_by_score(p, s, m);
        let prev = insert_by_score(p, s.drop_last(), m);
        assert forall|j: int| 0 <= j < cur.len() implies (#[trigger] cur[j] == m || exists|i: int|
            0 <= i < s.len() && cur[j] == s[i]) by {
            if j < prev.len() {
                assert(cur[j] == prev[j]);
                if prev[j] != m {
                    let i0 = choose|i: int| 0 <= i < s.drop_last().len() && prev[j]
                        == s.drop_last()[i];
                    assert(s.drop_last()[i0] == s[i0]);
                }
            } else {
                assert(cur[j] == s.last());
                assert(s.last() == s[s.len() - 1]);
            }
        }
    }
}

/// Every element of the sorted sequence is one of the source's, and
/// the lengths agree.
pub proof fn lemma_sort_by_score_elements(p: PositionModel, s: Seq<ChessMove>)
    ensures
        forall|j: int|
            0 <= j < sort_by_score(p, s).len() ==> exists|i: int|
                0 <= i < s.len() && #[trigger] sort_by_score(p, s)[j] == s[i],
        sort_by_score(p, s).len() == s.len(),
    decreases s.len(),
{
    if s.len() > 0 {
        lemma_sort_by_score_elements(p, s.drop_last());
        lemma_insert_by_score_elements(p, sort_by_score(p, s.drop_last()), s.last());
        let sorted = sort_by_score(p, s);
        let prev_sorted = sort_by_score(p, s.drop_last());
        assert forall|j: int| 0 <= j < sorted.len() implies exists|i: int|
            0 <= i < s.len() && #[trigger] sorted[j] == s[i] by {
            if sorted[j] == s.last() {
                assert(sorted[j] == s[s.len() - 1]);
            } else {
                let k = choose|k: int| 0 <= k < prev_sorted.len() && sorted[j] == prev_sorted[k];
                let i0 = choose|i: int| 0 <= i < s.drop_last().len() && prev_sorted[k]
                    == s.drop_last()[i];
                assert(s.drop_last()[i0] == s[i0]);
            }
        }
    }
}

impl Position {
    /// Insert one move into a score-sorted list, after every element
    /// scoring at most as much.
    fn insert_sorted(&self, sorted: &mut Vec<ChessMove>, m: ChessMove)
        requires
            self@.board_contents_wf(),
            scoreable(self@, m),
            forall|j: int| 0 <= j < old(sorted)@.len() ==> scoreable(self@, #[trigger] old(sorted)@[j]),
        ensures
            final(sorted)@ == insert_by_score(self@, old(sorted)@, m),
        decreases old(sorted)@.len(),
    {
        if sorted.len() == 0 {
            sorted.push(m);
            proof {
                assert(final(sorted)@ =~= insert_by_score(self@, old(sorted)@, m));
            }
            return;
        }
        let last = sorted[sorted.len() - 1];
        proof {
            assert(last == old(sorted)@.last());
        }
        if self.mvv_lva_score(last) <= self.mvv_lva_score(m) {
            sorted.push(m);
        } else {
            let popped = sorted.pop().unwrap();
            proof {
                assert(sorted@ =~= old(sorted)@.drop_last());
            }
            self.insert_sorted(sorted, m);
            sorted.push(popped);
        }
    }

    /// Order the pseudo-legal moves by ascending score, keep those that
    /// pass the legality test, and cut the list to at most twelve
    /// moves: the move ordering handed to the search layers.
    pub fn mvv_lva_sort(&self, moves_list: &mut Vec<ChessMove>)
        requires
            self@.board_contents_wf(),
            self@.move_count < i16::MAX,
            is_square_code(self@.w_king_square as int),
            is_square_code(self@.b_king_square as int),
            forall|j: int|
                0 <= j < old(moves_list)@.len() ==> scoreable(self@, #[trigger] old(moves_list)@[j])
                    && applicable(self@, old(moves_list)@[j]),
        ensures
            final(moves_list)@ == truncate_spec(
                legal_upto(
                    self@,
                    sort_by_score(self@, old(moves_list)@),
                    sort_by_score(self@, old(moves_list)@).len() as int,
                ),
                12,
            ),
    {
        let ghost unsorted = moves_list@;
        let mut sorted: Vec<ChessMove> = Vec::new();
        let mut i: usize = 0;
        while i < moves_list.len()
            invariant
                self@.board_contents_wf(),
                moves_list@ == unsorted,
                forall|j: int|
                    0 <= j < unsorted.len() ==> scoreable(self@, #[trigger] unsorted[j])
                        && applicable(self@, unsorted[j]),
                0 <= i <= unsorted.len(),
                sorted@ == sort_by_score(self@, unsorted.take(i as int)),
                forall|j: int| 0 <= j < sorted@.len() ==> scoreable(self@, #[trigger] sorted@[j]),
            decreases unsorted.len() - i,
        {
            proof {
                lemma_sort_by_score_elements(self@, unsorted.take(i as int));
                assert(unsorted.take(i as int + 1).drop_last() =~= unsorted.take(i as int));
                assert(unsorted.take(i as int + 1).last() == unsorted[i as int]);
            }
            self.insert_sorted(&mut sorted, moves_list[i]);
            proof {
                lemma_insert_by_score_elements(
                    self@,
                    sort_by_score(self@, unsorted.take(i as int)),
                    unsorted[i as int],
                );
            }
            i = i + 1;
        }
        proof {
            assert(unsorted.take(unsorted.len() as int) =~= unsorted);
            lemma_sort_by_score_elements(self@, unsorted);
        }

        let mut retained: Vec<ChessMove> = Vec::new();
        let mut k: usize = 0;
        while k < sorted.len()
            invariant
                self@.board_contents_wf(),
                self@.move_count < i16::MAX,
                is_square_code(self@.w_king_square as int),
                is_square_code(self@.b_king_square as int),
                sorted@ == sort_by_score(self@, unsorted),
                forall|j: int|
                    0 <= j < sorted@.len() ==> scoreable(self@, #[trigger] sorted@[j]) && applicable(
                        self@,
                        sorted@[j],
                    ),
                0 <= k <= sorted@.len(),
                retained@ == legal_upto(self@, sorted@, k as int),
            decreases sorted@.len() - k,
        {
            if self.check_remaining_legality(sorted[k]) {
                retained.push(sorted[k]);
            }
            k = k + 1;
        }
        retained.truncate(12);
        *moves_list = retained;
        proof {
            assert(final(moves_list)@ =~= truncate_spec(
                legal_upto(
                    self@,
                    sort_by_score(self@, unsorted),
                    sort_by_score(self@, unsorted).len() as int,
                ),
                12,
            ));
        }
    }
}


/// A piece-square table read from Black's side of the board; a White
/// piece looks its square up through the vertical flip. The values are
/// the engine's stand-in middlegame and endgame tables.
/// The middlegame table for the pawn, from Black's side.
pub open spec fn mg_pawn_table() -> Seq<i16> {
    seq![
        0i16, 0i16, 0i16, 0i16, 0i16, 0i16, 0i16, 0i16,
        90i16, 93i16, 90i16, 87i16, 87i16, 90i16, 93i16, 90i16,
        28i16, 70i16, 18i16, 5i16, 5i16, 18i16, 70i16, 28i16,
        -29i16, -31i16, -33i16, -40i16, -40i16, -33i16, -31i16, -29i16,
        -37i16, -30i16, -47i16, 2i16, 2i16, -47i16, -30i16, -37i16,
        -30i16, -47i16, -24i16, -20i16, -20i16, -24i16, -47i16, -30i16,
        -22i16, -20i16, -20i16, -53i16, -53i16, -20i16, -20i16, -22i16,
        0i16, 0i16, 0i16, 0i16, 0i16, 0i16, 0i16, 0i16,
    ]
}

/// The endgame table for the pawn, from Black's side.
pub open spec fn eg_pawn_table() -> Seq<i16> {
    seq![
        0i16, 0i16, 0i16, 0i16, 0i16, 0i16, 0i16, 0i16,
        95i16, 103i16, 98i16, 88i16, 88i16, 98i16, 103i16, 95i16,
        38i16, 78i16, 28i16, 8i16, 8i16, 28i16, 78i16, 38i16,
        -19i16, -25i16, -23i16, -30i16, -30i16, -23i16, -25i16, -19i16,
        -27i16, -47i16, -42i16, -37i16, -37i16, -42i16, -47i16, -27i16,
        -32i16, -37i16, -39i16, -40i16, -40i16, -39i16, -37i16, -32i16,
        -32i16, -32i16, -32i16, -42i16, -42i16, -32i16, -32i16, -32i16,
        0i16, 0i16, 0i16, 0i16, 0i16, 0i16, 0i16, 0i16,
    ]
}

/// The middlegame table for the knight, from Black's side.
pub open spec fn mg_knight_table() -> Seq<i16> {
    seq![
        -40i16, -32i16, -23i16, -23i16, -23i16, -23i16, -32i16, -40i16,
        -32i16, -6i16, 4i16, 9i16, 9i16, 4i16, -6i16, -32i16,
        -10i16, 8i16, 17i16, 23i16, 23i16, 17i16, 8i16, -10i16,
        -4i16, 13i16, 32i16, 34i16, 34i16, 32i16, 13i16, -4i16,
        -4i16, 14i16, 29i16, 32i16, 32i16, 29i16, 14i16, -4i16,
        -7i16, 9i16, 24i16, 30i16, 30i16, 24i16, 9i16, -7i16,
        -32i16, -6i16, 8i16, 12i16, 12i16, 8i16, -6i16, -32i16,
        -40i16, -13i16, -13i16, -13i16, -13i16, -13i16, -13i16, -40i16,
    ]
}

/// The endgame table for the knight, from Black's side.
pub open spec fn eg_knight_table() -> Seq<i16> {
    seq![
        -42i16, -34i16, -9i16, -6i16, -6i16, -9i16, -34i16, -42i16,
        -34i16, -8i16, 6i16, 11i16, 11i16, 6i16, -8i16, -34i16,
        -9i16, 6i16, 24i16, 28i16, 28i16, 24i16, 6i16, -9i16,
        -6i16, 11i16, 28i16, 36i16, 36i16, 28i16, 11i16, -6i16,
        -6i16, 11i16, 28i16, 36i16, 36i16, 28i16, 11i16, -6i16,
        -9i16, 6i16, 21i16, 28i16, 28i16, 21i16, 6i16, -9i16,
        -34i16, -8i16, 6i16, 10i16, 10i16, 6i16, -8i16, -34i16,
        -42i16, -34i16, -9i16, -6i16, -6i16, -9i16, -34i16, -42i16,
    ]
}

/// The middlegame table for the bishop, from Black's side.
pub open spec fn mg_bishop_table() -> Seq<i16> {
    seq![
        -30i16, -20i16, -12i16, -10i16, -10i16, -12i16, -20i16, -30i16,
        -20i16, 2i16, 10i16, 10i16, 10i16, 10i16, 2i16, -20i16,
        -12i16, 10i16, 10i16, 10i16, 10i16, 10i16, 10i16, -12i16,
        -10i16, 12i16, 19i16, 21i16, 21i16, 19i16, 12i16, -10i16,
        -10i16, 12i16, 20i16, 22i16, 22i16, 20i16, 12i16, -10i16,
        -12i16, 12i16, 18i16, 20i16, 20i16, 18i16, 12i16, -12i16,
        -15i16, 23i16, 15i16, 12i16, 12i16, 15i16, 23i16, -15i16,
        -30i16, -20i16, -10i16, -15i16, -15i16, -10i16, -20i16, -30i16,
    ]
}

/// The endgame table for the bishop, from Black's side.
pub open spec fn eg_bishop_table() -> Seq<i16> {
    seq![
        -2i16, 0i16, -1i16, -1i16, -1i16, -1i16, 0i16, -2i16,
        0i16, -1i16, 0i16, -1i16, -1i16, 0i16, -1i16, 0i16,
        -1i16, 0i16, 0i16, 1i16, 1i16, 0i16, 0i16, -1i16,
        -1i16, -1i16, 1i16, 6i16, 6i16, 1i16, -1i16, -1i16,
        -1i16, -1i16, 2i16, 6i16, 6i16, 2i16, -1i16, -1i16,
        -1i16, 0i16, 0i16, 2i16, 2i16, 0i16, 0i16, -1i16,
        0i16, -1i16, 0i16, -1i16, -1i16, 0i16, -1i16, 0i16,
        -2i16, 0i16, -1i16, -1i16, -1i16, -1i16, 0i16, -2i16,
    ]
}

/// The middlegame table for the rook, from Black's side.
pub open spec fn mg_rook_table() -> Seq<i16> {
    seq![
        -1i16, -1i16, -1i16, -1i16, -1i16, -1i16, -1i16, -1i16,
        11i16, 11i16, 11i16, 11i16, 11i16, 11i16, 11i16, 11i16,
        -2i16, -4i16, -4i16, -4i16, -4i16, -4i16, -4i16, -2i16,
        -4i16, -4i16, -4i16, -4i16, -4i16, -4i16, -4i16, -4i16,
        -4i16, -4i16, -4i16, -4i16, -4i16, -4i16, -4i16, -4i16,
        -3i16, -4i16, -4i16, -4i16, -4i16, -4i16, -4i16, -3i16,
        -1i16, -2i16, -3i16, -3i16, -3i16, -3i16, -2i16, -1i16,
        3i16, -1i16, 11i16, 17i16, 17i16, 11i16, -1i16, 3i16,
    ]
}

/// The endgame table for the rook, from Black's side.
pub open spec fn eg_rook_table() -> Seq<i16> {
    seq![
        4i16, 7i16, 17i16, -3i16, -3i16, 17i16, 7i16, 4i16,
        9i16, -3i16, -3i16, -3i16, -3i16, -3i16, -3i16, 9i16,
        14i16, -3i16, -3i16, -3i16, -3i16, -3i16, -3i16, 14i16,
        -3i16, -3i16, -2i16, -3i16, -3i16, -2i16, -3i16, -3i16,
        -1i16, -3i16, -3i16, -3i16, -3i16, -3i16, -3i16, -1i16,
        5i16, -2i16, -3i16, -3i16, -3i16, -3i16, -2i16, 5i16,
        1i16, -1i16, -2i16, -2i16, -2i16, -2i16, -1i16, 1i16,
        -2i16, -1i16, 2i16, -1i16, -1i16, 2i16, -1i16, -2i16,
    ]
}

/// The middlegame table for the queen, from Black's side.
pub open spec fn mg_queen_table() -> Seq<i16> {
    seq![
        -20i16, -11i16, -8i16, -8i16, -8i16, -8i16, -11i16, -20i16,
        -10i16, 2i16, 3i16, 2i16, 2i16, 3i16, 2i16, -10i16,
        -5i16, 4i16, -2i16, -2i16, -2i16, -2i16, 4i16, -5i16,
        -4i16, 5i16, -1i16, 2i16, 2i16, -1i16, 5i16, -4i16,
        -2i16, 6i16, 1i16, 4i16, 4i16, 1i16, 6i16, -2i16,
        -1i16, 7i16, 3i16, 3i16, 3i16, 3i16, 7i16, -1i16,
        -1i16, 10i16, 13i16, 12i16, 12i16, 13i16, 10i16, -1i16,
        -10i16, -1i16, 4i16, 5i16, 5i16, 4i16, -1i16, -10i16,
    ]
}

/// The endgame table for the queen, from Black's side.
pub open spec fn eg_queen_table() -> Seq<i16> {
    seq![
        -5i16, -2i16, -1i16, -1i16, -1i16, -1i16, -2i16, -5i16,
        -2i16, 2i16, 3i16, 2i16, 2i16, 3i16, 2i16, -2i16,
        -1i16, 3i16, 0i16, 0i16, 0i16, 0i16, 3i16, -1i16,
        -1i16, 2i16, 0i16, 1i16, 1i16, 0i16, 2i16, -1i16,
        -1i16, 2i16, 0i16, 1i16, 1i16, 0i16, 2i16, -1i16,
        -1i16, 3i16, 0i16, 0i16, 0i16, 0i16, 3i16, -1i16,
        -2i16, 2i16, 3i16, 2i16, 2i16, 3i16, 2i16, -2i16,
        -5i16, -2i16, -1i16, -1i16, -1i16, -1i16, -2i16, -5i16,
    ]
}

/// The middlegame table for the king, from Black's side.
pub open spec fn mg_king_table() -> Seq<i16> {
    seq![
        -34i16, -24i16, -12i16, -9i16, -9i16, -12i16, -24i16, -34i16,
        -24i16, -13i16, -13i16, -13i16, -13i16, -13i16, -13i16, -24i16,
        -13i16, -13i16, -13i16, -13i16, -13i16, -13i16, -13i16, -13i16,
        -13i16, -13i16, -13i16, -13i16, -13i16, -13i16, -13i16, -13i16,
        -13i16, -13i16, -13i16, -13i16, -13i16, -13i16, -13i16, -13i16,
        -4i16, -5i16, -13i16, -13i16, -13i16, -13i16, -5i16, -4i16,
        21i16, 16i16, -6i16, -6i16, -6i16, -6i16, 16i16, 21i16,
        46i16, 79i16, 37i16, 18i16, 18i16, 37i16, 79i16, 46i16,
    ]
}

/// The endgame table for the king, from Black's side.
pub open spec fn eg_king_table() -> Seq<i16> {
    seq![
        -63i16, -30i16, -18i16, -15i16, -15i16, -18i16, -30i16, -63i16,
        -30i16, 6i16, 22i16, 20i16, 20i16, 22i16, 6i16, -30i16,
        -18i16, 22i16, 29i16, 30i16, 30i16, 29i16, 22i16, -18i16,
        -15i16, 20i16, 30i16, 31i16, 31i16, 30i16, 20i16, -15i16,
        -15i16, 19i16, 28i16, 31i16, 31i16, 28i16, 19i16, -15i16,
        -18i16, 13i16, 24i16, 27i16, 27i16, 24i16, 13i16, -18i16,
        -30i16, 0i16, 11i16, 15i16, 15i16, 11i16, 0i16, -30i16,
        -63i16, -30i16, -18i16, -15i16, -15i16, -18i16, -30i16, -63i16,
    ]
}

/// The middlegame table of a piece kind.
pub open spec fn mg_table_of(kind: EnumPiecesUncolored) -> Seq<i16> {
    match kind {
        EnumPiecesUncolored::Pawn => mg_pawn_table(),
        EnumPiecesUncolored::Knight => mg_knight_table(),
        EnumPiecesUncolored::Bishop => mg_bishop_table(),
        EnumPiecesUncolored::Rook => mg_rook_table(),
        EnumPiecesUncolored::Queen => mg_queen_table(),
        EnumPiecesUncolored::King => mg_king_table(),
    }
}

/// The endgame table of a piece kind.
pub open spec fn eg_table_of(kind: EnumPiecesUncolored) -> Seq<i16> {
    match kind {
        EnumPiecesUncolored::Pawn => eg_pawn_table(),
        EnumPiecesUncolored::Knight => eg_knight_table(),
        EnumPiecesUncolored::Bishop => eg_bishop_table(),
        EnumPiecesUncolored::Rook => eg_rook_table(),
        EnumPiecesUncolored::Queen => eg_queen_table(),
        EnumPiecesUncolored::King => eg_king_table(),
    }
}

/// The base middlegame value of a piece kind.
pub open spec fn default_mg_value(kind: EnumPiecesUncolored) -> int {
    match kind {
        EnumPiecesUncolored::Pawn => 100,
        EnumPiecesUncolored::Knight => 303,
        EnumPiecesUncolored::Bishop => 305,
        EnumPiecesUncolored::Rook => 500,
        EnumPiecesUncolored::Queen => 900,
        EnumPiecesUncolored::King => 0,
    }
}

/// The base endgame value of a piece kind.
pub open spec fn default_eg_value(kind: EnumPiecesUncolored) -> int {
    match kind {
        EnumPiecesUncolored::Pawn => 105,
        EnumPiecesUncolored::Knight => 295,
        EnumPiecesUncolored::Bishop => 310,
        EnumPiecesUncolored::Rook => 520,
        EnumPiecesUncolored::Queen => 940,
        EnumPiecesUncolored::King => 0,
    }
}

/// How much a piece kind counts toward the game phase.
pub open spec fn phase_adder(kind: EnumPiecesUncolored) -> int {
    match kind {
        EnumPiecesUncolored::Pawn => 1,
        EnumPiecesUncolored::Knight => 3,
        EnumPiecesUncolored::Bishop => 3,
        EnumPiecesUncolored::Rook => 5,
        EnumPiecesUncolored::Queen => 9,
        EnumPiecesUncolored::King => 0,
    }
}

/// The square a piece reads its table at: White flips vertically,
/// Black reads in place.
pub open spec fn table_square(color: EnumColor, sq: int) -> int {
    match color {
        EnumColor::White => crate::fen::flip_square(sq),
        EnumColor::Black => sq,
    }
}

/// The middlegame tapering term of the piece on square `i`, counted
/// for the side to move.
pub open spec fn hce_mg_term(p: PositionModel, i: int) -> int {
    let c = p.board[i] as int;
    if c < 0 {
        0
    } else {
        let kind = code_kind(c);
        let table_value = mg_table_of(kind)[table_square(code_color(c), i)] as int;
        if code_color(c) == p.moving_side {
            table_value + default_mg_value(kind)
        } else {
            -(table_value + default_mg_value(kind))
        }
    }
}

/// The endgame tapering term of the piece on square `i`.
pub open spec fn hce_eg_term(p: PositionModel, i: int) -> int {
    let c = p.board[i] as int;
    if c < 0 {
        0
    } else {
        let kind = code_kind(c);
        let table_value = eg_table_of(kind)[table_square(code_color(c), i)] as int;
        if code_color(c) == p.moving_side {
            table_value + default_eg_value(kind)
        } else {
            -(table_value + default_eg_value(kind))
        }
    }
}

/// The phase contribution of the piece on square `i`.
pub open spec fn hce_phase_term(p: PositionModel, i: int) -> int {
    let c = p.board[i] as int;
    if c < 0 {
        0
    } else {
        phase_adder(code_kind(c))
    }
}

/// The middlegame sum over the first `n` squares.
pub open spec fn hce_mg_upto(p: PositionModel, n: int) -> int
    decreases n,
{
    if n <= 0 {
        0
    } else {
        hce_mg_upto(p, n - 1) + hce_mg_term(p, n - 1)
    }
}

/// The endgame sum over the first `n` squares.
pub open spec fn hce_eg_upto(p: PositionModel, n: int) -> int
    decreases n,
{
    if n <= 0 {
        0
    } else {
        hce_eg_upto(p, n - 1) + hce_eg_term(p, n - 1)
    }
}

/// The game phase over the first `n` squares.
pub open spec fn hce_phase_upto(p: PositionModel, n: int) -> int
    decreases n,
{
    if n <= 0 {
        0
    } else {
        hce_phase_upto(p, n - 1) + hce_phase_term(p, n - 1)
    }
}

/// Division truncating toward zero, as the machine divides.
pub open spec fn trunc_div(a: int, b: int) -> int {
    if a >= 0 {
        a / b
    } else {
        -((-a) / b)
    }
}

/// The tapered evaluation: the middlegame and endgame sums blended by
/// the game phase, capped at twenty-eight.
pub open spec fn hce_spec(p: PositionModel) -> int {
    let mg_multiplier = if hce_phase_upto(p, 64) < 28 {
        hce_phase_upto(p, 64)
    } else {
        28int
    };
    let eg_multiplier = 28 - mg_multiplier;
    trunc_div(hce_mg_upto(p, 64) * mg_multiplier + hce_eg_upto(p, 64) * eg_multiplier, 28)
}

/// The middlegame table for the pawn, as a vector.
fn mg_pawn_values() -> (v: Vec<i16>)
    ensures
        v@ == mg_pawn_table(),
        v@.len() == 64,
{
    let v: Vec<i16> = vec![

        0i16, 0i16, 0i16, 0i16, 0i16, 0i16, 0i16, 0i16,
        90i16, 93i16, 90i16, 87i16, 87i16, 90i16, 93i16, 90i16,
        28i16, 70i16, 18i16, 5i16, 5i16, 18i16, 70i16, 28i16,
        -29i16, -31i16, -33i16, -40i16, -40i16, -33i16, -31i16, -29i16,
        -37i16, -30i16, -47i16, 2i16, 2i16, -47i16, -30i16, -37i16,
        -30i16, -47i16, -24i16, -20i16, -20i16, -24i16, -47i16, -30i16,
        -22i16, -20i16, -20i16, -53i16, -53i16, -20i16, -20i16, -22i16,
        0i16, 0i16, 0i16, 0i16, 0i16, 0i16, 0i16, 0i16,
        ];
    proof {
        assert(v@ =~= mg_pawn_table());
    }
    v
}

/// The endgame table for the pawn, as a vector.
fn eg_pawn_values() -> (v: Vec<i16>)
    ensures
        v@ == eg_pawn_table(),
        v@.len() == 64,
{
    let v: Vec<i16> = vec![

        0i16, 0i16, 0i16, 0i16, 0i16, 0i16, 0i16, 0i16,
        95i16, 103i16, 98i16, 88i16, 88i16, 98i16, 103i16, 95i16,
        38i16, 78i16, 28i16, 8i16, 8i16, 28i16, 78i16, 38i16,
        -19i16, -25i16, -23i16, -30i16, -30i16, -23i16, -25i16, -19i16,
        -27i16, -47i16, -42i16, -37i16, -37i16, -42i16, -47i16, -27i16,
        -32i16, -37i16, -39i16, -40i16, -40i16, -39i16, -37i16, -32i16,
        -32i16, -32i16, -32i16, -42i16, -42i16, -32i16, -32i16, -32i16,
        0i16, 0i16, 0i16, 0i16, 0i16, 0i16, 0i16, 0i16,
        ];
    proof {
        assert(v@ =~= eg_pawn_table());
    }
    v
}

/// The middlegame table for the knight, as a vector.
fn mg_knight_values() -> (v: Vec<i16>)
    ensures
        v@ == mg_knight_table(),
        v@.len() == 64,
{
    let v: Vec<i16> = vec![

        -40i16, -32i16, -23i16, -23i16, -23i16, -23i16, -32i16, -40i16,
        -32i16, -6i16, 4i16, 9i16, 9i16, 4i16, -6i16, -32i16,
        -10i16, 8i16, 17i16, 23i16, 23i16, 17i16, 8i16, -10i16,
        -4i16, 13i16, 32i16, 34i16, 34i16, 32i16, 13i16, -4i16,
        -4i16, 14i16, 29i16, 32i16, 32i16, 29i16, 14i16, -4i16,
        -7i16, 9i16, 24i16, 30i16, 30i16, 24i16, 9i16, -7i16,
        -32i16, -6i16, 8i16, 12i16, 12i16, 8i16, -6i16, -32i16,
        -40i16, -13i16, -13i16, -13i16, -13i16, -13i16, -13i16, -40i16,
        ];
    proof {
        assert(v@ =~= mg_knight_table());
    }
    v
}

/// The endgame table for the knight, as a vector.
fn eg_knight_values() -> (v: Vec<i16>)
    ensures
        v@ == eg_knight_table(),
        v@.len() == 64,
{
    let v: Vec<i16> = vec![

        -42i16, -34i16, -9i16, -6i16, -6i16, -9i16, -34i16, -42i16,
        -34i16, -8i16, 6i16, 11i16, 11i16, 6i16, -8i16, -34i16,
        -9i16, 6i16, 24i16, 28i16, 28i16, 24i16, 6i16, -9i16,
        -6i16, 11i16, 28i16, 36i16, 36i16, 28i16, 11i16, -6i16,
        -6i16, 11i16, 28i16, 36i16, 36i16, 28i16, 11i16, -6i16,
        -9i16, 6i16, 21i16, 28i16, 28i16, 21i16, 6i16, -9i16,
        -34i16, -8i16, 6i16, 10i16, 10i16, 6i16, -8i16, -34i16,
        -42i16, -34i16, -9i16, -6i16, -6i16, -9i16, -34i16, -42i16,
        ];
    proof {
        assert(v@ =~= eg_knight_table());
    }
    v
}

/// The middlegame table for the bishop, as a vector.
fn mg_bishop_values() -> (v: Vec<i16>)
    ensures
        v@ == mg_bishop_table(),
        v@.len() == 64,
{
    let v: Vec<i16> = vec![

        -30i16, -20i16, -12i16, -10i16, -10i16, -12i16, -20i16, -30i16,
        -20i16, 2i16, 10i16, 10i16, 10i16, 10i16, 2i16, -20i16,
        -12i16, 10i16, 10i16, 10i16, 10i16, 10i16, 10i16, -12i16,
        -10i16, 12i16, 19i16, 21i16, 21i16, 19i16, 12i16, -10i16,
        -10i16, 12i16, 20i16, 22i16, 22i16, 20i16, 12i16, -10i16,
        -12i16, 12i16, 18i16, 20i16, 20i16, 18i16, 12i16, -12i16,
        -15i16, 23i16, 15i16, 12i16, 12i16, 15i16, 23i16, -15i16,
        -30i16, -20i16, -10i16, -15i16, -15i16, -10i16, -20i16, -30i16,
        ];
    proof {
        assert(v@ =~= mg_bishop_table());
    }
    v
}

/// The endgame table for the bishop, as a vector.
fn eg_bishop_values() -> (v: Vec<i16>)
    ensures
        v@ == eg_bishop_table(),
        v@.len() == 64,
{
    let v: Vec<i16> = vec![

        -2i16, 0i16, -1i16, -1i16, -1i16, -1i16, 0i16, -2i16,
        0i16, -1i16, 0i16, -1i16, -1i16, 0i16, -1i16, 0i16,
        -1i16, 0i16, 0i16, 1i16, 1i16, 0i16, 0i16, -1i16,
        -1i16, -1i16, 1i16, 6i16, 6i16, 1i16, -1i16, -1i16,
        -1i16, -1i16, 2i16, 6i16, 6i16, 2i16, -1i16, -1i16,
        -1i16, 0i16, 0i16, 2i16, 2i16, 0i16, 0i16, -1i16,
        0i16, -1i16, 0i16, -1i16, -1i16, 0i16, -1i16, 0i16,
        -2i16, 0i16, -1i16, -1i16, -1i16, -1i16, 0i16, -2i16,
        ];
    proof {
        assert(v@ =~= eg_bishop_table());
    }
    v
}

/// The middlegame table for the rook, as a vector.
fn mg_rook_values() -> (v: Vec<i16>)
    ensures
        v@ == mg_rook_table(),
        v@.len() == 64,
{
    let v: Vec<i16> = vec![

        -1i16, -1i16, -1i16, -1i16, -1i16, -1i16, -1i16, -1i16,
        11i16, 11i16, 11i16, 11i16, 11i16, 11i16, 11i16, 11i16,
        -2i16, -4i16, -4i16, -4i16, -4i16, -4i16, -4i16, -2i16,
        -4i16, -4i16, -4i16, -4i16, -4i16, -4i16, -4i16, -4i16,
        -4i16, -4i16, -4i16, -4i16, -4i16, -4i16, -4i16, -4i16,
        -3i16, -4i16, -4i16, -4i16, -4i16, -4i16, -4i16, -3i16,
        -1i16, -2i16, -3i16, -3i16, -3i16, -3i16, -2i16, -1i16,
        3i16, -1i16, 11i16, 17i16, 17i16, 11i16, -1i16, 3i16,
        ];
    proof {
        assert(v@ =~= mg_rook_table());
    }
    v
}

/// The endgame table for the rook, as a vector.
fn eg_rook_values() -> (v: Vec<i16>)
    ensures
        v@ == eg_rook_table(),
        v@.len() == 64,
{
    let v: Vec<i16> = vec![

        4i16, 7i16, 17i16, -3i16, -3i16, 17i16, 7i16, 4i16,
        9i16, -3i16, -3i16, -3i16, -3i16, -3i16, -3i16, 9i16,
        14i16, -3i16, -3i16, -3i16, -3i16, -3i16, -3i16, 14i16,
        -3i16, -3i16, -2i16, -3i16, -3i16, -2i16, -3i16, -3i16,
        -1i16, -3i16, -3i16, -3i16, -3i16, -3i16, -3i16, -1i16,
        5i16, -2i16, -3i16, -3i16, -3i16, -3i16, -2i16, 5i16,
        1i16, -1i16, -2i16, -2i16, -2i16, -2i16, -1i16, 1i16,
        -2i16, -1i16, 2i16, -1i16, -1i16, 2i16, -1i16, -2i16,
        ];
    proof {
        assert(v@ =~= eg_rook_table());
    }
    v
}

/// The middlegame table for the queen, as a vector.
fn mg_queen_values() -> (v: Vec<i16>)
    ensures
        v@ == mg_queen_table(),
        v@.len() == 64,
{
    let v: Vec<i16> = vec![

        -20i16, -11i16, -8i16, -8i16, -8i16, -8i16, -11i16, -20i16,
        -10i16, 2i16, 3i16, 2i16, 2i16, 3i16, 2i16, -10i16,
        -5i16, 4i16, -2i16, -2i16, -2i16, -2i16, 4i16, -5i16,
        -4i16, 5i16, -1i16, 2i16, 2i16, -1i16, 5i16, -4i16,
        -2i16, 6i16, 1i16, 4i16, 4i16, 1i16, 6i16, -2i16,
        -1i16, 7i16, 3i16, 3i16, 3i16, 3i16, 7i16, -1i16,
        -1i16, 10i16, 13i16, 12i16, 12i16, 13i16, 10i16, -1i16,
        -10i16, -1i16, 4i16, 5i16, 5i16, 4i16, -1i16, -10i16,
        ];
    proof {
        assert(v@ =~= mg_queen_table());
    }
    v
}

/// The endgame table for the queen, as a vector.
fn eg_queen_values() -> (v: Vec<i16>)
    ensures
        v@ == eg_queen_table(),
        v@.len() == 64,
{
    let v: Vec<i16> = vec![

        -5i16, -2i16, -1i16, -1i16, -1i16, -1i16, -2i16, -5i16,
        -2i16, 2i16, 3i16, 2i16, 2i16, 3i16, 2i16, -2i16,
        -1i16, 3i16, 0i16, 0i16, 0i16, 0i16, 3i16, -1i16,
        -1i16, 2i16, 0i16, 1i16, 1i16, 0i16, 2i16, -1i16,
        -1i16, 2i16, 0i16, 1i16, 1i16, 0i16, 2i16, -1i16,
        -1i16, 3i16, 0i16, 0i16, 0i16, 0i16, 3i16, -1i16,
        -2i16, 2i16, 3i16, 2i16, 2i16, 3i16, 2i16, -2i16,
        -5i16, -2i16, -1i16, -1i16, -1i16, -1i16, -2i16, -5i16,
        ];
    proof {
        assert(v@ =~= eg_queen_table());
    }
    v
}

/// The middlegame table for the king, as a vector.
fn mg_king_values() -> (v: Vec<i16>)
    ensures
        v@ == mg_king_table(),
        v@.len() == 64,
{
    let v: Vec<i16> = vec![

        -34i16, -24i16, -12i16, -9i16, -9i16, -12i16, -24i16, -34i16,
        -24i16, -13i16, -13i16, -13i16, -13i16, -13i16, -13i16, -24i16,
        -13i16, -13i16, -13i16, -13i16, -13i16, -13i16, -13i16, -13i16,
        -13i16, -13i16, -13i16, -13i16, -13i16, -13i16, -13i16, -13i16,
        -13i16, -13i16, -13i16, -13i16, -13i16, -13i16, -13i16, -13i16,
        -4i16, -5i16, -13i16, -13i16, -13i16, -13i16, -5i16, -4i16,
        21i16, 16i16, -6i16, -6i16, -6i16, -6i16, 16i16, 21i16,
        46i16, 79i16, 37i16, 18i16, 18i16, 37i16, 79i16, 46i16,
        ];
    proof {
        assert(v@ =~= mg_king_table());
    }
    v
}

/// The endgame table for the king, as a vector.
fn eg_king_values() -> (v: Vec<i16>)
    ensures
        v@ == eg_king_table(),
        v@.len() == 64,
{
    let v: Vec<i16> = vec![

        -63i16, -30i16, -18i16, -15i16, -15i16, -18i16, -30i16, -63i16,
        -30i16, 6i16, 22i16, 20i16, 20i16, 22i16, 6i16, -30i16,
        -18i16, 22i16, 29i16, 30i16, 30i16, 29i16, 22i16, -18i16,
        -15i16, 20i16, 30i16, 31i16, 31i16, 30i16, 20i16, -15i16,
        -15i16, 19i16, 28i16, 31i16, 31i16, 28i16, 19i16, -15i16,
        -18i16, 13i16, 24i16, 27i16, 27i16, 24i16, 13i16, -18i16,
        -30i16, 0i16, 11i16, 15i16, 15i16, 11i16, 0i16, -30i16,
        -63i16, -30i16, -18i16, -15i16, -15i16, -18i16, -30i16, -63i16,
        ];
    proof {
        assert(v@ =~= eg_king_table());
    }
    v
}

/// The tapered hand-crafted evaluation from the side to move's point
/// of view: every piece contributes its base value and its
/// piece-square bonus to a middlegame and an endgame total, and the
/// two are blended by how much material marks the game phase.
pub fn hce_stm(position: &Position) -> (r: i32)
    requires
        position@.board_contents_wf(),
    ensures
        r == hce_spec(position@),
{
    let mg_pawn = mg_pawn_values();
    let eg_pawn = eg_pawn_values();
    let mg_knight = mg_knight_values();
    let eg_knight = eg_knight_values();
    let mg_bishop = mg_bishop_values();
    let eg_bishop = eg_bishop_values();
    let mg_rook = mg_rook_values();
    let eg_rook = eg_rook_values();
    let mg_queen = mg_queen_values();
    let eg_queen = eg_queen_values();
    let mg_king = mg_king_values();
    let eg_king = eg_king_values();

    let mut mg_value: i64 = 0;
    let mut eg_value: i64 = 0;
    let mut game_phase: i64 = 0;
    let mut i: i8 = 0;
    while i < 64
        invariant
            position@.board_contents_wf(),
            mg_pawn@ == mg_pawn_table() && mg_pawn@.len() == 64,
            eg_pawn@ == eg_pawn_table() && eg_pawn@.len() == 64,
            mg_knight@ == mg_knight_table() && mg_knight@.len() == 64,
            eg_knight@ == eg_knight_table() && eg_knight@.len() == 64,
            mg_bishop@ == mg_bishop_table() && mg_bishop@.len() == 64,
            eg_bishop@ == eg_bishop_table() && eg_bishop@.len() == 64,
            mg_rook@ == mg_rook_table() && mg_rook@.len() == 64,
            eg_rook@ == eg_rook_table() && eg_rook@.len() == 64,
            mg_queen@ == mg_queen_table() && mg_queen@.len() == 64,
            eg_queen@ == eg_queen_table() && eg_queen@.len() == 64,
            mg_king@ == mg_king_table() && mg_king@.len() == 64,
            eg_king@ == eg_king_table() && eg_king@.len() == 64,
            0 <= i <= 64,
            mg_value == hce_mg_upto(position@, i as int),
            eg_value == hce_eg_upto(position@, i as int),
            game_phase == hce_phase_upto(position@, i as int),
            -33708 * i <= mg_value <= 33708 * i,
            -33708 * i <= eg_value <= 33708 * i,
            0 <= game_phase <= 9 * i,
        decreases 64 - i,
    {
        match crate::encoding::get_contents(position.query_square(i)) {
            None => {},
            Some(piece) => {
                let kind = crate::encoding::get_piece_type(piece);
                let color = crate::encoding::get_color(piece);
                let table_index: usize = match color {
                    EnumColor::White => crate::encoding::vertical_flip_index(i) as usize,
                    EnumColor::Black => i as usize,
                };
                let mg_table_value: i16 = match kind {
                    EnumPiecesUncolored::Pawn => mg_pawn[table_index],
                    EnumPiecesUncolored::Knight => mg_knight[table_index],
                    EnumPiecesUncolored::Bishop => mg_bishop[table_index],
                    EnumPiecesUncolored::Rook => mg_rook[table_index],
                    EnumPiecesUncolored::Queen => mg_queen[table_index],
                    EnumPiecesUncolored::King => mg_king[table_index],
                };
                let eg_table_value: i16 = match kind {
                    EnumPiecesUncolored::Pawn => eg_pawn[table_index],
                    EnumPiecesUncolored::Knight => eg_knight[table_index],
                    EnumPiecesUncolored::Bishop => eg_bishop[table_index],
                    EnumPiecesUncolored::Rook => eg_rook[table_index],
                    EnumPiecesUncolored::Queen => eg_queen[table_index],
                    EnumPiecesUncolored::King => eg_king[table_index],
                };
                let mg_default: i64 = match kind {
                    EnumPiecesUncolored::Pawn => 100,
                    EnumPiecesUncolored::Knight => 303,
                    EnumPiecesUncolored::Bishop => 305,
                    EnumPiecesUncolored::Rook => 500,
                    EnumPiecesUncolored::Queen => 900,
                    EnumPiecesUncolored::King => 0,
                };
                let eg_default: i64 = match kind {
                    EnumPiecesUncolored::Pawn => 105,
                    EnumPiecesUncolored::Knight => 295,
                    EnumPiecesUncolored::Bishop => 310,
                    EnumPiecesUncolored::Rook => 520,
                    EnumPiecesUncolored::Queen => 940,
                    EnumPiecesUncolored::King => 0,
                };
                let phase: i64 = match kind {
                    EnumPiecesUncolored::Pawn => 1,
                    EnumPiecesUncolored::Knight => 3,
                    EnumPiecesUncolored::Bishop => 3,
                    EnumPiecesUncolored::Rook => 5,
                    EnumPiecesUncolored::Queen => 9,
                    EnumPiecesUncolored::King => 0,
                };
                if color == position.get_color() {
                    mg_value = mg_value + (mg_table_value as i64 + mg_default);
                    eg_value = eg_value + (eg_table_value as i64 + eg_default);
                } else {
                    mg_value = mg_value - (mg_table_value as i64 + mg_default);
                    eg_value = eg_value - (eg_table_value as i64 + eg_default);
                }
                game_phase = game_phase + phase;
            },
        }
        i = i + 1;
    }
    let mg_multiplier: i64 = if game_phase < 28 {
        game_phase
    } else {
        28
    };
    let eg_multiplier: i64 = 28 - mg_multiplier;
    proof {
        assert(-2157312 <= mg_value <= 2157312 && 0 <= mg_multiplier <= 28);
        assert(-2157312 <= eg_value <= 2157312 && 0 <= eg_multiplier <= 28);
        assert(-60404736 <= mg_value * mg_multiplier <= 60404736) by (nonlinear_arith)
            requires
                -2157312 <= mg_value <= 2157312,
                0 <= mg_multiplier <= 28,
        ;
        assert(-60404736 <= eg_value * eg_multiplier <= 60404736) by (nonlinear_arith)
            requires
                -2157312 <= eg_value <= 2157312,
                0 <= eg_multiplier <= 28,
        ;
    }
    let total: i64 = mg_value * mg_multiplier + eg_value * eg_multiplier;
    let quotient: i64 = if total >= 0 {
        total / 28
    } else {
        -((-total) / 28)
    };
    quotient as i32
}


/// The middlegame sum grows by at most one piece's worth per square.
pub proof fn lemma_hce_mg_bounds(p: PositionModel, n: int)
    requires
        0 <= n <= 64,
    ensures
        -33708 * n <= hce_mg_upto(p, n) <= 33708 * n,
    decreases n,
{
    if n > 0 {
        lemma_hce_mg_bounds(p, n - 1);
        assert(-33708 <= hce_mg_term(p, n - 1) <= 33708) by {
            let c = p.board[n - 1] as int;
            if c >= 0 {
                let kind = code_kind(c);
                assert(0 <= table_square(code_color(c), n - 1) < 64) by {
                    vstd::arithmetic::div_mod::lemma_fundamental_div_mod(n - 1, 8);
                    vstd::arithmetic::div_mod::lemma_mod_bound(n - 1, 8);
                };
                assert(mg_table_of(kind).len() == 64);
                let table_value = mg_table_of(kind)[table_square(code_color(c), n - 1)] as int;
                assert(-32768 <= table_value <= 32767);
                assert(0 <= default_mg_value(kind) <= 940);
                if code_color(c) == p.moving_side {
                    assert(hce_mg_term(p, n - 1) == table_value + default_mg_value(kind));
                } else {
                    assert(hce_mg_term(p, n - 1) == -(table_value + default_mg_value(kind)));
                }
            }
        };
    }
}

/// The endgame sum grows by at most one piece's worth per square.
pub proof fn lemma_hce_eg_bounds(p: PositionModel, n: int)
    requires
        0 <= n <= 64,
    ensures
        -33708 * n <= hce_eg_upto(p, n) <= 33708 * n,
    decreases n,
{
    if n > 0 {
        lemma_hce_eg_bounds(p, n - 1);
        assert(-33708 <= hce_eg_term(p, n - 1) <= 33708) by {
            let c = p.board[n - 1] as int;
            if c >= 0 {
                let kind = code_kind(c);
                assert(0 <= table_square(code_color(c), n - 1) < 64) by {
                    vstd::arithmetic::div_mod::lemma_fundamental_div_mod(n - 1, 8);
                    vstd::arithmetic::div_mod::lemma_mod_bound(n - 1, 8);
                };
                assert(eg_table_of(kind).len() == 64);
                let table_value = eg_table_of(kind)[table_square(code_color(c), n - 1)] as int;
                assert(-32768 <= table_value <= 32767);
                assert(0 <= default_eg_value(kind) <= 940);
                if code_color(c) == p.moving_side {
                    assert(hce_eg_term(p, n - 1) == table_value + default_eg_value(kind));
                } else {
                    assert(hce_eg_term(p, n - 1) == -(table_value + default_eg_value(kind)));
                }
            }
        };
    }
}

/// The phase stays within nine per square.
pub proof fn lemma_hce_phase_bounds(p: PositionModel, n: int)
    requires
        0 <= n <= 64,
    ensures
        0 <= hce_phase_upto(p, n) <= 9 * n,
    decreases n,
{
    if n > 0 {
        lemma_hce_phase_bounds(p, n - 1);
    }
}

/// The tapered evaluation is always representable, one above the least
/// score.
pub proof fn lemma_hce_bounds(p: PositionModel)
    ensures
        i32::MIN + 1 <= hce_spec(p) <= i32::MAX,
{
    lemma_hce_mg_bounds(p, 64);
    lemma_hce_eg_bounds(p, 64);
    lemma_hce_phase_bounds(p, 64);
    let mg = hce_mg_upto(p, 64);
    let eg = hce_eg_upto(p, 64);
    let mgm = if hce_phase_upto(p, 64) < 28 {
        hce_phase_upto(p, 64)
    } else {
        28int
    };
    let egm = 28 - mgm;
    assert(-60404736 <= mg * mgm <= 60404736) by (nonlinear_arith)
        requires
            -2157312 <= mg <= 2157312,
            0 <= mgm <= 28,
    ;
    assert(-60404736 <= eg * egm <= 60404736) by (nonlinear_arith)
        requires
            -2157312 <= eg <= 2157312,
            0 <= egm <= 28,
    ;
    let total = mg * mgm + eg * egm;
    if total >= 0 {
        assert(0 <= total / 28 <= total) by (nonlinear_arith)
            requires
                total >= 0,
        ;
    } else {
        assert(0 <= (-total) / 28 <= -total) by (nonlinear_arith)
            requires
                -total >= 0,
        ;
    }
}
} // verus!
