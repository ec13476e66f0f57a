//! A plain negamax search over the verified engine: score-ordered
//! pseudo-legal moves filtered to legal ones, recursive evaluation by
//! the tapered material count, and a best-move chooser. The search
//! layers carry no chess rules of their own; every rule they rely on
//! is the move generator's.

use vstd::prelude::*;

use crate::apply::make_move_spec;
use crate::board::Position;
use crate::board::PositionModel;
use crate::apply::applicable;
use crate::eval::hce_spec;
use crate::eval::scoreable;
use crate::eval::sort_by_score;
use crate::eval::truncate_spec;
use crate::legality::legal_upto;
use crate::legality::legal_moves_spec;
use crate::movegen::pseudo_legal_moves_spec;
use crate::props::lemma_pseudo_legal_props;
use crate::types::ChessMove;
use crate::types::EnumPiecesUncolored;

verus! {

/// Whether no pseudo-legal move of this position would capture a king:
/// true of every position arising in a real game, and what the scorer
/// needs of each move it ranks.
pub open spec fn no_king_victims(p: PositionModel) -> bool {
    forall|j: int|
        0 <= j < pseudo_legal_moves_spec(p).len() ==> scoreable(
            p,
            #[trigger] pseudo_legal_moves_spec(p)[j],
        )
}

/// The move ordering handed to the search: the pseudo-legal moves
/// sorted by ascending score, filtered to the legal ones, and cut to
/// at most twelve.
pub open spec fn sorted_plp_spec(p: PositionModel) -> Seq<ChessMove> {
    truncate_spec(
        legal_upto(
            p,
            sort_by_score(p, pseudo_legal_moves_spec(p)),
            sort_by_score(p, pseudo_legal_moves_spec(p)).len() as int,
        ),
        12,
    )
}

impl Position {
    /// Whether no pseudo-legal move would capture a king, decided at
    /// run time.
    pub fn offers_no_king_capture(&self) -> (r: bool)
        requires
            self@.wf(),
        ensures
            r == no_king_victims(self@),
    {
        let moves = self.get_pseudo_legal_proper_moves();
        proof {
            lemma_pseudo_legal_props(self@);
        }
        let mut i: usize = 0;
        while i < moves.len()
            invariant
                self@.wf(),
                moves@ == pseudo_legal_moves_spec(self@),
                forall|j: int|
                    0 <= j < moves@.len() ==> crate::props::move_props(
                        self@,
                        #[trigger] moves@[j],
                    ),
                0 <= i <= moves@.len(),
                forall|j: int| 0 <= j < i ==> scoreable(self@, #[trigger] moves@[j]),
            decreases moves@.len() - i,
        {
            let victim_square: Option<i8> = match moves[i] {
                ChessMove::StandardMove(sm) => Some(sm.to_square),
                ChessMove::PromotionMove(pm) => Some(pm.to_square),
                _ => None,
            };
            match victim_square {
                None => {},
                Some(sq) => {
                    match crate::encoding::get_contents(self.query_square(sq)) {
                        None => {},
                        Some(piece) => {
                            if crate::encoding::get_piece_type(piece)
                                == EnumPiecesUncolored::King {
                                return false;
                            }
                        },
                    }
                },
            }
            i = i + 1;
        }
        true
    }

    /// The score-ordered, legality-filtered move list the search walks.
    pub fn get_sorted_plp_moves(&self) -> (r: Vec<ChessMove>)
        requires
            self@.wf(),
            no_king_victims(self@),
        ensures
            r@ == sorted_plp_spec(self@),
    {
        let mut valid_moves = self.get_pseudo_legal_proper_moves();
        proof {
            lemma_pseudo_legal_props(self@);
        }
        self.mvv_lva_sort(&mut valid_moves);
        valid_moves
    }
}

/// Every move of the sorted, filtered, truncated list can be applied:
/// it is drawn from the pseudo-legal moves.
pub proof fn lemma_sorted_moves_applicable(p: PositionModel)
    requires
        p.board_contents_wf(),
        p.ep_wf(),
        p.castling_wf(),
        p.pawns_wf(),
    ensures
        forall|j: int|
            0 <= j < sorted_plp_spec(p).len() ==> applicable(p, #[trigger] sorted_plp_spec(p)[j]),
{
    lemma_pseudo_legal_props(p);
    crate::eval::lemma_sort_by_score_elements(p, pseudo_legal_moves_spec(p));
    let sorted = sort_by_score(p, pseudo_legal_moves_spec(p));
    let filtered = legal_upto(p, sorted, sorted.len() as int);
    crate::legality::lemma_legal_upto_props(p, sorted, sorted.len() as int);
    assert forall|j: int| 0 <= j < sorted_plp_spec(p).len() implies applicable(
        p,
        #[trigger] sorted_plp_spec(p)[j],
    ) by {
        assert(sorted_plp_spec(p)[j] == filtered[j]);
        let i0 = choose|i: int| 0 <= i < sorted.len() && filtered[j] == sorted[i];
        let i1 = choose|i: int|
            0 <= i < pseudo_legal_moves_spec(p).len() && sorted[i0] == pseudo_legal_moves_spec(
                p,
            )[i];
        assert(applicable(p, pseudo_legal_moves_spec(p)[i1]));
    }
}

/// The running maximum over the first `k` listed moves of the negated
/// evaluation of each successor, from one more than the least
/// representable score; a successor that fails the structural
/// invariant or could capture a king — never seen from a real game —
/// is passed over.
pub open spec fn negamax_fold(p: PositionModel, moves: Seq<ChessMove>, k: int, depth: int) -> int
    decreases depth, k,
{
    if k <= 0 || depth <= 0 {
        i32::MIN + 1
    } else {
        let prev = negamax_fold(p, moves, k - 1, depth);
        let after = make_move_spec(p, moves[k - 1]);
        if after.wf() && no_king_victims(after) {
            let score = -negamax_spec(after, depth - 1);
            if score > prev {
                score
            } else {
                prev
            }
        } else {
            prev
        }
    }
}

/// The negamax value of a position: its tapered evaluation at depth
/// zero, and otherwise the best negated value over the score-ordered
/// move list.
pub open spec fn negamax_spec(p: PositionModel, depth: int) -> int
    decreases depth + 1, 0int,
{
    if depth <= 0 {
        hce_spec(p)
    } else {
        negamax_fold(p, sorted_plp_spec(p), sorted_plp_spec(p).len() as int, depth)
    }
}

/// Every negamax value stays one above the least representable score,
/// so its negation is always representable.
pub proof fn lemma_negamax_bounds(p: PositionModel, depth: int)
    ensures
        i32::MIN + 1 <= negamax_spec(p, depth) <= i32::MAX,
    decreases depth + 1, 0int,
{
    if depth <= 0 {
        crate::eval::lemma_hce_bounds(p);
    } else {
        lemma_negamax_fold_bounds(p, sorted_plp_spec(p), sorted_plp_spec(p).len() as int, depth);
    }
}

/// The fold stays within the representable score range.
pub proof fn lemma_negamax_fold_bounds(
    p: PositionModel,
    moves: Seq<ChessMove>,
    k: int,
    depth: int,
)
    ensures
        i32::MIN + 1 <= negamax_fold(p, moves, k, depth) <= i32::MAX,
    decreases depth, k,
{
    if k > 0 && depth > 0 {
        lemma_negamax_fold_bounds(p, moves, k - 1, depth);
        let after = make_move_spec(p, moves[k - 1]);
        if after.wf() && no_king_victims(after) {
            lemma_negamax_bounds(after, depth - 1);
        }
    }
}

impl Position {
    /// The negamax value of this position to the given depth.
    pub fn negamax_evaluate(&self, depth: i8) -> (r: i32)
        requires
            self@.wf(),
            no_king_victims(self@),
        ensures
            r == negamax_spec(self@, depth as int),
        decreases depth,
    {
        if depth <= 0 {
            return crate::eval::hce_stm(self);
        }
        let valid_moves = self.get_sorted_plp_moves();
        proof {
            lemma_sorted_moves_applicable(self@);
        }
        let mut score_thus_far: i32 = i32::MIN + 1;
        let mut i: usize = 0;
        while i < valid_moves.len()
            invariant
                self@.wf(),
                no_king_victims(self@),
                1 <= depth,
                valid_moves@ == sorted_plp_spec(self@),
                forall|j: int|
                    0 <= j < valid_moves@.len() ==> crate::apply::applicable(
                        self@,
                        #[trigger] valid_moves@[j],
                    ),
                0 <= i <= valid_moves@.len(),
                score_thus_far == negamax_fold(self@, valid_moves@, i as int, depth as int),
            decreases valid_moves@.len() - i,
        {
            let successor_position = self.after_move(valid_moves[i]);
            if successor_position.is_well_formed() && successor_position.offers_no_king_capture() {
                let opponent_value = successor_position.negamax_evaluate(depth - 1);
                proof {
                    lemma_negamax_bounds(successor_position@, depth as int - 1);
                }
                let successor_estimated_value: i32 = -opponent_value;
                if successor_estimated_value > score_thus_far {
                    score_thus_far = successor_estimated_value;
                }
            }
            i = i + 1;
        }
        score_thus_far
    }
}

/// The best move over the first `k` legal moves with the value its
/// successor evaluates to: the first evaluated move is always taken,
/// and a later one replaces it only for a strictly better value. A
/// successor failing the structural invariant is passed over.
pub open spec fn negamax_choice(
    p: PositionModel,
    moves: Seq<ChessMove>,
    k: int,
    depth: int,
) -> (ChessMove, int)
    decreases k,
{
    if k <= 0 {
        (ChessMove::NullMove, i32::MIN as int)
    } else {
        let prev = negamax_choice(p, moves, k - 1, depth);
        let after = make_move_spec(p, moves[k - 1]);
        if after.wf() && no_king_victims(after) {
            let value = negamax_spec(after, depth - 1);
            if prev.0 is NullMove {
                (moves[k - 1], value)
            } else if value > prev.1 {
                (moves[k - 1], value)
            } else {
                prev
            }
        } else {
            prev
        }
    }
}

impl Position {
    /// The legal move whose successor evaluates best, with that value;
    /// the null move with the least score when no move could be
    /// evaluated.
    #[verifier::rlimit(50)]
    pub fn negamax_best_move(&self, depth: i8) -> (r: (ChessMove, i32))
        requires
            self@.wf(),
            no_king_victims(self@),
            depth > i8::MIN,
        ensures
            r == (
                negamax_choice(
                    self@,
                    legal_moves_spec(self@),
                    legal_moves_spec(self@).len() as int,
                    depth as int,
                ).0,
                negamax_choice(
                    self@,
                    legal_moves_spec(self@),
                    legal_moves_spec(self@).len() as int,
                    depth as int,
                ).1 as i32,
            ),
    {
        let valid_moves = self.get_legal_proper_moves();
        proof {
            crate::legality::lemma_legal_moves_props(self@);
        }
        let mut best_move: ChessMove = ChessMove::NullMove;
        let mut best_eval: i32 = i32::MIN;
        let mut i: usize = 0;
        while i < valid_moves.len()
            invariant
                self@.wf(),
                no_king_victims(self@),
                depth > i8::MIN,
                valid_moves@ == legal_moves_spec(self@),
                forall|j: int|
                    0 <= j < valid_moves@.len() ==> crate::apply::applicable(
                        self@,
                        #[trigger] valid_moves@[j],
                    ),
                0 <= i <= valid_moves@.len(),
                (best_move, best_eval as int) == negamax_choice(
                    self@,
                    valid_moves@,
                    i as int,
                    depth as int,
                ),
            decreases valid_moves@.len() - i,
        {
            let successor_position = self.after_move(valid_moves[i]);
            if successor_position.is_well_formed() && successor_position.offers_no_king_capture() {
                let value = successor_position.negamax_evaluate(depth - 1);
                proof {
                    lemma_negamax_bounds(successor_position@, depth as int - 1);
                }
                match best_move {
                    ChessMove::NullMove => {
                        best_move = valid_moves[i];
                        best_eval = value;
                    },
                    _ => {
                        if value > best_eval {
                            best_move = valid_moves[i];
                            best_eval = value;
                        }
                    },
                }
            }
            i = i + 1;
        }
        (best_move, best_eval)
    }
}

} // verus!
