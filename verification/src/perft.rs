//! Perft: exhaustive counting of the legal move tree to a fixed depth,
//! the standard validation of a move generator. The count of a
//! position at depth `n` is the sum of the counts of its legal
//! successors at depth `n - 1`, with every position a single leaf at
//! depth zero.

use vstd::prelude::*;

use crate::apply::make_move_spec;
use crate::board::Position;
use crate::board::PositionModel;
use crate::legality::legal_moves_spec;
use crate::legality::lemma_legal_moves_props;
use crate::types::ChessMove;

verus! {

/// The number of leaves of the legal move tree of `p` at depth `n`. A
/// successor that fails the structural invariant — which never arises
/// from a well-formed game — counts as a single leaf.
pub open spec fn perft_spec(p: PositionModel, n: int) -> nat
    decreases n + 1, 0int,
{
    if n <= 0 {
        1
    } else {
        perft_sum(p, legal_moves_spec(p), legal_moves_spec(p).len() as int, n)
    }
}

/// The summed depth-(`n - 1`) counts of the successors by the first
/// `k` moves of the list.
pub open spec fn perft_sum(p: PositionModel, moves: Seq<ChessMove>, k: int, n: int) -> nat
    decreases n, k,
{
    if k <= 0 || n <= 0 {
        0
    } else {
        let after = make_move_spec(p, moves[k - 1]);
        perft_sum(p, moves, k - 1, n) + (if after.wf() {
            perft_spec(after, n - 1)
        } else {
            1
        })
    }
}

/// Prefix sums of the perft terms grow with the prefix.
pub proof fn lemma_perft_sum_mono(p: PositionModel, moves: Seq<ChessMove>, k1: int, k2: int, n: int)
    requires
        k1 <= k2,
    ensures
        perft_sum(p, moves, k1, n) <= perft_sum(p, moves, k2, n),
    decreases k2,
{
    if k2 > 0 && k1 < k2 {
        lemma_perft_sum_mono(p, moves, k1, k2 - 1, n);
    }
}

/// At depth one every legal move is exactly one leaf.
pub proof fn lemma_perft_sum_depth_one(p: PositionModel, moves: Seq<ChessMove>, k: int)
    requires
        k >= 0,
    ensures
        perft_sum(p, moves, k, 1) == k,
    decreases k,
{
    if k > 0 {
        lemma_perft_sum_depth_one(p, moves, k - 1);
        let after = make_move_spec(p, moves[k - 1]);
        assert(perft_spec(after, 0) == 1);
    }
}

/// The legal successors of a position, in move-generation order.
pub fn legal_successor_positions(fen: Position) -> (r: Vec<Position>)
    requires
        fen@.wf(),
    ensures
        r@.len() == legal_moves_spec(fen@).len(),
        forall|j: int|
            0 <= j < r@.len() ==> (#[trigger] r@[j])@ == make_move_spec(
                fen@,
                legal_moves_spec(fen@)[j],
            ),
{
    let moves = fen.get_legal_proper_moves();
    proof {
        lemma_legal_moves_props(fen@);
    }
    let mut successors: Vec<Position> = Vec::new();
    let mut i: usize = 0;
    while i < moves.len()
        invariant
            fen@.wf(),
            moves@ == legal_moves_spec(fen@),
            forall|j: int|
                0 <= j < moves@.len() ==> crate::apply::applicable(fen@, #[trigger] moves@[j]),
            0 <= i <= moves@.len(),
            successors@.len() == i,
            forall|j: int|
                0 <= j < i ==> (#[trigger] successors@[j])@ == make_move_spec(fen@, moves@[j]),
        decreases moves@.len() - i,
    {
        let mut changed_pos = fen;
        changed_pos.make_move(moves[i]);
        successors.push(changed_pos);
        i = i + 1;
    }
    successors
}

/// The total number of leaves of the legal move tree at depth `n`:
/// the perft value validating the generator.
pub fn depth_n_total_perft(fen: Position, n: i8) -> (r: usize)
    requires
        fen@.wf(),
        perft_spec(fen@, n as int) <= usize::MAX,
    ensures
        r as nat == perft_spec(fen@, n as int),
    decreases n,
{
    if n <= 0 {
        return 1;
    }
    let moves = fen.get_legal_proper_moves();
    proof {
        lemma_legal_moves_props(fen@);
    }
    if n == 1 {
        proof {
            lemma_perft_sum_depth_one(fen@, moves@, moves@.len() as int);
        }
        return moves.len();
    }
    let mut total: usize = 0;
    let mut i: usize = 0;
    while i < moves.len()
        invariant
            fen@.wf(),
            2 <= n,
            moves@ == legal_moves_spec(fen@),
            perft_spec(fen@, n as int) <= usize::MAX,
            forall|j: int|
                0 <= j < moves@.len() ==> crate::apply::applicable(fen@, #[trigger] moves@[j]),
            0 <= i <= moves@.len(),
            total as nat == perft_sum(fen@, moves@, i as int, n as int),
        decreases moves@.len() - i,
    {
        let successor = fen.after_move(moves[i]);
        proof {
            lemma_perft_sum_mono(fen@, moves@, i as int + 1, moves@.len() as int, n as int);
        }
        let addition: usize = if successor.is_well_formed() {
            depth_n_total_perft(successor, n - 1)
        } else {
            1
        };
        total = total + addition;
        i = i + 1;
    }
    total
}

/// The depth-(`n - 1`) count of the position one move leads to; a
/// successor that fails the structural invariant counts as one leaf.
pub open spec fn perft_subcount(p: PositionModel, m: ChessMove, n: int) -> nat {
    let after = make_move_spec(p, m);
    if after.wf() {
        perft_spec(after, n - 1)
    } else {
        1
    }
}

/// The summed subcounts of the first `k` listed moves.
pub open spec fn perft_subtotal(p: PositionModel, moves: Seq<ChessMove>, k: int, n: int) -> nat
    decreases k,
{
    if k <= 0 {
        0
    } else {
        perft_subtotal(p, moves, k - 1, n) + perft_subcount(p, moves[k - 1], n)
    }
}

/// Prefix subtotals grow with the prefix.
pub proof fn lemma_perft_subtotal_mono(
    p: PositionModel,
    moves: Seq<ChessMove>,
    k1: int,
    k2: int,
    n: int,
)
    requires
        k1 <= k2,
    ensures
        perft_subtotal(p, moves, k1, n) <= perft_subtotal(p, moves, k2, n),
    decreases k2,
{
    if k2 > 0 && k1 < k2 {
        lemma_perft_subtotal_mono(p, moves, k1, k2 - 1, n);
    }
}

/// At positive depth the subtotal over all legal moves is the perft
/// value itself.
pub proof fn lemma_perft_subtotal_is_perft(
    p: PositionModel,
    moves: Seq<ChessMove>,
    k: int,
    n: int,
)
    requires
        n >= 1,
        k >= 0,
    ensures
        perft_subtotal(p, moves, k, n) == perft_sum(p, moves, k, n),
    decreases k,
{
    if k > 0 {
        lemma_perft_subtotal_is_perft(p, moves, k - 1, n);
    }
}

/// The perft total together with the per-move subtotals, the usual
/// shape for comparing a position against published perft tables.
pub fn depth_n_better_perft(fen: Position, n: i8) -> (r: (usize, Vec<(ChessMove, usize)>))
    requires
        fen@.wf(),
        n > i8::MIN,
        perft_subtotal(
            fen@,
            legal_moves_spec(fen@),
            legal_moves_spec(fen@).len() as int,
            n as int,
        ) <= usize::MAX,
    ensures
        r.0 as nat == perft_subtotal(
            fen@,
            legal_moves_spec(fen@),
            legal_moves_spec(fen@).len() as int,
            n as int,
        ),
        n >= 1 ==> r.0 as nat == perft_spec(fen@, n as int),
        r.1@.len() == legal_moves_spec(fen@).len(),
        forall|j: int|
            0 <= j < r.1@.len() ==> (#[trigger] r.1@[j]).0 == legal_moves_spec(fen@)[j]
                && r.1@[j].1 as nat == perft_subcount(fen@, legal_moves_spec(fen@)[j], n as int),
{
    let moves = fen.get_legal_proper_moves();
    proof {
        lemma_legal_moves_props(fen@);
    }
    let mut sub_perfts: Vec<(ChessMove, usize)> = Vec::new();
    let mut grand_total: usize = 0;
    let mut i: usize = 0;
    while i < moves.len()
        invariant
            fen@.wf(),
            n > i8::MIN,
            moves@ == legal_moves_spec(fen@),
            perft_subtotal(fen@, moves@, moves@.len() as int, n as int) <= usize::MAX,
            forall|j: int|
                0 <= j < moves@.len() ==> crate::apply::applicable(fen@, #[trigger] moves@[j]),
            0 <= i <= moves@.len(),
            grand_total as nat == perft_subtotal(fen@, moves@, i as int, n as int),
            sub_perfts@.len() == i,
            forall|j: int|
                0 <= j < i ==> (#[trigger] sub_perfts@[j]).0 == moves@[j] && sub_perfts@[j].1 as nat
                    == perft_subcount(fen@, moves@[j], n as int),
        decreases moves@.len() - i,
    {
        let possible_successor = fen.after_move(moves[i]);
        proof {
            lemma_perft_subtotal_mono(fen@, moves@, i as int + 1, moves@.len() as int, n as int);
        }
        let successors_here: usize = if possible_successor.is_well_formed() {
            depth_n_total_perft(possible_successor, n - 1)
        } else {
            1
        };
        sub_perfts.push((moves[i], successors_here));
        grand_total = grand_total + successors_here;
        i = i + 1;
    }
    proof {
        if n >= 1 {
            lemma_perft_subtotal_is_perft(fen@, moves@, moves@.len() as int, n as int);
        }
    }
    (grand_total, sub_perfts)
}

} // verus!
