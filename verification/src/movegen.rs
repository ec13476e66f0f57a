//! Pseudo-legal move generation: per-piece generators scanning from
//! each of the mover's squares, en-passant captures, and castling
//! offers. Each generator's output is pinned down, element for
//! element, by a spec function that restates the corresponding rule of
//! chess.

use vstd::prelude::*;

use crate::attack::knight_jump_squares;
use crate::board::castle_offset;
use crate::board::castle_slot_color;
use crate::board::ep_taken_square;
use crate::board::Position;
use crate::board::PositionModel;
use crate::encoding::code_color;
use crate::encoding::code_kind;
use crate::encoding::is_square_code;
use crate::encoding::opposite_color;
use crate::encoding::piece_code;
use crate::encoding::square_file_index;
use crate::encoding::square_rank_index;
use crate::geometry::bishop_directions;
use crate::geometry::king_offsets;
use crate::geometry::offset_amount;
use crate::geometry::offset_in_board;
use crate::geometry::offset_square;
use crate::geometry::offset_squares_upto;
use crate::geometry::queen_directions;
use crate::geometry::rook_directions;
use crate::geometry::Ray;
use crate::types::ChessMove;
use crate::types::EnPassantMove;
use crate::types::EnumColor;
use crate::types::EnumPiecesUncolored;
use crate::types::PromotionMove;
use crate::types::SmallOffset;
use crate::types::StandardMove;

verus! {

/// A standard move between two squares.
pub open spec fn std_move(from: i8, to: i8) -> ChessMove {
    ChessMove::StandardMove(StandardMove { from_square: from, to_square: to })
}

/// A promotion move choosing the given piece kind in the mover's color.
pub open spec fn promo_move(mover: EnumColor, from: i8, to: i8, kind: EnumPiecesUncolored) -> ChessMove {
    ChessMove::PromotionMove(
        PromotionMove { from_square: from, to_square: to, promotion_choice: piece_code(mover, kind) as i8 },
    )
}

/// The four promotion choices a pawn arriving on the back rank
/// expands into, in generation order.
pub open spec fn promotion_moves(mover: EnumColor, from: i8, to: i8) -> Seq<ChessMove> {
    seq![
        promo_move(mover, from, to, EnumPiecesUncolored::Queen),
        promo_move(mover, from, to, EnumPiecesUncolored::Knight),
        promo_move(mover, from, to, EnumPiecesUncolored::Rook),
        promo_move(mover, from, to, EnumPiecesUncolored::Bishop),
    ]
}

/// Whether the mover may land on `t`: it is empty or enemy-held.
pub open spec fn empty_or_enemy(b: Seq<i8>, mover: EnumColor, t: int) -> bool {
    b[t] < 0 || code_color(b[t] as int) == opposite_color(mover)
}

/// The standard moves from `from` onto the first `n` listed target
/// squares that are empty or enemy-held, in list order. This shapes
/// the knight and king generators.
pub open spec fn offset_moves_upto(
    p: PositionModel,
    from: i8,
    squares: Seq<i8>,
    n: int,
) -> Seq<ChessMove>
    decreases n,
{
    if n <= 0 {
        Seq::empty()
    } else {
        let prev = offset_moves_upto(p, from, squares, n - 1);
        if empty_or_enemy(p.board, p.moving_side, squares[n - 1] as int) {
            prev.push(std_move(from, squares[n - 1]))
        } else {
            prev
        }
    }
}

/// The on-board squares one king step from `sq`.
pub open spec fn king_step_squares(sq: int) -> Seq<i8> {
    offset_squares_upto(sq, king_offsets(), 8)
}

/// The knight moves from `from`.
pub open spec fn knight_moves_spec(p: PositionModel, from: i8) -> Seq<ChessMove> {
    offset_moves_upto(
        p,
        from,
        knight_jump_squares(from as int),
        knight_jump_squares(from as int).len() as int,
    )
}

/// The (pseudo-legal) king moves from `from`, castling aside.
pub open spec fn king_moves_spec(p: PositionModel, from: i8) -> Seq<ChessMove> {
    offset_moves_upto(
        p,
        from,
        king_step_squares(from as int),
        king_step_squares(from as int).len() as int,
    )
}

/// The moves of a sliding piece along one ray: every empty square
/// passed is a destination, and the first occupied square is one
/// exactly when enemy-held, ending the ray either way.
pub open spec fn ray_moves(
    p: PositionModel,
    from: i8,
    cur: int,
    dr: int,
    df: int,
    fuel: nat,
) -> Seq<ChessMove>
    decreases fuel,
{
    if fuel == 0 {
        Seq::empty()
    } else if !offset_in_board(cur, dr, df) {
        Seq::empty()
    } else {
        let t = offset_square(cur, dr, df);
        let c = p.board[t] as int;
        if c < 0 {
            seq![std_move(from, t as i8)] + ray_moves(p, from, t, dr, df, (fuel - 1) as nat)
        } else if code_color(c) == opposite_color(p.moving_side) {
            seq![std_move(from, t as i8)]
        } else {
            Seq::empty()
        }
    }
}

/// The slider moves from `from` along the first `n` listed directions,
/// in list order.
pub open spec fn rays_moves_upto(
    p: PositionModel,
    from: i8,
    dirs: Seq<(SmallOffset, SmallOffset)>,
    n: int,
) -> Seq<ChessMove>
    decreases n,
{
    if n <= 0 {
        Seq::empty()
    } else {
        rays_moves_upto(p, from, dirs, n - 1) + ray_moves(
            p,
            from,
            from as int,
            offset_amount(dirs[n - 1].0),
            offset_amount(dirs[n - 1].1),
            8,
        )
    }
}

/// The bishop moves from `from`.
pub open spec fn bishop_moves_spec(p: PositionModel, from: i8) -> Seq<ChessMove> {
    rays_moves_upto(p, from, bishop_directions(), 4)
}

/// The rook moves from `from`.
pub open spec fn rook_moves_spec(p: PositionModel, from: i8) -> Seq<ChessMove> {
    rays_moves_upto(p, from, rook_directions(), 4)
}

/// The queen moves from `from`.
pub open spec fn queen_moves_spec(p: PositionModel, from: i8) -> Seq<ChessMove> {
    rays_moves_upto(p, from, queen_directions(), 8)
}

/// The rank direction the mover's pawns advance in.
pub open spec fn pawn_move_dir(mover: EnumColor) -> int {
    match mover {
        EnumColor::White => 1,
        EnumColor::Black => -1,
    }
}

/// The rank index the mover's pawns promote on.
pub open spec fn pawn_promo_rank(mover: EnumColor) -> int {
    match mover {
        EnumColor::White => 7,
        EnumColor::Black => 0,
    }
}

/// The rank index the mover's pawns may double-push from.
pub open spec fn pawn_double_rank(mover: EnumColor) -> int {
    match mover {
        EnumColor::White => 1,
        EnumColor::Black => 6,
    }
}

/// The pawn capture in file direction `df` from `from`, if any: the
/// diagonally-forward square must hold an enemy piece, and a capture
/// onto the promotion rank expands into the four promotion choices.
pub open spec fn pawn_capture_moves(p: PositionModel, from: i8, df: int) -> Seq<ChessMove> {
    let dr = pawn_move_dir(p.moving_side);
    if !offset_in_board(from as int, dr, df) {
        Seq::empty()
    } else {
        let t = offset_square(from as int, dr, df);
        let c = p.board[t] as int;
        if c >= 0 && code_color(c) == opposite_color(p.moving_side) {
            if square_rank_index(t) == pawn_promo_rank(p.moving_side) {
                promotion_moves(p.moving_side, from, t as i8)
            } else {
                seq![std_move(from, t as i8)]
            }
        } else {
            Seq::empty()
        }
    }
}

/// The forward pawn moves from `from`: a single push onto an empty
/// square (expanding on the promotion rank), and a double push when
/// the pawn stands on its home rank and both squares ahead are empty.
pub open spec fn pawn_forward_moves(p: PositionModel, from: i8) -> Seq<ChessMove> {
    let dr = pawn_move_dir(p.moving_side);
    if !offset_in_board(from as int, dr, 0) {
        Seq::empty()
    } else {
        let f1 = offset_square(from as int, dr, 0);
        if p.board[f1] >= 0 {
            Seq::empty()
        } else {
            let single = if square_rank_index(f1) == pawn_promo_rank(p.moving_side) {
                promotion_moves(p.moving_side, from, f1 as i8)
            } else {
                seq![std_move(from, f1 as i8)]
            };
            if square_rank_index(from as int) == pawn_double_rank(p.moving_side)
                && offset_in_board(f1, dr, 0) && p.board[offset_square(f1, dr, 0)] < 0 {
                single.push(std_move(from, offset_square(f1, dr, 0) as i8))
            } else {
                single
            }
        }
    }
}

/// The pawn moves from `from`: captures toward the queenside, then
/// captures toward the kingside, then the forward moves.
pub open spec fn pawn_moves_spec(p: PositionModel, from: i8) -> Seq<ChessMove> {
    pawn_capture_moves(p, from, -1) + pawn_capture_moves(p, from, 1) + pawn_forward_moves(p, from)
}

/// The rank direction from the en-passant target square back toward
/// the capturing side's pawns.
pub open spec fn ep_back_dir(mover: EnumColor) -> int {
    match mover {
        EnumColor::White => -1,
        EnumColor::Black => 1,
    }
}

/// The en-passant capture from the flanking square in file direction
/// `df` of the target square, if a pawn of the mover stands there.
pub open spec fn ep_capture_from(p: PositionModel, df: int) -> Seq<ChessMove> {
    let ep = p.ep_data as int;
    let taken = ep_taken_square(p.moving_side, ep);
    let dr = ep_back_dir(p.moving_side);
    if !offset_in_board(ep, dr, df) {
        Seq::empty()
    } else {
        let t = offset_square(ep, dr, df);
        let c = p.board[t] as int;
        if c >= 0 && code_color(c) == p.moving_side && code_kind(c) == EnumPiecesUncolored::Pawn {
            seq![
                ChessMove::EnPassantMove(
                    EnPassantMove {
                        from_square: t as i8,
                        taken_square: taken as i8,
                        to_square: ep as i8,
                    },
                ),
            ]
        } else {
            Seq::empty()
        }
    }
}

/// The en-passant captures on offer: nothing without en-passant data,
/// else one capture per flanking mover pawn.
pub open spec fn ep_moves_spec(p: PositionModel) -> Seq<ChessMove> {
    if p.ep_data < 0 {
        Seq::empty()
    } else {
        ep_capture_from(p, -1) + ep_capture_from(p, 1)
    }
}

/// Whether every square strictly between `cur` (exclusive) and
/// `rook_from` in file direction `df` is empty, reaching `rook_from`:
/// the rook's own square ends the walk and is no obstruction.
pub open spec fn castle_path_clear(b: Seq<i8>, cur: int, rook_from: int, df: int, fuel: nat) -> bool
    decreases fuel,
{
    if fuel == 0 {
        false
    } else if !offset_in_board(cur, 0, df) {
        false
    } else {
        let t = offset_square(cur, 0, df);
        if t == rook_from {
            true
        } else if b[t] >= 0 {
            false
        } else {
            castle_path_clear(b, t, rook_from, df, (fuel - 1) as nat)
        }
    }
}

/// The file direction from the castling king toward its rook.
pub open spec fn castle_dir(king_from: int, rook_from: int) -> int {
    if square_file_index(rook_from) > square_file_index(king_from) {
        1
    } else {
        -1
    }
}

/// The castling move recorded in `slot`, offered when every square
/// strictly between king and rook is empty.
pub open spec fn castle_slot_moves(p: PositionModel, slot: int) -> Seq<ChessMove> {
    match p.castling[slot] {
        None => Seq::empty(),
        Some(rule) => {
            if castle_path_clear(
                p.board,
                rule.king_from as int,
                rule.rook_from as int,
                castle_dir(rule.king_from as int, rule.rook_from as int),
                8,
            ) {
                seq![ChessMove::CastlingMove(rule)]
            } else {
                Seq::empty()
            }
        },
    }
}

/// The castling moves on offer to the side to move, kingside slot
/// first.
pub open spec fn castling_moves_spec(p: PositionModel) -> Seq<ChessMove> {
    castle_slot_moves(p, castle_offset(p.moving_side)) + castle_slot_moves(
        p,
        castle_offset(p.moving_side) + 1,
    )
}

/// The moves of the piece on `sq`, if it belongs to the side to move;
/// en-passant and castling are generated separately.
pub open spec fn piece_moves_spec(p: PositionModel, sq: i8) -> Seq<ChessMove> {
    let c = p.board[sq as int] as int;
    if c < 0 || code_color(c) != p.moving_side {
        Seq::empty()
    } else {
        match code_kind(c) {
            EnumPiecesUncolored::Pawn => pawn_moves_spec(p, sq),
            EnumPiecesUncolored::Knight => knight_moves_spec(p, sq),
            EnumPiecesUncolored::Bishop => bishop_moves_spec(p, sq),
            EnumPiecesUncolored::Rook => rook_moves_spec(p, sq),
            EnumPiecesUncolored::Queen => queen_moves_spec(p, sq),
            EnumPiecesUncolored::King => king_moves_spec(p, sq),
        }
    }
}

/// The per-square moves of the first `n` squares of the board, in
/// square order.
pub open spec fn board_moves_upto(p: PositionModel, n: int) -> Seq<ChessMove>
    decreases n,
{
    if n <= 0 {
        Seq::empty()
    } else {
        board_moves_upto(p, n - 1) + piece_moves_spec(p, (n - 1) as i8)
    }
}

/// Every pseudo-legal proper move: the union over the mover's pieces
/// in square order, then castling, then en-passant.
pub open spec fn pseudo_legal_moves_spec(p: PositionModel) -> Seq<ChessMove> {
    board_moves_upto(p, 64) + castling_moves_spec(p) + ep_moves_spec(p)
}

impl Position {
    /// Push the four promotion choices from `from` to `to`, queen
    /// first.
    pub(crate) fn push_promotions(moves: &mut Vec<ChessMove>, mover: EnumColor, from: i8, to: i8)
        ensures
            final(moves)@ == old(moves)@ + promotion_moves(mover, from, to),
    {
        moves.push(
            ChessMove::PromotionMove(
                PromotionMove {
                    from_square: from,
                    to_square: to,
                    promotion_choice: crate::encoding::build_piece(
                        mover,
                        EnumPiecesUncolored::Queen,
                    ),
                },
            ),
        );
        moves.push(
            ChessMove::PromotionMove(
                PromotionMove {
                    from_square: from,
                    to_square: to,
                    promotion_choice: crate::encoding::build_piece(
                        mover,
                        EnumPiecesUncolored::Knight,
                    ),
                },
            ),
        );
        moves.push(
            ChessMove::PromotionMove(
                PromotionMove {
                    from_square: from,
                    to_square: to,
                    promotion_choice: crate::encoding::build_piece(
                        mover,
                        EnumPiecesUncolored::Rook,
                    ),
                },
            ),
        );
        moves.push(
            ChessMove::PromotionMove(
                PromotionMove {
                    from_square: from,
                    to_square: to,
                    promotion_choice: crate::encoding::build_piece(
                        mover,
                        EnumPiecesUncolored::Bishop,
                    ),
                },
            ),
        );
        proof {
            assert(moves@ =~= old(moves)@ + promotion_moves(mover, from, to));
        }
    }

    /// Append the pawn capture in one file direction, if any.
    fn pawn_capture_gen(&self, square: i8, file_offset: SmallOffset, moves: &mut Vec<ChessMove>)
        requires
            self@.board_contents_wf(),
            is_square_code(square as int),
        ensures
            final(moves)@ == old(moves)@ + pawn_capture_moves(
                self@,
                square,
                offset_amount(file_offset),
            ),
    {
        let pawn_move_dir = match self.get_color() {
            EnumColor::White => SmallOffset::PlusOne,
            EnumColor::Black => SmallOffset::MinusOne,
        };
        match crate::geometry::try_get_offset_square(square, pawn_move_dir, file_offset) {
            None => {},
            Some(attacked_square) => {
                match crate::encoding::get_contents(self.query_square(attacked_square)) {
                    None => {},
                    Some(attacked_piece) => {
                        if crate::encoding::get_color(attacked_piece) == self.get_opposite_color() {
                            let promotion_rank = match self.get_color() {
                                EnumColor::White => 7i8,
                                EnumColor::Black => 0i8,
                            };
                            if attacked_square / 8 == promotion_rank {
                                Self::push_promotions(
                                    moves,
                                    self.get_color(),
                                    square,
                                    attacked_square,
                                );
                            } else {
                                moves.push(
                                    ChessMove::StandardMove(
                                        StandardMove {
                                            from_square: square,
                                            to_square: attacked_square,
                                        },
                                    ),
                                );
                            }
                        }
                    },
                }
            },
        }
        proof {
            assert(moves@ =~= old(moves)@ + pawn_capture_moves(
                self@,
                square,
                offset_amount(file_offset),
            ));
        }
    }

    /// The pawn moves from `square`: diagonal captures with promotion
    /// expansion, the single push, and the double push from the home
    /// rank over two empty squares.
    pub fn get_likely_pawn_moves(&self, square: i8) -> (r: Vec<ChessMove>)
        requires
            self@.board_contents_wf(),
            is_square_code(square as int),
            square_rank_index(square as int) != pawn_promo_rank(self@.moving_side),
        ensures
            r@ == pawn_moves_spec(self@, square),
    {
        let mut pawn_moves: Vec<ChessMove> = Vec::new();
        self.pawn_capture_gen(square, SmallOffset::MinusOne, &mut pawn_moves);
        self.pawn_capture_gen(square, SmallOffset::PlusOne, &mut pawn_moves);

        let pawn_move_dir = match self.get_color() {
            EnumColor::White => SmallOffset::PlusOne,
            EnumColor::Black => SmallOffset::MinusOne,
        };
        let (double_move_rank, promotion_rank) = match self.get_color() {
            EnumColor::White => (1i8, 7i8),
            EnumColor::Black => (6i8, 0i8),
        };
        let ghost before_forward = pawn_moves@;
        match crate::geometry::try_get_offset_square(square, pawn_move_dir, SmallOffset::Stay) {
            None => {
                proof {
                    assert(false);
                }
            },
            Some(forward_square) => {
                match crate::encoding::get_contents(self.query_square(forward_square)) {
                    None => {
                        if forward_square / 8 == promotion_rank {
                            Self::push_promotions(
                                &mut pawn_moves,
                                self.get_color(),
                                square,
                                forward_square,
                            );
                        } else {
                            pawn_moves.push(
                                ChessMove::StandardMove(
                                    StandardMove { from_square: square, to_square: forward_square },
                                ),
                            );
                        }
                        if square / 8 == double_move_rank {
                            match crate::geometry::try_get_offset_square(
                                forward_square,
                                pawn_move_dir,
                                SmallOffset::Stay,
                            ) {
                                None => {
                                    proof {
                                        assert(false);
                                    }
                                },
                                Some(double_forward_square) => {
                                    match crate::encoding::get_contents(
                                        self.query_square(double_forward_square),
                                    ) {
                                        None => {
                                            pawn_moves.push(
                                                ChessMove::StandardMove(
                                                    StandardMove {
                                                        from_square: square,
                                                        to_square: double_forward_square,
                                                    },
                                                ),
                                            );
                                        },
                                        Some(_piece) => {},
                                    }
                                },
                            }
                        }
                    },
                    Some(_piece) => {},
                }
            },
        }
        proof {
            assert(pawn_moves@ =~= before_forward + pawn_forward_moves(self@, square));
            assert(pawn_moves@ =~= pawn_moves_spec(self@, square));
        }
        pawn_moves
    }

    /// The standard moves from `square` onto each listed target that is
    /// empty or enemy-held.
    fn offset_moves_gen(&self, square: i8, targets: &Vec<i8>) -> (r: Vec<ChessMove>)
        requires
            self@.board_contents_wf(),
            forall|j: int| 0 <= j < targets@.len() ==> is_square_code(#[trigger] targets@[j] as int),
        ensures
            r@ == offset_moves_upto(self@, square, targets@, targets@.len() as int),
    {
        let mut moves: Vec<ChessMove> = Vec::new();
        let mut i: usize = 0;
        while i < targets.len()
            invariant
                self@.board_contents_wf(),
                forall|j: int|
                    0 <= j < targets@.len() ==> is_square_code(#[trigger] targets@[j] as int),
                0 <= i <= targets@.len(),
                moves@ == offset_moves_upto(self@, square, targets@, i as int),
            decreases targets@.len() - i,
        {
            let to_square = targets[i];
            match crate::encoding::get_contents(self.query_square(to_square)) {
                None => {
                    moves.push(
                        ChessMove::StandardMove(
                            StandardMove { from_square: square, to_square: to_square },
                        ),
                    );
                },
                Some(piece) => {
                    if crate::encoding::get_color(piece) == self.get_opposite_color() {
                        moves.push(
                            ChessMove::StandardMove(
                                StandardMove { from_square: square, to_square: to_square },
                            ),
                        );
                    }
                },
            }
            i = i + 1;
        }
        moves
    }

    /// The knight moves from `square`.
    pub fn get_likely_knight_moves(&self, square: i8) -> (r: Vec<ChessMove>)
        requires
            self@.board_contents_wf(),
            is_square_code(square as int),
        ensures
            r@ == knight_moves_spec(self@, square),
    {
        let targets = crate::geometry::get_knight_offset_squares(square);
        self.offset_moves_gen(square, &targets)
    }

    /// The king moves from `square`, castling aside.
    pub fn get_likely_king_moves(&self, square: i8) -> (r: Vec<ChessMove>)
        requires
            self@.board_contents_wf(),
            is_square_code(square as int),
        ensures
            r@ == king_moves_spec(self@, square),
    {
        let targets = crate::geometry::get_king_offset_squares(square);
        self.offset_moves_gen(square, &targets)
    }

    /// The slider moves along the rest of one ray.
    fn ray_moves_gen(&self, square: i8, ray: Ray, fuel: u8) -> (r: Vec<ChessMove>)
        requires
            self@.board_contents_wf(),
            is_square_code(ray.curr_pos as int),
        ensures
            r@ == ray_moves(
                self@,
                square,
                ray.curr_pos as int,
                offset_amount(ray.direction.0),
                offset_amount(ray.direction.1),
                fuel as nat,
            ),
        decreases fuel,
    {
        let mut moves: Vec<ChessMove> = Vec::new();
        if fuel == 0 {
            return moves;
        }
        let mut walker = ray;
        match walker.next() {
            None => {},
            Some(attacked_square) => {
                match crate::encoding::get_contents(self.query_square(attacked_square)) {
                    None => {
                        moves.push(
                            ChessMove::StandardMove(
                                StandardMove { from_square: square, to_square: attacked_square },
                            ),
                        );
                        let mut rest = self.ray_moves_gen(square, walker, fuel - 1);
                        moves.append(&mut rest);
                    },
                    Some(piece) => {
                        if crate::encoding::get_color(piece) == self.get_opposite_color() {
                            moves.push(
                                ChessMove::StandardMove(
                                    StandardMove {
                                        from_square: square,
                                        to_square: attacked_square,
                                    },
                                ),
                            );
                        }
                    },
                }
            },
        }
        proof {
            assert(moves@ =~= ray_moves(
                self@,
                square,
                ray.curr_pos as int,
                offset_amount(ray.direction.0),
                offset_amount(ray.direction.1),
                fuel as nat,
            ));
        }
        moves
    }

    /// The slider moves from `square` along each listed direction.
    fn rays_moves_gen(&self, square: i8, dirs: &Vec<(SmallOffset, SmallOffset)>) -> (r: Vec<
        ChessMove,
    >)
        requires
            self@.board_contents_wf(),
            is_square_code(square as int),
        ensures
            r@ == rays_moves_upto(self@, square, dirs@, dirs@.len() as int),
    {
        let rays = crate::geometry::rays_in_directions(square, dirs);
        let mut moves: Vec<ChessMove> = Vec::new();
        let mut i: usize = 0;
        while i < rays.len()
            invariant
                self@.board_contents_wf(),
                is_square_code(square as int),
                rays@ == crate::geometry::rays_from_directions(square, dirs@),
                0 <= i <= rays@.len(),
                moves@ == rays_moves_upto(self@, square, dirs@, i as int),
            decreases rays@.len() - i,
        {
            let mut ray_part = self.ray_moves_gen(square, rays[i], 8);
            moves.append(&mut ray_part);
            i = i + 1;
        }
        moves
    }

    /// The bishop moves from `square`.
    pub fn get_likely_bishop_moves(&self, square: i8) -> (r: Vec<ChessMove>)
        requires
            self@.board_contents_wf(),
            is_square_code(square as int),
        ensures
            r@ == bishop_moves_spec(self@, square),
    {
        let dirs = crate::geometry::bishop_direction_list();
        self.rays_moves_gen(square, &dirs)
    }

    /// The rook moves from `square`.
    pub fn get_likely_rook_moves(&self, square: i8) -> (r: Vec<ChessMove>)
        requires
            self@.board_contents_wf(),
            is_square_code(square as int),
        ensures
            r@ == rook_moves_spec(self@, square),
    {
        let dirs = crate::geometry::rook_direction_list();
        self.rays_moves_gen(square, &dirs)
    }

    /// The queen moves from `square`.
    pub fn get_likely_queen_moves(&self, square: i8) -> (r: Vec<ChessMove>)
        requires
            self@.board_contents_wf(),
            is_square_code(square as int),
        ensures
            r@ == queen_moves_spec(self@, square),
    {
        let dirs = crate::geometry::queen_direction_list();
        self.rays_moves_gen(square, &dirs)
    }

    /// Append the en-passant capture from the flanking square in one
    /// file direction, if a mover pawn stands there.
    fn ep_capture_gen(
        &self,
        taken_square: i8,
        ep_square: i8,
        file_offset: SmallOffset,
        moves: &mut Vec<ChessMove>,
    )
        requires
            self@.board_contents_wf(),
            is_square_code(ep_square as int),
            ep_square == self@.ep_data,
            taken_square as int == ep_taken_square(self@.moving_side, self@.ep_data as int),
        ensures
            final(moves)@ == old(moves)@ + ep_capture_from(self@, offset_amount(file_offset)),
    {
        let back_capturing_dir = match self.get_color() {
            EnumColor::White => SmallOffset::MinusOne,
            EnumColor::Black => SmallOffset::PlusOne,
        };
        match crate::geometry::try_get_offset_square(ep_square, back_capturing_dir, file_offset) {
            None => {},
            Some(threat_square) => {
                match crate::encoding::get_contents(self.query_square(threat_square)) {
                    None => {},
                    Some(piece) => {
                        if crate::encoding::get_color(piece) == self.get_color()
                            && crate::encoding::get_piece_type(piece)
                            == EnumPiecesUncolored::Pawn {
                            moves.push(
                                ChessMove::EnPassantMove(
                                    EnPassantMove {
                                        from_square: threat_square,
                                        taken_square: taken_square,
                                        to_square: ep_square,
                                    },
                                ),
                            );
                        }
                    },
                }
            },
        }
        proof {
            assert(moves@ =~= old(moves)@ + ep_capture_from(self@, offset_amount(file_offset)));
        }
    }

    /// The en-passant captures on offer.
    pub fn get_likely_ep_moves(&self) -> (r: Vec<ChessMove>)
        requires
            self@.board_contents_wf(),
            self@.ep_wf(),
        ensures
            r@ == ep_moves_spec(self@),
    {
        match self.try_get_ep_square() {
            None => Vec::new(),
            Some(pair) => {
                let (taken_square, ep_square) = pair;
                let mut ep_captures: Vec<ChessMove> = Vec::new();
                self.ep_capture_gen(taken_square, ep_square, SmallOffset::MinusOne, &mut ep_captures);
                self.ep_capture_gen(taken_square, ep_square, SmallOffset::PlusOne, &mut ep_captures);
                ep_captures
            },
        }
    }

    /// Whether every square strictly between `cur` and the rook is
    /// empty, walking in file direction `file_dir`.
    fn castle_walk(&self, cur: i8, rook_from: i8, file_dir: SmallOffset, fuel: u8) -> (r: bool)
        requires
            self@.board_contents_wf(),
            is_square_code(cur as int),
        ensures
            r == castle_path_clear(
                self@.board,
                cur as int,
                rook_from as int,
                offset_amount(file_dir),
                fuel as nat,
            ),
        decreases fuel,
    {
        if fuel == 0 {
            return false;
        }
        match crate::geometry::try_get_offset_square(cur, SmallOffset::Stay, file_dir) {
            None => false,
            Some(passed_over_square) => {
                if passed_over_square == rook_from {
                    true
                } else {
                    match crate::encoding::get_contents(self.query_square(passed_over_square)) {
                        None => self.castle_walk(passed_over_square, rook_from, file_dir, fuel - 1),
                        Some(_piece) => false,
                    }
                }
            },
        }
    }

    /// Append the castling move recorded in `slot`, if its path is
    /// clear.
    fn castle_slot_gen(&self, slot: usize, moves: &mut Vec<ChessMove>)
        requires
            self@.board_contents_wf(),
            self@.castling_wf(),
            slot < 4,
            castle_slot_color(slot as int) == self@.moving_side,
        ensures
            final(moves)@ == old(moves)@ + castle_slot_moves(self@, slot as int),
    {
        proof {
            assert(self@.castling[slot as int] matches Some(rule) ==> self@.castle_rule_wf(
                castle_slot_color(slot as int),
                rule,
            ));
        }
        match self.castling[slot] {
            None => {},
            Some(proposed_castling_move) => {
                let file_dir = if proposed_castling_move.rook_from % 8
                    > proposed_castling_move.king_from % 8 {
                    SmallOffset::PlusOne
                } else {
                    SmallOffset::MinusOne
                };
                if self.castle_walk(
                    proposed_castling_move.king_from,
                    proposed_castling_move.rook_from,
                    file_dir,
                    8,
                ) {
                    moves.push(ChessMove::CastlingMove(proposed_castling_move));
                }
            },
        }
        proof {
            assert(final(moves)@ =~= old(moves)@ + castle_slot_moves(self@, slot as int));
        }
    }

    /// The castling moves on offer to the side to move: each recorded
    /// rule whose king-to-rook path is clear.
    pub fn get_likely_castling_moves(&self) -> (r: Vec<ChessMove>)
        requires
            self@.board_contents_wf(),
            self@.castling_wf(),
        ensures
            r@ == castling_moves_spec(self@),
    {
        let mut castling_moves: Vec<ChessMove> = Vec::new();
        let offset: usize = match self.get_color() {
            EnumColor::White => 0,
            EnumColor::Black => 2,
        };
        self.castle_slot_gen(offset, &mut castling_moves);
        self.castle_slot_gen(offset + 1, &mut castling_moves);
        proof {
            assert(castling_moves@ =~= castling_moves_spec(self@));
        }
        castling_moves
    }

    /// Every pseudo-legal proper move of the side to move: the union
    /// over its pieces in square order, then castling, then
    /// en-passant.
    pub fn get_pseudo_legal_proper_moves(&self) -> (r: Vec<ChessMove>)
        requires
            self@.board_contents_wf(),
            self@.ep_wf(),
            self@.castling_wf(),
            self@.pawns_wf(),
        ensures
            r@ == pseudo_legal_moves_spec(self@),
    {
        let mut probable_moves: Vec<ChessMove> = Vec::new();
        let mut sq: i8 = 0;
        while sq < 64
            invariant
                self@.board_contents_wf(),
                self@.ep_wf(),
                self@.castling_wf(),
                self@.pawns_wf(),
                0 <= sq <= 64,
                probable_moves@ == board_moves_upto(self@, sq as int),
            decreases 64 - sq,
        {
            match crate::encoding::get_contents(self.query_square(sq)) {
                None => {},
                Some(piece) => {
                    if crate::encoding::get_color(piece) == self.get_color() {
                        let mut piece_moves = match crate::encoding::get_piece_type(piece) {
                            EnumPiecesUncolored::Pawn => self.get_likely_pawn_moves(sq),
                            EnumPiecesUncolored::Knight => self.get_likely_knight_moves(sq),
                            EnumPiecesUncolored::Bishop => self.get_likely_bishop_moves(sq),
                            EnumPiecesUncolored::Rook => self.get_likely_rook_moves(sq),
                            EnumPiecesUncolored::Queen => self.get_likely_queen_moves(sq),
                            EnumPiecesUncolored::King => self.get_likely_king_moves(sq),
                        };
                        probable_moves.append(&mut piece_moves);
                    }
                },
            }
            sq = sq + 1;
        }
        let mut castle_part = self.get_likely_castling_moves();
        probable_moves.append(&mut castle_part);
        let mut ep_part = self.get_likely_ep_moves();
        probable_moves.append(&mut ep_part);
        proof {
            assert(probable_moves@ =~= pseudo_legal_moves_spec(self@));
        }
        probable_moves
    }
}

} // verus!
