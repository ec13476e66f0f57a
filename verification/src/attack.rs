//! Attack detection: whether an enemy piece currently threatens a
//! square. The scan checks enemy pawns a diagonal step away (together
//! with diagonal-adjacent bishops, queens and kings), enemy knights on
//! the eight jump squares, and then the first occupied square along
//! each diagonal and orthogonal ray.

use vstd::prelude::*;

use crate::board::Position;
use crate::encoding::code_color;
use crate::encoding::code_kind;
use crate::encoding::is_square_code;
use crate::encoding::opposite_color;
use crate::geometry::bishop_directions;
use crate::geometry::rook_directions;
use crate::geometry::knight_offsets;
use crate::geometry::offset_amount;
use crate::geometry::offset_in_board;
use crate::geometry::offset_square;
use crate::geometry::offset_squares_upto;
use crate::geometry::Ray;
use crate::encoding::square_rank_index;
use crate::types::ChessMove;
use crate::types::EnumColor;
use crate::types::EnumPiecesUncolored;

verus! {

/// The rank direction an enemy pawn attacks `defender`'s pieces from:
/// seen from the defended square, one step toward the enemy's side.
pub open spec fn pawn_threat_rank_dir(defender: EnumColor) -> int {
    match defender {
        EnumColor::White => 1,
        EnumColor::Black => -1,
    }
}

/// Whether the square a diagonal step (file direction `df`) toward the
/// enemy side of `sq` holds an enemy piece that attacks diagonally
/// forward at one square's distance: a pawn, bishop, queen or king.
pub open spec fn pawn_threat_at(b: Seq<i8>, defender: EnumColor, sq: int, df: int) -> bool {
    let dr = pawn_threat_rank_dir(defender);
    offset_in_board(sq, dr, df) && {
        let c = b[offset_square(sq, dr, df)] as int;
        &&& c >= 0
        &&& code_color(c) != defender
        &&& (code_kind(c) == EnumPiecesUncolored::Pawn || code_kind(c)
            == EnumPiecesUncolored::Bishop || code_kind(c) == EnumPiecesUncolored::Queen
            || code_kind(c) == EnumPiecesUncolored::King)
    }
}

/// Whether either diagonally-forward-adjacent square holds such an
/// enemy piece.
pub open spec fn pawn_attack(b: Seq<i8>, defender: EnumColor, sq: int) -> bool {
    pawn_threat_at(b, defender, sq, -1) || pawn_threat_at(b, defender, sq, 1)
}

/// Whether square `t` holds an enemy knight.
pub open spec fn enemy_knight_at(b: Seq<i8>, defender: EnumColor, t: int) -> bool {
    let c = b[t] as int;
    c >= 0 && code_color(c) != defender && code_kind(c) == EnumPiecesUncolored::Knight
}

/// The on-board squares a knight jump away from `sq`.
pub open spec fn knight_jump_squares(sq: int) -> Seq<i8> {
    offset_squares_upto(sq, knight_offsets(), 8)
}

/// Whether an enemy knight stands a knight jump from `sq`.
pub open spec fn knight_attack(b: Seq<i8>, defender: EnumColor, sq: int) -> bool {
    exists|j: int|
        0 <= j < knight_jump_squares(sq).len() && enemy_knight_at(
            b,
            defender,
            #[trigger] knight_jump_squares(sq)[j] as int,
        )
}

/// Whether walking from `cur` in direction (`dr`, `df`) reaches, as the
/// first occupied square, an enemy `slider` or queen — or an enemy king
/// while `king_relevant` still holds, i.e. on the very first step. The
/// fuel only bounds the recursion; eight steps always reach the edge.
pub open spec fn ray_attack(
    b: Seq<i8>,
    defender: EnumColor,
    cur: int,
    dr: int,
    df: int,
    slider: EnumPiecesUncolored,
    king_relevant: bool,
    fuel: nat,
) -> bool
    decreases fuel,
{
    if fuel == 0 {
        false
    } else if !offset_in_board(cur, dr, df) {
        false
    } else {
        let nxt = offset_square(cur, dr, df);
        let c = b[nxt] as int;
        if c < 0 {
            ray_attack(b, defender, nxt, dr, df, slider, false, (fuel - 1) as nat)
        } else {
            &&& code_color(c) != defender
            &&& (code_kind(c) == slider || code_kind(c) == EnumPiecesUncolored::Queen || (code_kind(
                c,
            ) == EnumPiecesUncolored::King && king_relevant))
        }
    }
}

/// The ray directions of a slider family: diagonals for the bishop,
/// orthogonals for the rook.
pub open spec fn slider_directions(slider: EnumPiecesUncolored) -> Seq<
    (crate::types::SmallOffset, crate::types::SmallOffset),
> {
    if slider == EnumPiecesUncolored::Bishop {
        bishop_directions()
    } else {
        rook_directions()
    }
}

/// Whether some ray of the given slider family carries an attack on
/// `sq`: diagonals when `slider` is the bishop, orthogonals when it is
/// the rook.
pub open spec fn slider_attack(
    b: Seq<i8>,
    defender: EnumColor,
    sq: int,
    slider: EnumPiecesUncolored,
) -> bool {
    exists|j: int|
        0 <= j < slider_directions(slider).len() && ray_attack(
            b,
            defender,
            sq,
            offset_amount((#[trigger] slider_directions(slider)[j]).0),
            offset_amount(slider_directions(slider)[j].1),
            slider,
            true,
            8,
        )
}

/// Whether any enemy piece threatens `sq` on board `b`, from the
/// defender's point of view.
pub open spec fn sees_attack(b: Seq<i8>, defender: EnumColor, sq: int) -> bool {
    ||| pawn_attack(b, defender, sq)
    ||| knight_attack(b, defender, sq)
    ||| slider_attack(b, defender, sq, EnumPiecesUncolored::Bishop)
    ||| slider_attack(b, defender, sq, EnumPiecesUncolored::Rook)
}

impl Position {
    /// Whether the first occupied square along the rest of `ray` is an
    /// enemy `slider` or queen, or an adjacent enemy king when
    /// `king_relevant` still holds.
    fn ray_sees_attack(
        &self,
        defending_color: EnumColor,
        ray: Ray,
        slider: EnumPiecesUncolored,
        king_relevant: bool,
        fuel: u8,
    ) -> (r: bool)
        requires
            self@.board_contents_wf(),
            is_square_code(ray.curr_pos as int),
        ensures
            r == ray_attack(
                self@.board,
                defending_color,
                ray.curr_pos as int,
                offset_amount(ray.direction.0),
                offset_amount(ray.direction.1),
                slider,
                king_relevant,
                fuel as nat,
            ),
        decreases fuel,
    {
        if fuel == 0 {
            return false;
        }
        let mut walker = ray;
        match walker.next() {
            None => false,
            Some(sq) => {
                match crate::encoding::get_contents(self.query_square(sq)) {
                    None => self.ray_sees_attack(
                        defending_color,
                        walker,
                        slider,
                        false,
                        fuel - 1,
                    ),
                    Some(piece) => {
                        let color = crate::encoding::get_color(piece);
                        let kind = crate::encoding::get_piece_type(piece);
                        color != defending_color && (kind == slider || kind
                            == EnumPiecesUncolored::Queen || (kind == EnumPiecesUncolored::King
                            && king_relevant))
                    },
                }
            },
        }
    }

    /// Whether the square a diagonal step toward the enemy side holds
    /// an enemy pawn, bishop, queen or king.
    fn pawn_threat_check(
        &self,
        defending_color: EnumColor,
        square: i8,
        file_movement: crate::types::SmallOffset,
    ) -> (r: bool)
        requires
            self@.board_contents_wf(),
            is_square_code(square as int),
        ensures
            r == pawn_threat_at(
                self@.board,
                defending_color,
                square as int,
                offset_amount(file_movement),
            ),
    {
        let reverse_opponent_pawn_move_dir = match defending_color {
            EnumColor::White => crate::types::SmallOffset::PlusOne,
            EnumColor::Black => crate::types::SmallOffset::MinusOne,
        };
        match crate::geometry::try_get_offset_square(
            square,
            reverse_opponent_pawn_move_dir,
            file_movement,
        ) {
            None => false,
            Some(possibly_attacking_square) => {
                match crate::encoding::get_contents(self.query_square(possibly_attacking_square)) {
                    None => false,
                    Some(piece) => {
                        let kind = crate::encoding::get_piece_type(piece);
                        crate::encoding::get_color(piece) != defending_color && (kind
                            == EnumPiecesUncolored::Pawn || kind == EnumPiecesUncolored::Bishop
                            || kind == EnumPiecesUncolored::Queen || kind
                            == EnumPiecesUncolored::King)
                    },
                }
            },
        }
    }

    /// Whether an enemy piece currently threatens `square`, checked in
    /// a fixed order with early exit: pawns (and diagonal-adjacent
    /// attackers) first, then knights, then the diagonal rays, then the
    /// orthogonal rays. Only the first occupied square of each ray
    /// matters.
    pub fn sees_obvious_attack(&self, defending_color: EnumColor, square: i8) -> (r: bool)
        requires
            self@.board_contents_wf(),
            is_square_code(square as int),
        ensures
            r == sees_attack(self@.board, defending_color, square as int),
    {
        if self.pawn_threat_check(defending_color, square, crate::types::SmallOffset::MinusOne) {
            return true;
        }
        if self.pawn_threat_check(defending_color, square, crate::types::SmallOffset::PlusOne) {
            return true;
        }

        let knight_squares = crate::geometry::get_knight_offset_squares(square);
        let mut i: usize = 0;
        while i < knight_squares.len()
            invariant
                self@.board_contents_wf(),
                knight_squares@ == knight_jump_squares(square as int),
                forall|j: int|
                    0 <= j < knight_squares@.len() ==> is_square_code(
                        #[trigger] knight_squares@[j] as int,
                    ),
                0 <= i <= knight_squares@.len(),
                forall|j: int|
                    0 <= j < i ==> !enemy_knight_at(
                        self@.board,
                        defending_color,
                        #[trigger] knight_squares@[j] as int,
                    ),
            decreases knight_squares@.len() - i,
        {
            match crate::encoding::get_contents(self.query_square(knight_squares[i])) {
                None => {},
                Some(piece) => {
                    if crate::encoding::get_color(piece) != defending_color
                        && crate::encoding::get_piece_type(piece) == EnumPiecesUncolored::Knight {
                        proof {
                            assert(enemy_knight_at(
                                self@.board,
                                defending_color,
                                knight_jump_squares(square as int)[i as int] as int,
                            ));
                        }
                        return true;
                    }
                },
            }
            i = i + 1;
        }

        let bishop_rays = crate::geometry::get_bishop_rays(square);
        let mut i: usize = 0;
        while i < bishop_rays.len()
            invariant
                self@.board_contents_wf(),
                is_square_code(square as int),
                bishop_rays@ == crate::geometry::rays_from_directions(square, bishop_directions()),
                0 <= i <= bishop_rays@.len(),
                forall|j: int|
                    0 <= j < i ==> !ray_attack(
                        self@.board,
                        defending_color,
                        square as int,
                        offset_amount((#[trigger] bishop_directions()[j]).0),
                        offset_amount(bishop_directions()[j].1),
                        EnumPiecesUncolored::Bishop,
                        true,
                        8,
                    ),
            decreases bishop_rays@.len() - i,
        {
            if self.ray_sees_attack(
                defending_color,
                bishop_rays[i],
                EnumPiecesUncolored::Bishop,
                true,
                8,
            ) {
                proof {
                    assert(ray_attack(
                        self@.board,
                        defending_color,
                        square as int,
                        offset_amount(
                            slider_directions(EnumPiecesUncolored::Bishop)[i as int].0,
                        ),
                        offset_amount(
                            slider_directions(EnumPiecesUncolored::Bishop)[i as int].1,
                        ),
                        EnumPiecesUncolored::Bishop,
                        true,
                        8,
                    ));
                }
                return true;
            }
            i = i + 1;
        }

        let rook_rays = crate::geometry::get_rook_rays(square);
        let mut i: usize = 0;
        while i < rook_rays.len()
            invariant
                self@.board_contents_wf(),
                is_square_code(square as int),
                rook_rays@ == crate::geometry::rays_from_directions(square, rook_directions()),
                0 <= i <= rook_rays@.len(),
                !pawn_attack(self@.board, defending_color, square as int),
                !knight_attack(self@.board, defending_color, square as int),
                !slider_attack(
                    self@.board,
                    defending_color,
                    square as int,
                    EnumPiecesUncolored::Bishop,
                ),
                forall|j: int|
                    0 <= j < i ==> !ray_attack(
                        self@.board,
                        defending_color,
                        square as int,
                        offset_amount((#[trigger] rook_directions()[j]).0),
                        offset_amount(rook_directions()[j].1),
                        EnumPiecesUncolored::Rook,
                        true,
                        8,
                    ),
            decreases rook_rays@.len() - i,
        {
            if self.ray_sees_attack(
                defending_color,
                rook_rays[i],
                EnumPiecesUncolored::Rook,
                true,
                8,
            ) {
                proof {
                    assert(ray_attack(
                        self@.board,
                        defending_color,
                        square as int,
                        offset_amount(slider_directions(EnumPiecesUncolored::Rook)[i as int].0),
                        offset_amount(slider_directions(EnumPiecesUncolored::Rook)[i as int].1),
                        EnumPiecesUncolored::Rook,
                        true,
                        8,
                    ));
                }
                return true;
            }
            i = i + 1;
        }

        false
    }

}

impl crate::board::PositionModel {
    /// The square the side to move's king stands on, per the cache.
    pub open spec fn own_king_square(self) -> int {
        match self.moving_side {
            EnumColor::White => self.w_king_square as int,
            EnumColor::Black => self.b_king_square as int,
        }
    }

    /// The square the waiting side's king stands on, per the cache.
    pub open spec fn enemy_king_square(self) -> int {
        match self.moving_side {
            EnumColor::White => self.b_king_square as int,
            EnumColor::Black => self.w_king_square as int,
        }
    }

    /// Whether the side to move is in check.
    pub open spec fn mover_in_check_spec(self) -> bool {
        sees_attack(self.board, self.moving_side, self.own_king_square())
    }

    /// Whether the side that is not moving is in check.
    pub open spec fn non_mover_in_check_spec(self) -> bool {
        sees_attack(self.board, opposite_color(self.moving_side), self.enemy_king_square())
    }
}

impl Position {
    /// Whether the side to move is in check.
    pub fn mover_in_check(&self) -> (r: bool)
        requires
            self@.board_contents_wf(),
            is_square_code(self@.w_king_square as int),
            is_square_code(self@.b_king_square as int),
        ensures
            r == self@.mover_in_check_spec(),
    {
        let relevant_king_square = match self.get_color() {
            EnumColor::White => self.get_w_king_square(),
            EnumColor::Black => self.get_b_king_square(),
        };
        self.sees_obvious_attack(self.get_color(), relevant_king_square)
    }

    /// Whether the side that is not moving is in check.
    pub fn non_mover_in_check(&self) -> (r: bool)
        requires
            self@.board_contents_wf(),
            is_square_code(self@.w_king_square as int),
            is_square_code(self@.b_king_square as int),
        ensures
            r == self@.non_mover_in_check_spec(),
    {
        let relevant_king_square = match self.get_color() {
            EnumColor::White => self.get_b_king_square(),
            EnumColor::Black => self.get_w_king_square(),
        };
        self.sees_obvious_attack(self.get_opposite_color(), relevant_king_square)
    }
}


/// The rank the defender's opponent promotes on: where a pawn
/// capturing onto it must promote.
pub open spec fn opponent_promo_rank(defender: EnumColor) -> int {
    match defender {
        EnumColor::White => 0,
        EnumColor::Black => 7,
    }
}

/// The capture moves of an enemy pawn standing a diagonal step (file
/// direction `df`) toward the enemy side of `sq`, onto `sq`: four
/// promotion captures when `sq` is on the promotion rank, one standard
/// capture otherwise.
pub open spec fn pawn_attacker_moves(b: Seq<i8>, defender: EnumColor, sq: int, df: int) -> Seq<
    ChessMove,
> {
    let dr = pawn_threat_rank_dir(defender);
    if !offset_in_board(sq, dr, df) {
        Seq::empty()
    } else {
        let t = offset_square(sq, dr, df);
        let c = b[t] as int;
        if c >= 0 && code_color(c) != defender && code_kind(c) == EnumPiecesUncolored::Pawn {
            if square_rank_index(sq) == opponent_promo_rank(defender) {
                crate::movegen::promotion_moves(opposite_color(defender), t as i8, sq as i8)
            } else {
                seq![crate::movegen::std_move(t as i8, sq as i8)]
            }
        } else {
            Seq::empty()
        }
    }
}

/// The capture moves of enemy knights on the first `n` jump squares of
/// `sq`, onto `sq`.
pub open spec fn knight_attacker_moves_upto(b: Seq<i8>, defender: EnumColor, sq: int, n: int) -> Seq<
    ChessMove,
>
    decreases n,
{
    if n <= 0 {
        Seq::empty()
    } else {
        let prev = knight_attacker_moves_upto(b, defender, sq, n - 1);
        let t = knight_jump_squares(sq)[n - 1] as int;
        if enemy_knight_at(b, defender, t) {
            prev.push(crate::movegen::std_move(t as i8, sq as i8))
        } else {
            prev
        }
    }
}

/// The capture move of the first occupied square along one ray, onto
/// the ray's root `sq`, when that square holds an enemy `slider` or
/// queen — or an enemy king on the very first step.
pub open spec fn ray_attacker_moves(
    b: Seq<i8>,
    defender: EnumColor,
    sq: i8,
    cur: int,
    dr: int,
    df: int,
    slider: EnumPiecesUncolored,
    king_relevant: bool,
    fuel: nat,
) -> Seq<ChessMove>
    decreases fuel,
{
    if fuel == 0 {
        Seq::empty()
    } else if !offset_in_board(cur, dr, df) {
        Seq::empty()
    } else {
        let t = offset_square(cur, dr, df);
        let c = b[t] as int;
        if c < 0 {
            ray_attacker_moves(b, defender, sq, t, dr, df, slider, false, (fuel - 1) as nat)
        } else if code_color(c) != defender && (code_kind(c) == slider || code_kind(c)
            == EnumPiecesUncolored::Queen || (code_kind(c) == EnumPiecesUncolored::King
            && king_relevant)) {
            seq![crate::movegen::std_move(t as i8, sq)]
        } else {
            Seq::empty()
        }
    }
}

/// The ray-borne capture moves onto `sq` along the first `n`
/// directions of the slider family.
pub open spec fn slider_attacker_moves_upto(
    b: Seq<i8>,
    defender: EnumColor,
    sq: i8,
    slider: EnumPiecesUncolored,
    n: int,
) -> Seq<ChessMove>
    decreases n,
{
    if n <= 0 {
        Seq::empty()
    } else {
        slider_attacker_moves_upto(b, defender, sq, slider, n - 1) + ray_attacker_moves(
            b,
            defender,
            sq,
            sq as int,
            offset_amount(slider_directions(slider)[n - 1].0),
            offset_amount(slider_directions(slider)[n - 1].1),
            slider,
            true,
            8,
        )
    }
}

/// Every move that would capture on `sq`: pawn captures (with
/// promotion expansion), knight captures, then the first occupant of
/// each diagonal and orthogonal ray, in scan order.
pub open spec fn obvious_attackers_spec(b: Seq<i8>, defender: EnumColor, sq: int) -> Seq<
    ChessMove,
> {
    pawn_attacker_moves(b, defender, sq, -1) + pawn_attacker_moves(b, defender, sq, 1)
        + knight_attacker_moves_upto(b, defender, sq, knight_jump_squares(sq).len() as int)
        + slider_attacker_moves_upto(b, defender, sq as i8, EnumPiecesUncolored::Bishop, 4)
        + slider_attacker_moves_upto(b, defender, sq as i8, EnumPiecesUncolored::Rook, 4)
}

impl Position {
    /// Append the capture of the enemy pawn a diagonal step toward the
    /// enemy side, if it stands there.
    fn pawn_attacker_gen(
        &self,
        defending_color: EnumColor,
        square: i8,
        file_movement: crate::types::SmallOffset,
        moves: &mut Vec<ChessMove>,
    )
        requires
            self@.board_contents_wf(),
            is_square_code(square as int),
        ensures
            final(moves)@ == old(moves)@ + pawn_attacker_moves(
                self@.board,
                defending_color,
                square as int,
                offset_amount(file_movement),
            ),
    {
        let opponent_pawn_move_dir = match defending_color {
            EnumColor::White => crate::types::SmallOffset::PlusOne,
            EnumColor::Black => crate::types::SmallOffset::MinusOne,
        };
        let opponent_pawn_promotion_rank: i8 = match defending_color {
            EnumColor::White => 0,
            EnumColor::Black => 7,
        };
        match crate::geometry::try_get_offset_square(
            square,
            opponent_pawn_move_dir,
            file_movement,
        ) {
            None => {},
            Some(possibly_attacking_square) => {
                match crate::encoding::get_contents(self.query_square(possibly_attacking_square)) {
                    None => {},
                    Some(piece) => {
                        if crate::encoding::get_color(piece) != defending_color
                            && crate::encoding::get_piece_type(piece)
                            == EnumPiecesUncolored::Pawn {
                            if square / 8 != opponent_pawn_promotion_rank {
                                moves.push(
                                    ChessMove::StandardMove(
                                        crate::types::StandardMove {
                                            from_square: possibly_attacking_square,
                                            to_square: square,
                                        },
                                    ),
                                );
                            } else {
                                Self::push_promotions(
                                    moves,
                                    crate::encoding::get_opposite_color(defending_color),
                                    possibly_attacking_square,
                                    square,
                                );
                            }
                        }
                    },
                }
            },
        }
        proof {
            assert(final(moves)@ =~= old(moves)@ + pawn_attacker_moves(
                self@.board,
                defending_color,
                square as int,
                offset_amount(file_movement),
            ));
        }
    }

    /// The capture onto `sq` by the first occupant of the rest of one
    /// ray, if it is a relevant enemy attacker.
    fn ray_attacker_gen(
        &self,
        defending_color: EnumColor,
        square: i8,
        ray: Ray,
        slider: EnumPiecesUncolored,
        king_relevant: bool,
        fuel: u8,
    ) -> (r: Vec<ChessMove>)
        requires
            self@.board_contents_wf(),
            is_square_code(ray.curr_pos as int),
        ensures
            r@ == ray_attacker_moves(
                self@.board,
                defending_color,
                square,
                ray.curr_pos as int,
                offset_amount(ray.direction.0),
                offset_amount(ray.direction.1),
                slider,
                king_relevant,
                fuel as nat,
            ),
        decreases fuel,
    {
        let mut moves: Vec<ChessMove> = Vec::new();
        if fuel == 0 {
            return moves;
        }
        let mut walker = ray;
        match walker.next() {
            None => {},
            Some(possibly_attacking_square) => {
                match crate::encoding::get_contents(self.query_square(possibly_attacking_square)) {
                    None => {
                        return self.ray_attacker_gen(
                            defending_color,
                            square,
                            walker,
                            slider,
                            false,
                            fuel - 1,
                        );
                    },
                    Some(piece) => {
                        let kind = crate::encoding::get_piece_type(piece);
                        if crate::encoding::get_color(piece) != defending_color && (kind == slider
                            || kind == EnumPiecesUncolored::Queen || (kind
                            == EnumPiecesUncolored::King && king_relevant)) {
                            moves.push(
                                ChessMove::StandardMove(
                                    crate::types::StandardMove {
                                        from_square: possibly_attacking_square,
                                        to_square: square,
                                    },
                                ),
                            );
                        }
                    },
                }
            },
        }
        moves
    }

    /// Every move that would capture on `square`, for use in
    /// check-explanation and forced-response logic: the collecting
    /// counterpart of `sees_obvious_attack`, in the same scan order,
    /// with a promoting pawn attacker expanded into its four choices.
    pub fn get_obvious_attackers(&self, defending_color: EnumColor, square: i8) -> (r: Vec<
        ChessMove,
    >)
        requires
            self@.board_contents_wf(),
            is_square_code(square as int),
        ensures
            r@ == obvious_attackers_spec(self@.board, defending_color, square as int),
    {
        let mut attacking_moves: Vec<ChessMove> = Vec::new();
        self.pawn_attacker_gen(
            defending_color,
            square,
            crate::types::SmallOffset::MinusOne,
            &mut attacking_moves,
        );
        self.pawn_attacker_gen(
            defending_color,
            square,
            crate::types::SmallOffset::PlusOne,
            &mut attacking_moves,
        );

        let ghost after_pawns = attacking_moves@;
        let knight_squares = crate::geometry::get_knight_offset_squares(square);
        let mut i: usize = 0;
        while i < knight_squares.len()
            invariant
                self@.board_contents_wf(),
                is_square_code(square as int),
                knight_squares@ == knight_jump_squares(square as int),
                forall|j: int|
                    0 <= j < knight_squares@.len() ==> is_square_code(
                        #[trigger] knight_squares@[j] as int,
                    ),
                0 <= i <= knight_squares@.len(),
                attacking_moves@ == after_pawns + knight_attacker_moves_upto(
                    self@.board,
                    defending_color,
                    square as int,
                    i as int,
                ),
            decreases knight_squares@.len() - i,
        {
            match crate::encoding::get_contents(self.query_square(knight_squares[i])) {
                None => {},
                Some(piece) => {
                    if crate::encoding::get_color(piece) != defending_color
                        && crate::encoding::get_piece_type(piece) == EnumPiecesUncolored::Knight {
                        attacking_moves.push(
                            ChessMove::StandardMove(
                                crate::types::StandardMove {
                                    from_square: knight_squares[i],
                                    to_square: square,
                                },
                            ),
                        );
                    }
                },
            }
            i = i + 1;
        }

        let ghost after_knights = attacking_moves@;
        let bishop_rays = crate::geometry::get_bishop_rays(square);
        let mut i: usize = 0;
        while i < bishop_rays.len()
            invariant
                self@.board_contents_wf(),
                is_square_code(square as int),
                bishop_rays@ == crate::geometry::rays_from_directions(
                    square,
                    crate::geometry::bishop_directions(),
                ),
                0 <= i <= bishop_rays@.len(),
                attacking_moves@ == after_knights + slider_attacker_moves_upto(
                    self@.board,
                    defending_color,
                    square,
                    EnumPiecesUncolored::Bishop,
                    i as int,
                ),
            decreases bishop_rays@.len() - i,
        {
            let mut ray_part = self.ray_attacker_gen(
                defending_color,
                square,
                bishop_rays[i],
                EnumPiecesUncolored::Bishop,
                true,
                8,
            );
            proof {
                assert(crate::geometry::bishop_directions()[i as int] == slider_directions(
                    EnumPiecesUncolored::Bishop,
                )[i as int]);
            }
            attacking_moves.append(&mut ray_part);
            i = i + 1;
        }

        let ghost after_bishops = attacking_moves@;
        let rook_rays = crate::geometry::get_rook_rays(square);
        let mut i: usize = 0;
        while i < rook_rays.len()
            invariant
                self@.board_contents_wf(),
                is_square_code(square as int),
                rook_rays@ == crate::geometry::rays_from_directions(
                    square,
                    crate::geometry::rook_directions(),
                ),
                0 <= i <= rook_rays@.len(),
                attacking_moves@ == after_bishops + slider_attacker_moves_upto(
                    self@.board,
                    defending_color,
                    square,
                    EnumPiecesUncolored::Rook,
                    i as int,
                ),
            decreases rook_rays@.len() - i,
        {
            let mut ray_part = self.ray_attacker_gen(
                defending_color,
                square,
                rook_rays[i],
                EnumPiecesUncolored::Rook,
                true,
                8,
            );
            proof {
                assert(crate::geometry::rook_directions()[i as int] == slider_directions(
                    EnumPiecesUncolored::Rook,
                )[i as int]);
            }
            attacking_moves.append(&mut ray_part);
            i = i + 1;
        }

        proof {
            assert(attacking_moves@ =~= obvious_attackers_spec(
                self@.board,
                defending_color,
                square as int,
            ));
        }
        attacking_moves
    }
}

} // verus!
