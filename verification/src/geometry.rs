//! Board geometry: shifting ranks, files and squares by small offsets,
//! signed gaps between coordinates, the fixed offset sets for king and
//! knight moves, the ray directions for the sliding pieces, and the
//! `Ray` walker that steps from a square toward the board edge.

use vstd::prelude::*;

use crate::encoding::file_index;
use crate::encoding::file_of_index;
use crate::encoding::is_square_code;
use crate::encoding::rank_index;
use crate::encoding::rank_of_index;
use crate::encoding::square_file_index;
use crate::encoding::square_rank_index;
use crate::types::EnumFile;
use crate::types::EnumRank;
use crate::types::SmallOffset;

verus! {

/// The signed displacement an offset stands for.
pub open spec fn offset_amount(off: SmallOffset) -> int {
    match off {
        SmallOffset::MinusTwo => -2,
        SmallOffset::MinusOne => -1,
        SmallOffset::Stay => 0,
        SmallOffset::PlusOne => 1,
        SmallOffset::PlusTwo => 2,
    }
}

/// Whether stepping from `sq` by `dr` ranks and `df` files stays on the
/// board.
pub open spec fn offset_in_board(sq: int, dr: int, df: int) -> bool
    recommends
        is_square_code(sq),
{
    &&& 0 <= square_rank_index(sq) + dr < 8
    &&& 0 <= square_file_index(sq) + df < 8
}

/// The square code reached by stepping from `sq` by `dr` ranks and `df`
/// files.
pub open spec fn offset_square(sq: int, dr: int, df: int) -> int
    recommends
        is_square_code(sq),
        offset_in_board(sq, dr, df),
{
    sq + 8 * dr + df
}

/// Stepping by (`dr`, `df`) adds `dr` to the rank index and `df` to
/// the file index of a square.
pub proof fn lemma_offset_square_coords(sq: int, dr: int, df: int)
    requires
        is_square_code(sq),
        offset_in_board(sq, dr, df),
    ensures
        square_rank_index(offset_square(sq, dr, df)) == square_rank_index(sq) + dr,
        square_file_index(offset_square(sq, dr, df)) == square_file_index(sq) + df,
        is_square_code(offset_square(sq, dr, df)),
{
    let t = offset_square(sq, dr, df);
    vstd::arithmetic::div_mod::lemma_fundamental_div_mod(sq, 8);
    assert(t == (square_rank_index(sq) + dr) * 8 + (square_file_index(sq) + df));
    vstd::arithmetic::div_mod::lemma_fundamental_div_mod_converse(
        t,
        8,
        square_rank_index(sq) + dr,
        square_file_index(sq) + df,
    );
}

/// The displacement an offset stands for, as a machine integer.
pub fn offset_to_amount(off: SmallOffset) -> (i: i8)
    ensures
        i == offset_amount(off),
{
    match off {
        SmallOffset::MinusTwo => -2,
        SmallOffset::MinusOne => -1,
        SmallOffset::Stay => 0,
        SmallOffset::PlusOne => 1,
        SmallOffset::PlusTwo => 2,
    }
}

/// Shift a rank by an offset, or nothing if that falls off the board.
pub fn rank_shift(rank: EnumRank, shift: SmallOffset) -> (r: Option<EnumRank>)
    ensures
        r matches Some(nr) ==> 0 <= rank_index(rank) + offset_amount(shift) < 8 && nr
            == rank_of_index(rank_index(rank) + offset_amount(shift)),
        r is None ==> !(0 <= rank_index(rank) + offset_amount(shift) < 8),
{
    let i: i8 = crate::encoding::rank_to_index(rank) + offset_to_amount(shift);
    match i {
        0 => Some(EnumRank::One),
        1 => Some(EnumRank::Two),
        2 => Some(EnumRank::Three),
        3 => Some(EnumRank::Four),
        4 => Some(EnumRank::Five),
        5 => Some(EnumRank::Six),
        6 => Some(EnumRank::Seven),
        7 => Some(EnumRank::Eight),
        _ => None,
    }
}

/// Shift a file by an offset, or nothing if that falls off the board.
pub fn file_shift(file: EnumFile, shift: SmallOffset) -> (r: Option<EnumFile>)
    ensures
        r matches Some(nf) ==> 0 <= file_index(file) + offset_amount(shift) < 8 && nf
            == file_of_index(file_index(file) + offset_amount(shift)),
        r is None ==> !(0 <= file_index(file) + offset_amount(shift) < 8),
{
    let i: i8 = crate::encoding::file_to_index(file) + offset_to_amount(shift);
    match i {
        0 => Some(EnumFile::A),
        1 => Some(EnumFile::B),
        2 => Some(EnumFile::C),
        3 => Some(EnumFile::D),
        4 => Some(EnumFile::E),
        5 => Some(EnumFile::F),
        6 => Some(EnumFile::G),
        7 => Some(EnumFile::H),
        _ => None,
    }
}

/// The signed number of ranks from `rank` up to `other`.
pub fn rank_gap(rank: EnumRank, other: EnumRank) -> (gap: i8)
    ensures
        gap == rank_index(other) - rank_index(rank),
{
    crate::encoding::rank_to_index(other) - crate::encoding::rank_to_index(rank)
}

/// The signed number of files from `file` over to `other`.
pub fn file_gap(file: EnumFile, other: EnumFile) -> (gap: i8)
    ensures
        gap == file_index(other) - file_index(file),
{
    crate::encoding::file_to_index(other) - crate::encoding::file_to_index(file)
}

/// The (rank gap, file gap) pair from `sq` to `other`.
pub fn get_offset(sq: i8, other: i8) -> (r: (i8, i8))
    requires
        is_square_code(sq as int),
        is_square_code(other as int),
    ensures
        r.0 == square_rank_index(other as int) - square_rank_index(sq as int),
        r.1 == square_file_index(other as int) - square_file_index(sq as int),
{
    (other / 8 - sq / 8, other % 8 - sq % 8)
}

/// Step from a square by a rank offset and a file offset, or nothing if
/// that leaves the board.
pub fn try_get_offset_square(sq: i8, rank_offset: SmallOffset, file_offset: SmallOffset) -> (r:
    Option<i8>)
    requires
        is_square_code(sq as int),
    ensures
        r matches Some(s) ==> offset_in_board(
            sq as int,
            offset_amount(rank_offset),
            offset_amount(file_offset),
        ) && s == offset_square(sq as int, offset_amount(rank_offset), offset_amount(file_offset))
            && is_square_code(s as int),
        r is None ==> !offset_in_board(
            sq as int,
            offset_amount(rank_offset),
            offset_amount(file_offset),
        ),
{
    let rank_part: i8 = sq / 8;
    let file_part: i8 = sq % 8;
    let new_rank: i8 = rank_part + offset_to_amount(rank_offset);
    let new_file: i8 = file_part + offset_to_amount(file_offset);
    if 0 <= new_rank && new_rank < 8 && 0 <= new_file && new_file < 8 {
        Some(8 * new_rank + new_file)
    } else {
        None
    }
}

/// A walker that yields the squares extending from (and excluding) its
/// starting square in a fixed direction, until the board edge.
#[derive(Clone, Copy, Debug)]
pub struct Ray {
    pub curr_pos: i8,
    pub direction: (SmallOffset, SmallOffset),
}

impl Ray {
    /// Advance one step and yield the square stepped onto, or nothing
    /// once the step would leave the board.
    pub fn next(&mut self) -> (r: Option<i8>)
        requires
            is_square_code(old(self).curr_pos as int),
        ensures
            final(self).direction == old(self).direction,
            ({
                let sq = old(self).curr_pos as int;
                let dr = offset_amount(old(self).direction.0);
                let df = offset_amount(old(self).direction.1);
                if offset_in_board(sq, dr, df) {
                    &&& r == Some(offset_square(sq, dr, df) as i8)
                    &&& final(self).curr_pos == offset_square(sq, dr, df)
                    &&& is_square_code(final(self).curr_pos as int)
                } else {
                    &&& r is None
                    &&& final(self).curr_pos == old(self).curr_pos
                }
            }),
    {
        match try_get_offset_square(self.curr_pos, self.direction.0, self.direction.1) {
            None => None,
            Some(new_square) => {
                self.curr_pos = new_square;
                Some(new_square)
            },
        }
    }
}

/// Build the ray walker rooted at `sq` heading in the given direction.
pub fn generate_ray(sq: i8, rank_offset: SmallOffset, file_offset: SmallOffset) -> (r: Ray)
    ensures
        r == (Ray { curr_pos: sq, direction: (rank_offset, file_offset) }),
{
    Ray { curr_pos: sq, direction: (rank_offset, file_offset) }
}

/// The direction of the ray from `from` toward `to`: the componentwise
/// sign of the gap when the two squares share a rank, a file or a
/// diagonal, and nothing otherwise (or when they coincide).
pub open spec fn ray_direction_to(from: int, to: int) -> Option<(int, int)>
    recommends
        is_square_code(from),
        is_square_code(to),
{
    let dr = square_rank_index(to) - square_rank_index(from);
    let df = square_file_index(to) - square_file_index(from);
    if dr == 0 && df == 0 {
        None
    } else if dr == 0 || df == 0 || dr == df || dr == -df {
        Some((if dr > 0 { 1int } else if dr < 0 { -1int } else { 0int },
              if df > 0 { 1int } else if df < 0 { -1int } else { 0int }))
    } else {
        None
    }
}

/// The ray from `from` toward `to`, when the two squares are aligned.
pub fn try_get_ray_to(from: i8, to: i8) -> (r: Option<Ray>)
    requires
        is_square_code(from as int),
        is_square_code(to as int),
    ensures
        r matches Some(ray) ==> ray_direction_to(from as int, to as int) matches Some(d)
            && ray.curr_pos == from && offset_amount(ray.direction.0) == d.0 && offset_amount(
            ray.direction.1,
        ) == d.1,
        r is None ==> ray_direction_to(from as int, to as int) is None,
{
    let (rank_offset, file_offset) = get_offset(from, to);
    if rank_offset == 0 && file_offset == 0 {
        None
    } else if rank_offset == 0 || file_offset == 0 || rank_offset == file_offset || rank_offset
        == -file_offset {
        let rank_dir = if rank_offset > 0 {
            SmallOffset::PlusOne
        } else if rank_offset < 0 {
            SmallOffset::MinusOne
        } else {
            SmallOffset::Stay
        };
        let file_dir = if file_offset > 0 {
            SmallOffset::PlusOne
        } else if file_offset < 0 {
            SmallOffset::MinusOne
        } else {
            SmallOffset::Stay
        };
        Some(Ray { curr_pos: from, direction: (rank_dir, file_dir) })
    } else {
        None
    }
}

/// The ray from `from` directly away from `to`, when the two squares
/// are aligned.
pub fn try_get_ray_away(from: i8, to: i8) -> (r: Option<Ray>)
    requires
        is_square_code(from as int),
        is_square_code(to as int),
    ensures
        r matches Some(ray) ==> ray_direction_to(from as int, to as int) matches Some(d)
            && ray.curr_pos == from && offset_amount(ray.direction.0) == -d.0 && offset_amount(
            ray.direction.1,
        ) == -d.1,
        r is None ==> ray_direction_to(from as int, to as int) is None,
{
    let (rank_offset, file_offset) = get_offset(from, to);
    if rank_offset == 0 && file_offset == 0 {
        None
    } else if rank_offset == 0 || file_offset == 0 || rank_offset == file_offset || rank_offset
        == -file_offset {
        let rank_dir = if rank_offset > 0 {
            SmallOffset::MinusOne
        } else if rank_offset < 0 {
            SmallOffset::PlusOne
        } else {
            SmallOffset::Stay
        };
        let file_dir = if file_offset > 0 {
            SmallOffset::MinusOne
        } else if file_offset < 0 {
            SmallOffset::PlusOne
        } else {
            SmallOffset::Stay
        };
        Some(Ray { curr_pos: from, direction: (rank_dir, file_dir) })
    } else {
        None
    }
}

/// The eight one-square king steps, in the fixed order the generators
/// scan them.
pub open spec fn king_offsets() -> Seq<(SmallOffset, SmallOffset)> {
    seq![
        (SmallOffset::PlusOne, SmallOffset::MinusOne),
        (SmallOffset::PlusOne, SmallOffset::Stay),
        (SmallOffset::PlusOne, SmallOffset::PlusOne),
        (SmallOffset::Stay, SmallOffset::MinusOne),
        (SmallOffset::Stay, SmallOffset::PlusOne),
        (SmallOffset::MinusOne, SmallOffset::MinusOne),
        (SmallOffset::MinusOne, SmallOffset::Stay),
        (SmallOffset::MinusOne, SmallOffset::PlusOne),
    ]
}

/// The eight knight jumps, in the fixed order the generators scan them.
pub open spec fn knight_offsets() -> Seq<(SmallOffset, SmallOffset)> {
    seq![
        (SmallOffset::PlusTwo, SmallOffset::PlusOne),
        (SmallOffset::PlusTwo, SmallOffset::MinusOne),
        (SmallOffset::PlusOne, SmallOffset::PlusTwo),
        (SmallOffset::PlusOne, SmallOffset::MinusTwo),
        (SmallOffset::MinusOne, SmallOffset::PlusTwo),
        (SmallOffset::MinusOne, SmallOffset::MinusTwo),
        (SmallOffset::MinusTwo, SmallOffset::PlusOne),
        (SmallOffset::MinusTwo, SmallOffset::MinusOne),
    ]
}

/// The four diagonal ray directions.
pub open spec fn bishop_directions() -> Seq<(SmallOffset, SmallOffset)> {
    seq![
        (SmallOffset::PlusOne, SmallOffset::PlusOne),
        (SmallOffset::PlusOne, SmallOffset::MinusOne),
        (SmallOffset::MinusOne, SmallOffset::PlusOne),
        (SmallOffset::MinusOne, SmallOffset::MinusOne),
    ]
}

/// The four orthogonal ray directions.
pub open spec fn rook_directions() -> Seq<(SmallOffset, SmallOffset)> {
    seq![
        (SmallOffset::PlusOne, SmallOffset::Stay),
        (SmallOffset::MinusOne, SmallOffset::Stay),
        (SmallOffset::Stay, SmallOffset::PlusOne),
        (SmallOffset::Stay, SmallOffset::MinusOne),
    ]
}

/// All eight ray directions, diagonals first.
pub open spec fn queen_directions() -> Seq<(SmallOffset, SmallOffset)> {
    bishop_directions() + rook_directions()
}

/// The king steps as a vector, in the order of `king_offsets`.
pub fn king_offset_list() -> (v: Vec<(SmallOffset, SmallOffset)>)
    ensures
        v@ == king_offsets(),
{
    let mut v: Vec<(SmallOffset, SmallOffset)> = Vec::new();
    v.push((SmallOffset::PlusOne, SmallOffset::MinusOne));
    v.push((SmallOffset::PlusOne, SmallOffset::Stay));
    v.push((SmallOffset::PlusOne, SmallOffset::PlusOne));
    v.push((SmallOffset::Stay, SmallOffset::MinusOne));
    v.push((SmallOffset::Stay, SmallOffset::PlusOne));
    v.push((SmallOffset::MinusOne, SmallOffset::MinusOne));
    v.push((SmallOffset::MinusOne, SmallOffset::Stay));
    v.push((SmallOffset::MinusOne, SmallOffset::PlusOne));
    proof {
        assert(v@ =~= king_offsets());
    }
    v
}

/// The knight jumps as a vector, in the order of `knight_offsets`.
pub fn knight_offset_list() -> (v: Vec<(SmallOffset, SmallOffset)>)
    ensures
        v@ == knight_offsets(),
{
    let mut v: Vec<(SmallOffset, SmallOffset)> = Vec::new();
    v.push((SmallOffset::PlusTwo, SmallOffset::PlusOne));
    v.push((SmallOffset::PlusTwo, SmallOffset::MinusOne));
    v.push((SmallOffset::PlusOne, SmallOffset::PlusTwo));
    v.push((SmallOffset::PlusOne, SmallOffset::MinusTwo));
    v.push((SmallOffset::MinusOne, SmallOffset::PlusTwo));
    v.push((SmallOffset::MinusOne, SmallOffset::MinusTwo));
    v.push((SmallOffset::MinusTwo, SmallOffset::PlusOne));
    v.push((SmallOffset::MinusTwo, SmallOffset::MinusOne));
    proof {
        assert(v@ =~= knight_offsets());
    }
    v
}

/// The diagonal directions as a vector, in the order of
/// `bishop_directions`.
pub fn bishop_direction_list() -> (v: Vec<(SmallOffset, SmallOffset)>)
    ensures
        v@ == bishop_directions(),
{
    let mut v: Vec<(SmallOffset, SmallOffset)> = Vec::new();
    v.push((SmallOffset::PlusOne, SmallOffset::PlusOne));
    v.push((SmallOffset::PlusOne, SmallOffset::MinusOne));
    v.push((SmallOffset::MinusOne, SmallOffset::PlusOne));
    v.push((SmallOffset::MinusOne, SmallOffset::MinusOne));
    proof {
        assert(v@ =~= bishop_directions());
    }
    v
}

/// The orthogonal directions as a vector, in the order of
/// `rook_directions`.
pub fn rook_direction_list() -> (v: Vec<(SmallOffset, SmallOffset)>)
    ensures
        v@ == rook_directions(),
{
    let mut v: Vec<(SmallOffset, SmallOffset)> = Vec::new();
    v.push((SmallOffset::PlusOne, SmallOffset::Stay));
    v.push((SmallOffset::MinusOne, SmallOffset::Stay));
    v.push((SmallOffset::Stay, SmallOffset::PlusOne));
    v.push((SmallOffset::Stay, SmallOffset::MinusOne));
    proof {
        assert(v@ =~= rook_directions());
    }
    v
}

/// All eight directions as a vector, in the order of `queen_directions`.
pub fn queen_direction_list() -> (v: Vec<(SmallOffset, SmallOffset)>)
    ensures
        v@ == queen_directions(),
{
    let mut v = bishop_direction_list();
    let mut rest = rook_direction_list();
    v.append(&mut rest);
    proof {
        assert(v@ =~= queen_directions());
    }
    v
}

/// The squares a king step away from `sq`, in scan order.
pub open spec fn offset_squares_upto(sq: int, offs: Seq<(SmallOffset, SmallOffset)>, n: int) -> Seq<
    i8,
>
    recommends
        is_square_code(sq),
        0 <= n <= offs.len(),
    decreases n,
{
    if n <= 0 {
        Seq::empty()
    } else {
        let prev = offset_squares_upto(sq, offs, n - 1);
        let dr = offset_amount(offs[n - 1].0);
        let df = offset_amount(offs[n - 1].1);
        if offset_in_board(sq, dr, df) {
            prev.push(offset_square(sq, dr, df) as i8)
        } else {
            prev
        }
    }
}

/// The on-board squares reached from `sq` by each offset in the list,
/// in list order.
pub fn squares_from_offsets(sq: i8, offs: &Vec<(SmallOffset, SmallOffset)>) -> (r: Vec<i8>)
    requires
        is_square_code(sq as int),
    ensures
        r@ == offset_squares_upto(sq as int, offs@, offs@.len() as int),
        forall|j: int| 0 <= j < r@.len() ==> is_square_code(#[trigger] r@[j] as int),
{
    let mut r: Vec<i8> = Vec::new();
    let mut i: usize = 0;
    while i < offs.len()
        invariant
            is_square_code(sq as int),
            0 <= i <= offs@.len(),
            r@ == offset_squares_upto(sq as int, offs@, i as int),
            forall|j: int| 0 <= j < r@.len() ==> is_square_code(#[trigger] r@[j] as int),
        decreases offs@.len() - i,
    {
        let (rank_offset, file_offset) = offs[i];
        match try_get_offset_square(sq, rank_offset, file_offset) {
            None => {},
            Some(offset_square) => r.push(offset_square),
        }
        i = i + 1;
    }
    r
}

/// The squares one king step from `sq`, in scan order.
pub fn get_king_offset_squares(sq: i8) -> (r: Vec<i8>)
    requires
        is_square_code(sq as int),
    ensures
        r@ == offset_squares_upto(sq as int, king_offsets(), 8),
        forall|j: int| 0 <= j < r@.len() ==> is_square_code(#[trigger] r@[j] as int),
{
    let offs = king_offset_list();
    squares_from_offsets(sq, &offs)
}

/// The squares one knight jump from `sq`, in scan order.
pub fn get_knight_offset_squares(sq: i8) -> (r: Vec<i8>)
    requires
        is_square_code(sq as int),
    ensures
        r@ == offset_squares_upto(sq as int, knight_offsets(), 8),
        forall|j: int| 0 <= j < r@.len() ==> is_square_code(#[trigger] r@[j] as int),
{
    let offs = knight_offset_list();
    squares_from_offsets(sq, &offs)
}

/// The rays rooted at `sq` in each direction of the list, in list
/// order.
pub open spec fn rays_from_directions(sq: i8, dirs: Seq<(SmallOffset, SmallOffset)>) -> Seq<Ray> {
    dirs.map(|i: int, d: (SmallOffset, SmallOffset)| Ray { curr_pos: sq, direction: d })
}

/// Root a ray at `sq` for every direction in the list.
pub fn rays_in_directions(sq: i8, dirs: &Vec<(SmallOffset, SmallOffset)>) -> (r: Vec<Ray>)
    ensures
        r@ == rays_from_directions(sq, dirs@),
{
    let mut r: Vec<Ray> = Vec::new();
    let mut i: usize = 0;
    while i < dirs.len()
        invariant
            0 <= i <= dirs@.len(),
            r@ == rays_from_directions(sq, dirs@.take(i as int)),
        decreases dirs@.len() - i,
    {
        let (rank_offset, file_offset) = dirs[i];
        r.push(Ray { curr_pos: sq, direction: (rank_offset, file_offset) });
        proof {
            assert(r@ =~= rays_from_directions(sq, dirs@.take(i as int + 1)));
        }
        i = i + 1;
    }
    proof {
        assert(dirs@.take(dirs@.len() as int) =~= dirs@);
    }
    r
}

/// The four diagonal rays out of `sq`.
pub fn get_bishop_rays(sq: i8) -> (r: Vec<Ray>)
    ensures
        r@ == rays_from_directions(sq, bishop_directions()),
{
    let dirs = bishop_direction_list();
    rays_in_directions(sq, &dirs)
}

/// The four orthogonal rays out of `sq`.
pub fn get_rook_rays(sq: i8) -> (r: Vec<Ray>)
    ensures
        r@ == rays_from_directions(sq, rook_directions()),
{
    let dirs = rook_direction_list();
    rays_in_directions(sq, &dirs)
}

/// All eight rays out of `sq`, diagonals first.
pub fn get_queen_rays(sq: i8) -> (r: Vec<Ray>)
    ensures
        r@ == rays_from_directions(sq, queen_directions()),
{
    let dirs = queen_direction_list();
    rays_in_directions(sq, &dirs)
}

} // verus!
