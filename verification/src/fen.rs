//! The FEN reader: a finite-state machine walking the text byte by
//! byte through its six fields — piece placement, active color,
//! castling availability, en-passant target, half-move clock and
//! full-move number. Errors name the field being read. The castling
//! field only recognizes the standard-geometry letters `K`, `Q`, `k`
//! and `q`, a deliberate restriction: the move-application layer
//! itself supports arbitrary castling geometries.

use vstd::prelude::*;

use vstd::string::StringSliceAdditionalSpecFns;

use crate::board::Position;
use crate::board::PositionModel;
use crate::types::CastlingMove;
use crate::types::EnumColor;
use crate::types::EnumFile;

verus! {

/// Why a FEN text was rejected: the field being read when the failure
/// occurred, or the final structural validation.
#[derive(Clone, Copy, PartialEq, Eq, Structural, Debug)]
pub enum FenError {
    /// The text is not ASCII.
    Encoding,
    /// A piece or skip would leave the 64 squares of the board.
    PiecePlacement,
    /// An unreadable active-color character.
    ActiveColor,
    /// An unreadable castling-availability character.
    Castling,
    /// An unreadable en-passant rank character.
    EnPassant,
    /// An unreadable or oversized half-move clock.
    HalfMove,
    /// An unreadable or oversized full-move number.
    FullMove,
    /// No active color was read.
    MissingColor,
    /// No white king was placed.
    MissingWhiteKing,
    /// No black king was placed.
    MissingBlackKing,
    /// The fields parsed but the position breaks a structural
    /// invariant (a stale castling right, an impossible en-passant
    /// square, a pawn on a back rank, or an oversized counter).
    Invariant,
}

impl FenError {
    /// A human-readable description of the failure.
    pub fn message(&self) -> (r: String)
    {
        match *self {
            FenError::Encoding => "the text is not ascii".to_owned(),
            FenError::PiecePlacement => "the piece placement leaves the board".to_owned(),
            FenError::ActiveColor => "couldn't read active color".to_owned(),
            FenError::Castling => "unexpected character when reading castling rules".to_owned(),
            FenError::EnPassant => "unexpected character when trying to read ep rank".to_owned(),
            FenError::HalfMove => "unexpected character when trying to read halfmove count".to_owned(),
            FenError::FullMove => "unexpected character when trying to read fullmove count".to_owned(),
            FenError::MissingColor => "color is somehow missing".to_owned(),
            FenError::MissingWhiteKing => "white king undetected".to_owned(),
            FenError::MissingBlackKing => "black king undetected".to_owned(),
            FenError::Invariant => "the position breaks a structural invariant".to_owned(),
        }
    }
}

/// Which field the machine is reading, with the accumulators that
/// field needs: the next placement square, the en-passant file already
/// read, or the digits of a counter so far.
#[derive(Clone, Copy, PartialEq, Eq, Structural, Debug)]
pub enum FenMode {
    Pieces(i8),
    Color,
    Castling,
    EpFile,
    EpRank(EnumFile),
    HalfMoveLead,
    HalfMove(i8),
    FullMove(i16),
}

/// The machine's full state: the data gathered so far and the field
/// being read. King squares are `-1` until latched by a king letter.
#[verifier::ext_equal]
pub struct FenState {
    pub board: Seq<i8>,
    pub color: Option<EnumColor>,
    pub w_king: i8,
    pub b_king: i8,
    pub castle: Seq<Option<CastlingMove>>,
    pub ep: i8,
    pub half: i8,
    pub full: i16,
    pub mode: FenMode,
}

/// The state before any byte is read: an empty board, nothing latched,
/// reading the placement of square zero.
pub open spec fn fen_init() -> FenState {
    FenState {
        board: Seq::new(64, |i: int| -1i8),
        color: None,
        w_king: -1i8,
        b_king: -1i8,
        castle: seq![None, None, None, None],
        ep: -1i8,
        half: 0i8,
        full: 0i16,
        mode: FenMode::Pieces(0),
    }
}

/// FEN text lists rank Eight first; placement index `i` lands on this
/// board square.
pub open spec fn flip_square(i: int) -> int {
    8 * (7 - i / 8) + i % 8
}

/// The packed piece a placement letter stands for, if any.
pub open spec fn piece_of_byte(c: u8) -> Option<i8> {
    if c == 80 {  // 'P'
        Some(0i8)
    } else if c == 112 {  // 'p'
        Some(1i8)
    } else if c == 78 {  // 'N'
        Some(2i8)
    } else if c == 110 {  // 'n'
        Some(3i8)
    } else if c == 66 {  // 'B'
        Some(4i8)
    } else if c == 98 {  // 'b'
        Some(5i8)
    } else if c == 82 {  // 'R'
        Some(6i8)
    } else if c == 114 {  // 'r'
        Some(7i8)
    } else if c == 81 {  // 'Q'
        Some(8i8)
    } else if c == 113 {  // 'q'
        Some(9i8)
    } else if c == 75 {  // 'K'
        Some(10i8)
    } else if c == 107 {  // 'k'
        Some(11i8)
    } else {
        None
    }
}

/// Whether a byte is a decimal digit, and its value.
pub open spec fn is_digit_byte(c: u8) -> bool {
    48 <= c <= 57
}

/// The numeric value of a digit byte.
pub open spec fn digit_val(c: u8) -> int {
    c - 48
}

/// The file an en-passant file letter stands for, if any.
pub open spec fn file_of_byte(c: u8) -> Option<EnumFile> {
    if c == 97 {  // 'a'
        Some(EnumFile::A)
    } else if c == 98 {
        Some(EnumFile::B)
    } else if c == 99 {
        Some(EnumFile::C)
    } else if c == 100 {
        Some(EnumFile::D)
    } else if c == 101 {
        Some(EnumFile::E)
    } else if c == 102 {
        Some(EnumFile::F)
    } else if c == 103 {
        Some(EnumFile::G)
    } else if c == 104 {  // 'h'
        Some(EnumFile::H)
    } else {
        None
    }
}

/// The standard white kingside castling rule the letter `K` records.
pub open spec fn white_kingside_rule() -> CastlingMove {
    CastlingMove { king_from: 4, rook_from: 7, king_to: 6, rook_to: 5 }
}

/// The standard white queenside castling rule the letter `Q` records.
pub open spec fn white_queenside_rule() -> CastlingMove {
    CastlingMove { king_from: 4, rook_from: 0, king_to: 2, rook_to: 3 }
}

/// The standard black kingside castling rule the letter `k` records.
pub open spec fn black_kingside_rule() -> CastlingMove {
    CastlingMove { king_from: 60, rook_from: 63, king_to: 62, rook_to: 61 }
}

/// The standard black queenside castling rule the letter `q` records.
pub open spec fn black_queenside_rule() -> CastlingMove {
    CastlingMove { king_from: 60, rook_from: 56, king_to: 58, rook_to: 59 }
}

/// One step of the machine: what reading byte `c` in state `st` leads
/// to. Within the placement field, `/` and unrecognized bytes are
/// ignored, digits skip empty squares, king letters also latch the
/// king square, and a space moves to the next field; the later fields
/// reject bytes they cannot read.
pub open spec fn fen_step(st: FenState, c: u8) -> Result<FenState, FenError> {
    match st.mode {
        FenMode::Pieces(idx) => {
            if c == 32 {  // space
                Ok(FenState { mode: FenMode::Color, ..st })
            } else if c == 47 {  // '/'
                Ok(st)
            } else {
                match piece_of_byte(c) {
                    Some(piece) => {
                        if !(0 <= idx < 64) {
                            Err(FenError::PiecePlacement)
                        } else {
                            let target = flip_square(idx as int);
                            let st1 = FenState {
                                board: st.board.update(target, piece),
                                mode: FenMode::Pieces((idx + 1) as i8),
                                ..st
                            };
                            if c == 75 {  // 'K'
                                Ok(FenState { w_king: target as i8, ..st1 })
                            } else if c == 107 {  // 'k'
                                Ok(FenState { b_king: target as i8, ..st1 })
                            } else {
                                Ok(st1)
                            }
                        }
                    },
                    None => {
                        if is_digit_byte(c) {
                            if idx < 0 || idx + digit_val(c) > 64 {
                                Err(FenError::PiecePlacement)
                            } else {
                                Ok(
                                    FenState {
                                        mode: FenMode::Pieces((idx + digit_val(c)) as i8),
                                        ..st
                                    },
                                )
                            }
                        } else {
                            Ok(st)
                        }
                    },
                }
            }
        },
        FenMode::Color => {
            if c == 119 {  // 'w'
                Ok(FenState { color: Some(EnumColor::White), ..st })
            } else if c == 98 {  // 'b'
                Ok(FenState { color: Some(EnumColor::Black), ..st })
            } else if c == 32 {
                Ok(FenState { mode: FenMode::Castling, ..st })
            } else {
                Err(FenError::ActiveColor)
            }
        },
        FenMode::Castling => {
            if c == 75 {  // 'K'
                Ok(FenState { castle: st.castle.update(0, Some(white_kingside_rule())), ..st })
            } else if c == 81 {  // 'Q'
                Ok(FenState { castle: st.castle.update(1, Some(white_queenside_rule())), ..st })
            } else if c == 107 {  // 'k'
                Ok(FenState { castle: st.castle.update(2, Some(black_kingside_rule())), ..st })
            } else if c == 113 {  // 'q'
                Ok(FenState { castle: st.castle.update(3, Some(black_queenside_rule())), ..st })
            } else if c == 32 {
                Ok(FenState { mode: FenMode::EpFile, ..st })
            } else if c == 45 {  // '-'
                Ok(st)
            } else {
                Err(FenError::Castling)
            }
        },
        FenMode::EpFile => {
            match file_of_byte(c) {
                Some(file) => Ok(FenState { mode: FenMode::EpRank(file), ..st }),
                None => {
                    if c == 45 {  // '-'
                        Ok(st)
                    } else {
                        Ok(FenState { mode: FenMode::HalfMove(0), ..st })
                    }
                },
            }
        },
        FenMode::EpRank(file) => {
            if 49 <= c <= 56 {  // '1' ..= '8'
                let rank_idx = c - 49;
                Ok(
                    FenState {
                        ep: (8 * (rank_idx as int) + crate::encoding::file_index(file)) as i8,
                        mode: FenMode::HalfMoveLead,
                        ..st
                    },
                )
            } else {
                Err(FenError::EnPassant)
            }
        },
        FenMode::HalfMoveLead => {
            if c == 32 {
                Ok(FenState { mode: FenMode::HalfMove(0), ..st })
            } else if is_digit_byte(c) {
                Ok(FenState { mode: FenMode::HalfMove(digit_val(c) as i8), ..st })
            } else {
                Err(FenError::HalfMove)
            }
        },
        FenMode::HalfMove(acc) => {
            if c == 32 {
                Ok(FenState { half: acc, mode: FenMode::FullMove(0), ..st })
            } else if is_digit_byte(c) {
                if acc < 0 || 10 * acc + digit_val(c) > i8::MAX {
                    Err(FenError::HalfMove)
                } else {
                    Ok(FenState { mode: FenMode::HalfMove((10 * acc + digit_val(c)) as i8), ..st })
                }
            } else {
                Err(FenError::HalfMove)
            }
        },
        FenMode::FullMove(acc) => {
            if is_digit_byte(c) {
                if acc < 0 || 10 * acc + digit_val(c) > i16::MAX {
                    Err(FenError::FullMove)
                } else {
                    let full = (10 * acc + digit_val(c)) as i16;
                    Ok(FenState { full: full, mode: FenMode::FullMove(full), ..st })
                }
            } else {
                Err(FenError::FullMove)
            }
        },
    }
}

/// The machine run over the first `i` bytes of the text.
pub open spec fn fen_run(bytes: Seq<u8>, i: int) -> Result<FenState, FenError>
    decreases i,
{
    if i <= 0 {
        Ok(fen_init())
    } else {
        match fen_run(bytes, i - 1) {
            Err(e) => Err(e),
            Ok(st) => fen_step(st, bytes[i - 1]),
        }
    }
}

/// Once the machine errs, the error stands for the rest of the text.
pub proof fn lemma_fen_run_error(bytes: Seq<u8>, i: int, k: int)
    requires
        0 <= i <= k <= bytes.len(),
        fen_run(bytes, i) is Err,
    ensures
        fen_run(bytes, k) == fen_run(bytes, i),
    decreases k - i,
{
    if i < k {
        lemma_fen_run_error(bytes, i, k - 1);
    }
}

/// What the finished machine yields: an error if no color or either
/// king is missing or the position breaks a structural invariant, and
/// the parsed position otherwise.
pub open spec fn fen_finish(st: FenState) -> Result<PositionModel, FenError> {
    match st.color {
        None => Err(FenError::MissingColor),
        Some(true_color) => {
            if st.w_king < 0 {
                Err(FenError::MissingWhiteKing)
            } else if st.b_king < 0 {
                Err(FenError::MissingBlackKing)
            } else {
                let m = PositionModel {
                    board: st.board,
                    moving_side: true_color,
                    ply_count: st.half,
                    move_count: st.full,
                    castling: st.castle,
                    ep_data: st.ep,
                    w_king_square: st.w_king,
                    b_king_square: st.b_king,
                };
                if m.wf() {
                    Ok(m)
                } else {
                    Err(FenError::Invariant)
                }
            }
        },
    }
}

/// The whole translation: run the machine over every byte, then
/// validate.
pub open spec fn interpret_fen_spec(bytes: Seq<u8>) -> Result<PositionModel, FenError> {
    match fen_run(bytes, bytes.len() as int) {
        Err(e) => Err(e),
        Ok(st) => fen_finish(st),
    }
}

/// The executable machine state mirroring `FenState`.
struct FenMachine {
    board: [i8; 64],
    color: Option<EnumColor>,
    w_king: i8,
    b_king: i8,
    castle: [Option<CastlingMove>; 4],
    ep: i8,
    half: i8,
    full: i16,
    mode: FenMode,
}

impl View for FenMachine {
    type V = FenState;

    closed spec fn view(&self) -> FenState {
        FenState {
            board: self.board@,
            color: self.color,
            w_king: self.w_king,
            b_king: self.b_king,
            castle: self.castle@,
            ep: self.ep,
            half: self.half,
            full: self.full,
            mode: self.mode,
        }
    }
}

impl FenMachine {
    /// The machine before any byte is read.
    fn new() -> (r: FenMachine)
        ensures
            r@ == fen_init(),
    {
        let r = FenMachine {
            board: [
                -1, -1, -1, -1, -1, -1, -1, -1,
                -1, -1, -1, -1, -1, -1, -1, -1,
                -1, -1, -1, -1, -1, -1, -1, -1,
                -1, -1, -1, -1, -1, -1, -1, -1,
                -1, -1, -1, -1, -1, -1, -1, -1,
                -1, -1, -1, -1, -1, -1, -1, -1,
                -1, -1, -1, -1, -1, -1, -1, -1,
                -1, -1, -1, -1, -1, -1, -1, -1,
            ],
            color: None,
            w_king: -1,
            b_king: -1,
            castle: [None, None, None, None],
            ep: -1,
            half: 0,
            full: 0,
            mode: FenMode::Pieces(0),
        };
        proof {
            assert(r@.board =~= fen_init().board);
            assert(r@.castle =~= fen_init().castle);
            assert(r@ =~= fen_init());
        }
        r
    }

    /// Feed one byte to the machine.
    fn step(&mut self, c: u8) -> (r: Result<(), FenError>)
        ensures
            match r {
                Ok(()) => fen_step(old(self)@, c) == Ok::<FenState, FenError>(final(self)@),
                Err(e) => fen_step(old(self)@, c) == Err::<FenState, FenError>(e),
            },
    {
        match self.mode {
            FenMode::Pieces(idx) => {
                if c == 32 {
                    self.mode = FenMode::Color;
                } else if c == 47 {
                    // rank separators are ignored
                } else {
                    let piece: i8 = match c {
                        80 => 0,
                        112 => 1,
                        78 => 2,
                        110 => 3,
                        66 => 4,
                        98 => 5,
                        82 => 6,
                        114 => 7,
                        81 => 8,
                        113 => 9,
                        75 => 10,
                        107 => 11,
                        _ => -1,
                    };
                    if piece >= 0 {
                        if !(0 <= idx && idx < 64) {
                            return Err(FenError::PiecePlacement);
                        }
                        let target = crate::encoding::vertical_flip_index(idx);
                        self.board[target as usize] = piece;
                        self.mode = FenMode::Pieces(idx + 1);
                        if c == 75 {
                            self.w_king = target;
                        } else if c == 107 {
                            self.b_king = target;
                        }
                    } else if 48 <= c && c <= 57 {
                        let d: i8 = (c - 48) as i8;
                        if idx < 0 || idx > 64 - d {
                            return Err(FenError::PiecePlacement);
                        }
                        self.mode = FenMode::Pieces(idx + d);
                    } else {
                        // other bytes in the placement field are ignored
                    }
                }
            },
            FenMode::Color => {
                if c == 119 {
                    self.color = Some(EnumColor::White);
                } else if c == 98 {
                    self.color = Some(EnumColor::Black);
                } else if c == 32 {
                    self.mode = FenMode::Castling;
                } else {
                    return Err(FenError::ActiveColor);
                }
            },
            FenMode::Castling => {
                if c == 75 {
                    self.castle[0] = Some(
                        CastlingMove { king_from: 4, rook_from: 7, king_to: 6, rook_to: 5 },
                    );
                } else if c == 81 {
                    self.castle[1] = Some(
                        CastlingMove { king_from: 4, rook_from: 0, king_to: 2, rook_to: 3 },
                    );
                } else if c == 107 {
                    self.castle[2] = Some(
                        CastlingMove { king_from: 60, rook_from: 63, king_to: 62, rook_to: 61 },
                    );
                } else if c == 113 {
                    self.castle[3] = Some(
                        CastlingMove { king_from: 60, rook_from: 56, king_to: 58, rook_to: 59 },
                    );
                } else if c == 32 {
                    self.mode = FenMode::EpFile;
                } else if c == 45 {
                    // the empty-field marker is ignored
                } else {
                    return Err(FenError::Castling);
                }
            },
            FenMode::EpFile => {
                let file: Option<EnumFile> = match c {
                    97 => Some(EnumFile::A),
                    98 => Some(EnumFile::B),
                    99 => Some(EnumFile::C),
                    100 => Some(EnumFile::D),
                    101 => Some(EnumFile::E),
                    102 => Some(EnumFile::F),
                    103 => Some(EnumFile::G),
                    104 => Some(EnumFile::H),
                    _ => None,
                };
                match file {
                    Some(ep_file) => {
                        self.mode = FenMode::EpRank(ep_file);
                    },
                    None => {
                        if c != 45 {
                            self.mode = FenMode::HalfMove(0);
                        }
                    },
                }
            },
            FenMode::EpRank(file) => {
                if 49 <= c && c <= 56 {
                    let rank_idx: i8 = (c - 49) as i8;
                    self.ep = 8 * rank_idx + crate::encoding::file_to_index(file);
                    self.mode = FenMode::HalfMoveLead;
                } else {
                    return Err(FenError::EnPassant);
                }
            },
            FenMode::HalfMoveLead => {
                if c == 32 {
                    self.mode = FenMode::HalfMove(0);
                } else if 48 <= c && c <= 57 {
                    self.mode = FenMode::HalfMove((c - 48) as i8);
                } else {
                    return Err(FenError::HalfMove);
                }
            },
            FenMode::HalfMove(acc) => {
                if c == 32 {
                    self.half = acc;
                    self.mode = FenMode::FullMove(0);
                } else if 48 <= c && c <= 57 {
                    let d: i8 = (c - 48) as i8;
                    if acc < 0 || acc > 12 || (acc == 12 && d > 7) {
                        return Err(FenError::HalfMove);
                    }
                    self.mode = FenMode::HalfMove(10 * acc + d);
                } else {
                    return Err(FenError::HalfMove);
                }
            },
            FenMode::FullMove(acc) => {
                if 48 <= c && c <= 57 {
                    let d: i16 = (c - 48) as i16;
                    if acc < 0 || acc > 3276 || (acc == 3276 && d > 7) {
                        return Err(FenError::FullMove);
                    }
                    let full: i16 = 10 * acc + d;
                    self.full = full;
                    self.mode = FenMode::FullMove(full);
                } else {
                    return Err(FenError::FullMove);
                }
            },
        }
        Ok(())
    }
}

/// Translate FEN text into a position. The result is exactly what the
/// six-field machine yields, and every position returned satisfies the
/// structural invariant; text that is not ASCII, or whose fields
/// cannot be read, or whose position would break the invariant, is
/// rejected with the first failure.
pub fn interpret_fen(fen_str: &str) -> (r: Result<Position, FenError>)
    ensures
        vstd::string::is_ascii(fen_str) ==> match r {
            Ok(p) => interpret_fen_spec(fen_str.spec_bytes()) == Ok::<PositionModel, FenError>(p@),
            Err(e) => interpret_fen_spec(fen_str.spec_bytes()) == Err::<PositionModel, FenError>(e),
        },
        !vstd::string::is_ascii(fen_str) ==> r == Err::<Position, FenError>(FenError::Encoding),
        r matches Ok(p) ==> p@.wf(),
{
    if !fen_str.is_ascii() {
        return Err(FenError::Encoding);
    }
    let bytes = fen_str.as_bytes();
    let mut machine = FenMachine::new();
    let mut i: usize = 0;
    while i < bytes.len()
        invariant
            vstd::string::is_ascii(fen_str),
            bytes@ == fen_str.spec_bytes(),
            0 <= i <= bytes@.len(),
            fen_run(bytes@, i as int) == Ok::<FenState, FenError>(machine@),
        decreases bytes@.len() - i,
    {
        let c = bytes[i];
        match machine.step(c) {
            Ok(()) => {},
            Err(e) => {
                proof {
                    assert(fen_run(bytes@, i as int + 1) == Err::<FenState, FenError>(e));
                    lemma_fen_run_error(bytes@, i as int + 1, bytes@.len() as int);
                }
                return Err(e);
            },
        }
        i = i + 1;
    }
    match machine.color {
        None => Err(FenError::MissingColor),
        Some(true_color) => {
            if machine.w_king < 0 {
                Err(FenError::MissingWhiteKing)
            } else if machine.b_king < 0 {
                Err(FenError::MissingBlackKing)
            } else {
                let parsed = Position {
                    board: machine.board,
                    moving_side: true_color,
                    ply_count: machine.half,
                    move_count: machine.full,
                    castling: machine.castle,
                    ep_data: machine.ep,
                    w_king_square: machine.w_king,
                    b_king_square: machine.b_king,
                };
                if parsed.is_well_formed() {
                    Ok(parsed)
                } else {
                    Err(FenError::Invariant)
                }
            }
        },
    }
}

} // verus!
