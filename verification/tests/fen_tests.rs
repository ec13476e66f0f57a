use cladonia::board::positions_equal;
use cladonia::board::startpos;
use cladonia::fen::interpret_fen;
use cladonia::fen::FenError;
use cladonia::types::EnumColor;

const START_FEN: &str = "rnbqkbnr/pppppppp/8/8/8/8/PPPPPPPP/RNBQKBNR w KQkq - 0 1";

#[test]
fn parse_start_fen_round_trips_to_startpos() {
    let parsed = interpret_fen(START_FEN).unwrap();
    let fixed = startpos();
    assert!(positions_equal(&parsed, &fixed));
}

#[test]
fn parse_reads_every_field() {
    let parsed = interpret_fen("rnbqkbnr/pppppppp/8/8/4P3/8/PPPP1PPP/RNBQKBNR b KQkq e3 0 1")
        .unwrap();
    assert_eq!(parsed.moving_side, EnumColor::Black);
    // the en-passant target e3 sits on rank index 2, file index 4
    assert_eq!(parsed.ep_data, 20);
    assert_eq!(parsed.ply_count, 0);
    assert_eq!(parsed.move_count, 1);
    // the pushed pawn stands on e4
    assert_eq!(parsed.board[28], 0);
    assert_eq!(parsed.board[12], -1);
    assert_eq!(parsed.w_king_square, 4);
    assert_eq!(parsed.b_king_square, 60);
}

#[test]
fn parse_matches_applying_the_double_push() {
    let parsed = interpret_fen("rnbqkbnr/pppppppp/8/8/4P3/8/PPPP1PPP/RNBQKBNR b KQkq e3 0 1")
        .unwrap();
    let mut pushed = startpos();
    pushed.make_move(cladonia::types::ChessMove::StandardMove(cladonia::types::StandardMove {
        from_square: 12,
        to_square: 28,
    }));
    assert!(positions_equal(&parsed, &pushed));
}

#[test]
fn parse_reads_counters() {
    let parsed = interpret_fen("4k3/8/8/8/8/8/8/4K3 w - - 13 40").unwrap();
    assert_eq!(parsed.ply_count, 13);
    assert_eq!(parsed.move_count, 40);
    assert_eq!(parsed.ep_data, -1);
    for slot in parsed.castling.iter() {
        assert!(slot.is_none());
    }
}

#[test]
fn parse_rejects_unreadable_color() {
    assert_eq!(interpret_fen("rnbqkbnr/pppppppp/8/8/8/8/PPPPPPPP/RNBQKBNR x KQkq - 0 1").unwrap_err(), FenError::ActiveColor);
}

#[test]
fn parse_rejects_unreadable_castling() {
    assert_eq!(interpret_fen("rnbqkbnr/pppppppp/8/8/8/8/PPPPPPPP/RNBQKBNR w Xkq - 0 1").unwrap_err(), FenError::Castling);
}

#[test]
fn parse_rejects_missing_kings() {
    assert_eq!(interpret_fen("8/8/8/8/8/8/8/4K3 w - - 0 1").unwrap_err(), FenError::MissingBlackKing);
    assert_eq!(interpret_fen("4k3/8/8/8/8/8/8/8 w - - 0 1").unwrap_err(), FenError::MissingWhiteKing);
    assert_eq!(interpret_fen("").unwrap_err(), FenError::MissingColor);
}

#[test]
fn parse_rejects_bad_counters() {
    assert_eq!(interpret_fen("4k3/8/8/8/8/8/8/4K3 w - - x 1").unwrap_err(), FenError::HalfMove);
    assert_eq!(interpret_fen("4k3/8/8/8/8/8/8/4K3 w - - 0 x").unwrap_err(), FenError::FullMove);
}

#[test]
fn parse_rejects_unreadable_ep_rank() {
    assert_eq!(interpret_fen("4k3/8/8/8/8/8/8/4K3 w - ex 0 1").unwrap_err(), FenError::EnPassant);
}

#[test]
fn parse_rejects_structurally_broken_positions() {
    // a pawn on its own back rank can never occur and breaks the invariant
    assert_eq!(interpret_fen("P3k3/8/8/8/8/8/8/4K3 w - - 0 1").unwrap_err(), FenError::Invariant);
    // castling rights whose king has left its square are stale
    assert_eq!(interpret_fen("4k3/8/8/8/8/8/8/3K3R w K - 0 1").unwrap_err(), FenError::Invariant);
    // an en-passant square with no pawn behind it is impossible
    assert_eq!(interpret_fen("4k3/8/8/8/8/8/8/4K3 w - e6 0 1").unwrap_err(), FenError::Invariant);
}

#[test]
fn parse_rejects_overflowing_placement() {
    assert_eq!(interpret_fen("rnbqkbnrr/pppppppp/8/8/8/8/PPPPPPPP/RNBQKBNR8 w KQkq - 0 1").unwrap_err(), FenError::PiecePlacement);
}

#[test]
fn parsed_positions_pass_the_invariant_check() {
    let parsed = interpret_fen(START_FEN).unwrap();
    assert!(parsed.is_well_formed());
}

#[test]
fn fen_errors_describe_themselves() {
    assert_eq!(FenError::ActiveColor.message(), "couldn't read active color");
    assert_eq!(FenError::MissingWhiteKing.message(), "white king undetected");
}
