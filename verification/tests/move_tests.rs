use core::cmp::Ordering;

use cladonia::board::startpos;
use cladonia::board::Position;
use cladonia::encoding::build_piece;
use cladonia::encoding::build_square;
use cladonia::encoding::vertical_flip_index;
use cladonia::fen::interpret_fen;
use cladonia::render::standardize;
use cladonia::types::CastlingMove;
use cladonia::types::ChessMove;
use cladonia::types::EnPassantMove;
use cladonia::types::EnumColor;
use cladonia::types::EnumFile;
use cladonia::types::EnumPiecesUncolored;
use cladonia::types::EnumRank;
use cladonia::types::PromotionMove;
use cladonia::types::StandardMove;
use cladonia::types::SmallOffset;
use cladonia::value::OutStyleScore;

fn standard(from_square: i8, to_square: i8) -> ChessMove {
    ChessMove::StandardMove(StandardMove { from_square, to_square })
}

#[test]
fn startpos_has_twenty_legal_moves() {
    let pos = startpos();
    assert_eq!(pos.get_legal_proper_moves().len(), 20);
    assert_eq!(pos.get_pseudo_legal_proper_moves().len(), 20);
}

#[test]
fn legal_moves_are_read_only_and_repeatable() {
    let pos = interpret_fen("r3k2r/p1ppqpb1/bn2pnp1/3PN3/1p2P3/2N2Q1p/PPPBBPPP/R3K2R w KQkq - 0 1")
        .unwrap();
    let first = pos.get_legal_proper_moves();
    let second = pos.get_legal_proper_moves();
    assert_eq!(first, second);
}

#[test]
fn apply_flips_the_side_and_keeps_king_caches_honest() {
    let mut pos = startpos();
    pos.make_move(standard(12, 28));
    assert_eq!(pos.moving_side, EnumColor::Black);
    let mut white_kings: Vec<i8> = Vec::new();
    let mut black_kings: Vec<i8> = Vec::new();
    for sq in 0..64i8 {
        if pos.board[sq as usize] == 10 {
            white_kings.push(sq);
        }
        if pos.board[sq as usize] == 11 {
            black_kings.push(sq);
        }
    }
    assert_eq!(white_kings, vec![pos.w_king_square]);
    assert_eq!(black_kings, vec![pos.b_king_square]);
}

#[test]
fn double_push_offers_en_passant_for_one_ply() {
    let mut pos = startpos();
    pos.make_move(standard(12, 28)); // the king pawn two forward
    assert_eq!(pos.ep_data, 20);
    pos.make_move(standard(48, 40)); // a quiet reply
    assert_eq!(pos.ep_data, -1);
    pos.make_move(standard(28, 36)); // the pawn advances again
    assert_eq!(pos.ep_data, -1);
    pos.make_move(standard(51, 35)); // a double push beside it
    assert_eq!(pos.ep_data, 43);

    let capture = ChessMove::EnPassantMove(EnPassantMove {
        from_square: 36,
        taken_square: 35,
        to_square: 43,
    });
    assert!(pos.get_legal_proper_moves().contains(&capture));
    pos.make_move(capture);
    assert_eq!(pos.ep_data, -1);
    assert_eq!(pos.board[35], -1);
    assert_eq!(pos.board[43], 0);
}

#[test]
fn castling_is_offered_over_a_clear_path_and_spends_the_rights() {
    let pos = interpret_fen("r3k2r/8/8/8/8/8/8/R3K2R w KQkq - 0 1").unwrap();
    let kingside = ChessMove::CastlingMove(CastlingMove {
        king_from: 4,
        rook_from: 7,
        king_to: 6,
        rook_to: 5,
    });
    let queenside = ChessMove::CastlingMove(CastlingMove {
        king_from: 4,
        rook_from: 0,
        king_to: 2,
        rook_to: 3,
    });
    let legal = pos.get_legal_proper_moves();
    assert!(legal.contains(&kingside));
    assert!(legal.contains(&queenside));

    let after = pos.after_move(kingside);
    assert_eq!(after.board[6], 10);
    assert_eq!(after.board[5], 6);
    assert_eq!(after.board[4], -1);
    assert_eq!(after.board[7], -1);
    assert_eq!(after.w_king_square, 6);
    assert!(after.castling[0].is_none());
    assert!(after.castling[1].is_none());
    assert!(after.castling[2].is_some());
    assert!(after.castling[3].is_some());
}

#[test]
fn castling_rights_never_return_once_spent() {
    let mut pos = interpret_fen("r3k2r/8/8/8/8/8/8/R3K2R w KQkq - 0 1").unwrap();
    pos.make_move(standard(4, 12)); // the white king steps up
    assert!(pos.castling[0].is_none());
    assert!(pos.castling[1].is_none());
    pos.make_move(standard(63, 55)); // the black kingside rook leaves
    assert!(pos.castling[2].is_none());
    assert!(pos.castling[3].is_some());
    pos.make_move(standard(12, 4)); // the white king walks back home
    assert!(pos.castling[0].is_none());
    assert!(pos.castling[1].is_none());
}

#[test]
fn capturing_a_rook_spends_the_opponents_right() {
    let mut pos = interpret_fen("r3k2r/8/8/8/8/8/8/R3K2R w KQkq - 0 1").unwrap();
    pos.make_move(standard(0, 56)); // the queenside rook captures its opposite
    assert!(pos.castling[3].is_none());
    assert!(pos.castling[2].is_some());
}

#[test]
fn castling_through_an_attacked_square_is_refused() {
    // a black rook eyes f1, the square the king passes over
    let pos = interpret_fen("4k3/8/8/8/8/5r2/8/4K2R w K - 0 1").unwrap();
    let kingside = ChessMove::CastlingMove(CastlingMove {
        king_from: 4,
        rook_from: 7,
        king_to: 6,
        rook_to: 5,
    });
    assert!(!pos.get_legal_proper_moves().contains(&kingside));
}

#[test]
fn fools_mate_is_checkmate() {
    let mut pos = startpos();
    pos.make_move(standard(13, 21));
    pos.make_move(standard(52, 36));
    pos.make_move(standard(14, 30));
    pos.make_move(standard(59, 31));
    assert!(pos.mover_in_check());
    assert_eq!(pos.get_legal_proper_moves().len(), 0);
    assert!(pos.is_checkmate());
    assert!(!pos.is_stalemate());
}

#[test]
fn a_cornered_king_with_no_moves_is_stalemate() {
    let pos = interpret_fen("7k/5Q2/6K1/8/8/8/8/8 b - - 0 1").unwrap();
    assert_eq!(pos.get_legal_proper_moves().len(), 0);
    assert!(!pos.mover_in_check());
    assert!(pos.is_stalemate());
    assert!(!pos.is_checkmate());
}

#[test]
fn promotion_expands_into_the_four_choices() {
    let pos = interpret_fen("4k3/P7/8/8/8/8/8/4K3 w - - 0 1").unwrap();
    let legal = pos.get_legal_proper_moves();
    for kind in [
        EnumPiecesUncolored::Queen,
        EnumPiecesUncolored::Knight,
        EnumPiecesUncolored::Rook,
        EnumPiecesUncolored::Bishop,
    ] {
        let promotion = ChessMove::PromotionMove(PromotionMove {
            from_square: 48,
            to_square: 56,
            promotion_choice: build_piece(EnumColor::White, kind),
        });
        assert!(legal.contains(&promotion));
    }
    let queen = ChessMove::PromotionMove(PromotionMove {
        from_square: 48,
        to_square: 56,
        promotion_choice: build_piece(EnumColor::White, EnumPiecesUncolored::Queen),
    });
    let after = pos.after_move(queen);
    assert_eq!(after.board[56], 8);
    assert_eq!(after.board[48], -1);
}

#[test]
fn the_null_move_only_touches_bookkeeping() {
    let mut pos = startpos();
    let board_before = pos.board;
    pos.do_null_move();
    assert_eq!(pos.moving_side, EnumColor::Black);
    assert_eq!(pos.ply_count, 1);
    assert_eq!(pos.move_count, 1);
    assert_eq!(pos.board, board_before);
    pos.do_null_move();
    assert_eq!(pos.moving_side, EnumColor::White);
    assert_eq!(pos.move_count, 2);
}

#[test]
fn the_fifty_move_clock_saturates() {
    let mut pos = startpos();
    pos.set_ply_count(49);
    pos.increment_ply();
    assert_eq!(pos.get_ply_count(), 50);
    assert!(pos.time_up());
    pos.increment_ply();
    assert_eq!(pos.get_ply_count(), 50);
}

#[test]
fn forward_progress_resets_the_clock() {
    let mut pos = startpos();
    pos.set_ply_count(7);
    assert!(pos.is_forward_progress(standard(12, 28)));
    pos.make_move(standard(12, 28)); // a pawn move resets
    assert_eq!(pos.ply_count, 0);
    assert!(!pos.is_forward_progress(standard(57, 42)));
    pos.make_move(standard(57, 42)); // a quiet knight move counts up
    assert_eq!(pos.ply_count, 1);
}

#[test]
fn attack_detection_sees_each_piece_kind() {
    let pos = interpret_fen("4k3/8/8/3r4/8/2n5/5p2/4K3 w - - 0 1").unwrap();
    // the pawn on f2 attacks e1, the knight on c3 attacks d1 and e2,
    // the rook on d5 attacks d1 down the open file
    assert!(pos.sees_obvious_attack(EnumColor::White, 4));
    assert!(pos.sees_obvious_attack(EnumColor::White, 3));
    assert!(pos.sees_obvious_attack(EnumColor::White, 12));
    assert!(!pos.sees_obvious_attack(EnumColor::White, 7));
    assert!(pos.mover_in_check());
}

#[test]
fn obvious_attackers_lists_the_capturing_moves() {
    let mut pos = startpos();
    pos.make_move(standard(12, 28));
    pos.make_move(standard(51, 35));
    // only the e4 pawn can capture on d5
    let attackers = pos.get_obvious_attackers(EnumColor::Black, 35);
    assert_eq!(attackers, vec![standard(28, 35)]);
}

#[test]
fn pins_are_found_along_the_shared_ray() {
    let pos = interpret_fen("4k3/8/8/8/8/4r3/4B3/4K3 w - - 0 1").unwrap();
    assert!(pos.is_pinned(12));
    assert_eq!(pos.pinning_square(12), Some(20));
    assert_eq!(pos.pinning_square(4), None);
}

#[test]
fn moves_render_in_origin_destination_form() {
    assert_eq!(standard(12, 28).to_string(), "E2E4");
    assert_eq!(ChessMove::NullMove.to_string(), "0000");
    let promotion = ChessMove::PromotionMove(PromotionMove {
        from_square: 48,
        to_square: 56,
        promotion_choice: build_piece(EnumColor::White, EnumPiecesUncolored::Queen),
    });
    assert_eq!(promotion.to_string(), "A7A8=Q");
    let castle = ChessMove::CastlingMove(CastlingMove {
        king_from: 4,
        rook_from: 7,
        king_to: 6,
        rook_to: 5,
    });
    assert_eq!(castle.to_string(), "E1G1");
}

#[test]
fn squares_render_as_file_then_rank() {
    assert_eq!(standardize(28).to_string(), "E4");
    assert_eq!(standardize(0).to_string(), "A1");
    assert_eq!(standardize(63).to_string(), "H8");
    assert_eq!(EnumRank::Five.to_string(), "5");
    assert_eq!(EnumFile::C.to_string(), "C");
    assert_eq!(EnumPiecesUncolored::Knight.to_string(), "N");
    assert_eq!(EnumPiecesUncolored::Pawn.to_string(), "");
}

#[test]
fn the_packed_encoding_round_trips() {
    assert_eq!(build_square(EnumRank::Four, EnumFile::E), 28);
    assert_eq!(vertical_flip_index(0), 56);
    assert_eq!(vertical_flip_index(62), 6);
    assert_eq!(build_piece(EnumColor::White, EnumPiecesUncolored::King), 10);
    assert_eq!(build_piece(EnumColor::Black, EnumPiecesUncolored::Pawn), 1);
}

#[test]
fn material_evaluation_counts_for_the_mover() {
    assert_eq!(cladonia::eval::naive_evaluation_stm(&startpos()), 0);
    let up_a_pawn = interpret_fen("4k3/8/8/8/8/8/4P3/4K3 w - - 0 1").unwrap();
    assert_eq!(cladonia::eval::naive_evaluation_stm(&up_a_pawn), 100);
    let down_a_pawn = interpret_fen("4k3/8/8/8/8/8/4P3/4K3 b - - 0 1").unwrap();
    assert_eq!(cladonia::eval::naive_evaluation_stm(&down_a_pawn), -100);
    assert_eq!(cladonia::eval::get_piece_value(EnumPiecesUncolored::Bishop), 310);
}

#[test]
fn scores_order_mates_over_centipawns() {
    assert_eq!(OutStyleScore::MatingIn(2).cmp(&OutStyleScore::MatingIn(5)), Ordering::Greater);
    assert_eq!(OutStyleScore::MatedIn(2).cmp(&OutStyleScore::MatedIn(5)), Ordering::Less);
    assert_eq!(OutStyleScore::MatingIn(9).cmp(&OutStyleScore::Centipawn(90)), Ordering::Greater);
    assert_eq!(OutStyleScore::MatedIn(9).cmp(&OutStyleScore::Centipawn(-90)), Ordering::Less);
    assert_eq!(OutStyleScore::Centipawn(5).cmp(&OutStyleScore::Centipawn(5)), Ordering::Equal);
    assert!(OutStyleScore::MatingIn(3) > OutStyleScore::Centipawn(100));
}

#[test]
fn the_invariant_check_rejects_a_doctored_position() {
    let mut pos = startpos();
    assert!(pos.is_well_formed());
    pos.w_king_square = 0;
    assert!(!pos.is_well_formed());
}

#[test]
fn frozen_updates_move_contents_without_bookkeeping() {
    let pos = startpos();
    let after = pos.after_frozen_move(standard(12, 28));
    assert_eq!(after.board[28], 0);
    assert_eq!(after.board[12], -1);
    assert_eq!(after.moving_side, EnumColor::White);
    assert_eq!(after.ep_data, -1);
}

#[test]
fn rays_walk_to_the_board_edge() {
        let mut ray = cladonia::geometry::generate_ray(0, SmallOffset::PlusOne, SmallOffset::PlusOne);
    let mut seen: Vec<i8> = Vec::new();
    while let Some(sq) = ray.next() {
        seen.push(sq);
    }
    assert_eq!(seen, vec![9, 18, 27, 36, 45, 54, 63]);
    assert!(cladonia::geometry::try_get_offset_square(0, SmallOffset::MinusOne, SmallOffset::Stay)
        .is_none());
    assert_eq!(cladonia::geometry::get_knight_offset_squares(0).len(), 2);
    assert_eq!(cladonia::geometry::get_king_offset_squares(27).len(), 8);
}

#[test]
fn move_ordering_scores_match_their_formulas() {
    let pos = startpos();
    // pushing the king pawn two forward: no victim, a pawn attacker,
    // and two ranks of forward movement
    assert_eq!(pos.mvv_lva_score(standard(12, 28)), -98);
    let capture_pos = interpret_fen("4k3/8/8/3p4/4P3/8/8/4K3 w - - 0 1").unwrap();
    // pawn takes pawn: twenty times the victim less the attacker, one rank forward
    assert_eq!(capture_pos.mvv_lva_score(standard(28, 35)), 1901);
    assert_eq!(
        pos.mvv_lva_score(ChessMove::EnPassantMove(EnPassantMove {
            from_square: 36,
            taken_square: 35,
            to_square: 43,
        })),
        1950
    );
    assert_eq!(
        pos.mvv_lva_score(ChessMove::CastlingMove(CastlingMove {
            king_from: 4,
            rook_from: 7,
            king_to: 6,
            rook_to: 5,
        })),
        4050
    );
}

#[test]
fn sorted_moves_are_legal_ascending_and_capped() {
    let pos = interpret_fen("r3k2r/p1ppqpb1/bn2pnp1/3PN3/1p2P3/2N2Q1p/PPPBBPPP/R3K2R w KQkq - 0 1")
        .unwrap();
    assert!(pos.offers_no_king_capture());
    let sorted = pos.get_sorted_plp_moves();
    assert!(sorted.len() <= 12);
    let legal = pos.get_legal_proper_moves();
    for window in sorted.windows(2) {
        assert!(pos.mvv_lva_score(window[0]) <= pos.mvv_lva_score(window[1]));
    }
    for m in sorted.iter() {
        assert!(legal.contains(m));
    }
}

#[test]
fn the_tapered_evaluation_balances_the_start_position() {
    assert_eq!(cladonia::eval::hce_stm(&startpos()), 0);
    let up_a_rook = interpret_fen("4k3/8/8/8/8/8/8/R3K3 w Q - 0 1").unwrap();
    assert!(cladonia::eval::hce_stm(&up_a_rook) > 400);
}

#[test]
fn negamax_at_depth_zero_is_the_evaluation() {
    let pos = interpret_fen("r3k2r/p1ppqpb1/bn2pnp1/3PN3/1p2P3/2N2Q1p/PPPBBPPP/R3K2R w KQkq - 0 1")
        .unwrap();
    assert_eq!(pos.negamax_evaluate(0), cladonia::eval::hce_stm(&pos));
}

#[test]
fn negamax_picks_a_legal_move_from_the_start_position() {
    let pos = startpos();
    let (best_move, _value) = pos.negamax_best_move(2);
    assert!(pos.get_legal_proper_moves().contains(&best_move));
}

#[test]
fn negamax_with_no_moves_returns_the_null_move() {
    let mated = interpret_fen("rnb1kbnr/pppp1ppp/8/4p3/6Pq/5P2/PPPPP2P/RNBQKBNR w KQkq - 1 3")
        .unwrap();
    assert!(mated.is_checkmate());
    let (best_move, value) = mated.negamax_best_move(2);
    assert_eq!(best_move, ChessMove::NullMove);
    assert_eq!(value, i32::MIN);
}

#[test]
fn castling_is_not_forward_progress() {
    let mut pos = interpret_fen("r3k2r/8/8/8/8/8/8/R3K2R w KQkq - 3 5").unwrap();
    let kingside = ChessMove::CastlingMove(CastlingMove {
        king_from: 4,
        rook_from: 7,
        king_to: 6,
        rook_to: 5,
    });
    assert!(!pos.is_forward_progress(kingside));
    pos.make_move(kingside);
    // the fifty-move clock counts up: castling takes nothing and moves no pawn
    assert_eq!(pos.ply_count, 4);
}

#[test]
fn the_full_move_number_advances_after_black_moves() {
    let mut pos = startpos();
    assert_eq!(pos.move_count, 1);
    pos.make_move(standard(12, 28)); // White moves: the number stands
    assert_eq!(pos.move_count, 1);
    pos.make_move(standard(52, 36)); // Black replies: the number advances
    assert_eq!(pos.move_count, 2);
    pos.make_move(standard(6, 21));
    assert_eq!(pos.move_count, 2);
    pos.make_move(standard(57, 42));
    assert_eq!(pos.move_count, 3);
}
