use cladonia::board::startpos;
use cladonia::fen::interpret_fen;
use cladonia::perft::depth_n_better_perft;
use cladonia::perft::depth_n_total_perft;
use cladonia::perft::legal_successor_positions;

#[test]
fn perft_startpos_shallow() {
    let pos = startpos();
    assert_eq!(depth_n_total_perft(pos, 0), 1);
    assert_eq!(depth_n_total_perft(pos, 1), 20);
    assert_eq!(depth_n_total_perft(pos, 2), 400);
    assert_eq!(depth_n_total_perft(pos, 3), 8902);
}

#[test]
fn perft_startpos_depth_four() {
    assert_eq!(depth_n_total_perft(startpos(), 4), 197281);
}

#[test]
fn perft_subtotals_add_up() {
    let (total, sub_perfts) = depth_n_better_perft(startpos(), 3);
    assert_eq!(total, 8902);
    assert_eq!(sub_perfts.len(), 20);
    let mut sum: usize = 0;
    for (_move_made, successors) in sub_perfts {
        sum += successors;
    }
    assert_eq!(sum, total);
}

#[test]
fn successors_match_the_move_count() {
    let pos = startpos();
    let successors = legal_successor_positions(pos);
    assert_eq!(successors.len(), 20);
    for successor in successors {
        assert!(successor.is_well_formed());
        assert_eq!(depth_n_total_perft(successor, 1), 20);
    }
}

#[test]
fn perft_kiwipete() {
    let pos = interpret_fen("r3k2r/p1ppqpb1/bn2pnp1/3PN3/1p2P3/2N2Q1p/PPPBBPPP/R3K2R w KQkq - 0 1")
        .unwrap();
    assert_eq!(depth_n_total_perft(pos, 1), 48);
    assert_eq!(depth_n_total_perft(pos, 2), 2039);
    assert_eq!(depth_n_total_perft(pos, 3), 97862);
}

#[test]
fn perft_rook_endgame_position() {
    let pos = interpret_fen("8/2p5/3p4/KP5r/1R3p1k/8/4P1P1/8 w - - 0 1").unwrap();
    assert_eq!(depth_n_total_perft(pos, 1), 14);
    assert_eq!(depth_n_total_perft(pos, 2), 191);
    assert_eq!(depth_n_total_perft(pos, 3), 2812);
    assert_eq!(depth_n_total_perft(pos, 4), 43238);
}

#[test]
fn perft_promotion_heavy_position() {
    let pos = interpret_fen("r3k2r/Pppp1ppp/1b3nbN/nP6/BBP1P3/q4N2/Pp1P2PP/R2Q1RK1 w kq - 0 1")
        .unwrap();
    assert_eq!(depth_n_total_perft(pos, 1), 6);
    assert_eq!(depth_n_total_perft(pos, 2), 264);
    assert_eq!(depth_n_total_perft(pos, 3), 9467);
}

#[test]
fn perft_near_promotion_position() {
    let pos = interpret_fen("rnbq1k1r/pp1Pbppp/2p5/8/2B5/8/PPP1NnPP/RNBQK2R w KQ - 1 8").unwrap();
    assert_eq!(depth_n_total_perft(pos, 1), 44);
    assert_eq!(depth_n_total_perft(pos, 2), 1486);
    assert_eq!(depth_n_total_perft(pos, 3), 62379);
}

#[test]
fn perft_symmetric_middlegame_position() {
    let pos = interpret_fen("r4rk1/1pp1qppp/p1np1n2/2b1p1B1/2B1P1b1/P1NP1N2/1PP1QPPP/R4RK1 w - - 0 10")
        .unwrap();
    assert_eq!(depth_n_total_perft(pos, 1), 46);
    assert_eq!(depth_n_total_perft(pos, 2), 2079);
    assert_eq!(depth_n_total_perft(pos, 3), 89890);
}

#[test]
fn perft_startpos_depth_five() {
    assert_eq!(depth_n_total_perft(startpos(), 5), 4865609);
}

#[test]
fn perft_kiwipete_depth_four() {
    let pos = interpret_fen("r3k2r/p1ppqpb1/bn2pnp1/3PN3/1p2P3/2N2Q1p/PPPBBPPP/R3K2R w KQkq - 0 1")
        .unwrap();
    assert_eq!(depth_n_total_perft(pos, 4), 4085603);
}
