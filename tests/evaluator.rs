use chess_dqn::evaluator::{
    centrality_of, count_available_squares, count_side, evaluate_checked, count_defenses, in_center, side_occupancy, count_pieces, count_threats, evaluate, get_moves,
    get_pieces, king_position, opening, score, GameOutcome, MAX_REWARD,
};
use chess_dqn::pieces::{piece_value, Move, PieceComplete, PieceKind, Side};
use std::str::FromStr;

fn pc(piece: PieceKind, color: Side, square: u8) -> PieceComplete {
    PieceComplete { piece, color, square }
}

#[test]
fn start_position_scores_zero() {
    let board = chess::Board::default();
    assert_eq!(evaluate(&board, 0, None), 0);
    assert_eq!(evaluate(&board, 30, None), 0);
    assert_eq!(0.0f32, evaluate(&board, 0, None) as f32 / MAX_REWARD as f32);
}

#[test]
fn start_position_components() {
    let board = chess::Board::default();
    let pieces = get_pieces(&board);
    let moves = get_moves(&board);
    assert_eq!(pieces.len(), 32);
    assert_eq!(moves.len(), 40);
    assert_eq!(count_pieces(&pieces), 0);
    assert_eq!(king_position(&pieces), 0);
    assert_eq!(count_threats(&pieces, &moves), 0);
    assert_eq!(count_available_squares(&pieces), 0);
    assert_eq!(opening(&pieces, &moves), 0);
}

#[test]
fn start_position_one_side_terms() {
    let board = chess::Board::default();
    let pieces = get_pieces(&board);
    let white: Vec<PieceComplete> = pieces.iter().copied().filter(|p| p.color == Side::White).collect();
    // eight pawns with two advances each, two knights with two squares each
    assert_eq!(count_available_squares(&white), 20);
    assert_eq!(count_pieces(&white), 8 * 100 + 2 * 320 + 2 * 350 + 2 * 500 + 900 + 5000);
    let moves = get_moves(&board);
    // d2-d4 and e2-e4 for White, d7-d5 and e7-e5 for Black
    let only_white_moves: Vec<Move> = moves[..20].to_vec();
    assert_eq!(opening(&pieces, &only_white_moves), 200);
}

#[test]
fn terminal_results_are_exact() {
    let board = chess::Board::default();
    let after_nf3 = chess::Board::from_str("rnbqkbnr/pppppppp/8/8/8/5N2/PPPPPPPP/RNBQKB1R b KQkq - 1 1").unwrap();
    for b in [board, after_nf3] {
        assert_eq!(evaluate(&b, 3, Some(GameOutcome::WhiteCheckmates)), 10000);
        assert_eq!(evaluate(&b, 3, Some(GameOutcome::BlackResigns)), 10000);
        assert_eq!(evaluate(&b, 3, Some(GameOutcome::BlackCheckmates)), -10000);
        assert_eq!(evaluate(&b, 3, Some(GameOutcome::WhiteResigns)), -10000);
        assert_eq!(evaluate(&b, 3, Some(GameOutcome::Stalemate)), 0);
        assert_eq!(evaluate(&b, 3, Some(GameOutcome::DrawAccepted)), 0);
        assert_eq!(evaluate(&b, 3, Some(GameOutcome::DrawDeclared)), 0);
    }
}

#[test]
fn material_sums_signed_values() {
    let pieces = vec![
        pc(PieceKind::King, Side::White, 4),
        pc(PieceKind::Rook, Side::White, 7),
        pc(PieceKind::King, Side::Black, 60),
        pc(PieceKind::Knight, Side::Black, 57),
    ];
    assert_eq!(count_pieces(&pieces), 500 - 320);
    assert_eq!(piece_value(&pc(PieceKind::Queen, Side::Black, 3)), -900);
    assert_eq!(piece_value(&pc(PieceKind::Bishop, Side::White, 3)), 350);
}

#[test]
fn material_only_position_scores_material() {
    // bare kings far from the centre plus material; positional terms cancel
    let pieces = vec![
        pc(PieceKind::King, Side::White, 0),
        pc(PieceKind::King, Side::Black, 63),
    ];
    assert_eq!(king_position(&pieces), 0);
    assert_eq!(count_available_squares(&pieces), 0);
    assert_eq!(score(&pieces, &vec![], 40), 0);
}

#[test]
fn mobility_counts_engine_targets() {
    assert_eq!(count_available_squares(&vec![pc(PieceKind::Knight, Side::White, 0)]), 2);
    assert_eq!(count_available_squares(&vec![pc(PieceKind::Knight, Side::Black, 0)]), -2);
    assert_eq!(count_available_squares(&vec![pc(PieceKind::King, Side::White, 4)]), 5);
    assert_eq!(count_available_squares(&vec![pc(PieceKind::Rook, Side::White, 0)]), 14);
    assert_eq!(count_available_squares(&vec![pc(PieceKind::Bishop, Side::White, 27)]), 13);
    assert_eq!(count_available_squares(&vec![pc(PieceKind::Queen, Side::White, 27)]), 27);
    // a pawn on its start square: two advances; a pawn blocked by a friend: none
    assert_eq!(count_available_squares(&vec![pc(PieceKind::Pawn, Side::White, 12)]), 2);
    assert_eq!(
        count_available_squares(&vec![pc(PieceKind::Pawn, Side::White, 12), pc(PieceKind::Knight, Side::White, 20)]),
        8
    );
    // a pawn capture counts only against an enemy piece
    assert_eq!(
        count_available_squares(&vec![pc(PieceKind::Pawn, Side::White, 28), pc(PieceKind::Pawn, Side::Black, 37)]),
        0
    );
}

#[test]
fn threats_undefended_and_defended() {
    let attacked = vec![pc(PieceKind::Rook, Side::White, 0), pc(PieceKind::Knight, Side::Black, 56)];
    let moves = vec![Move { source: 0, dest: 56 }];
    assert_eq!(count_threats(&attacked, &moves), 320);
    let defended = vec![
        pc(PieceKind::Rook, Side::White, 0),
        pc(PieceKind::Knight, Side::Black, 56),
        pc(PieceKind::Rook, Side::Black, 63),
    ];
    assert_eq!(count_threats(&defended, &moves), 0);
    let by_pawn = vec![pc(PieceKind::Pawn, Side::Black, 36), pc(PieceKind::Queen, Side::White, 27), pc(PieceKind::Knight, Side::White, 10)];
    let pawn_takes = vec![Move { source: 36, dest: 27 }];
    assert_eq!(count_threats(&by_pawn, &pawn_takes), -800);
}

#[test]
fn king_centrality_table() {
    assert_eq!(centrality_of(0), -10);
    assert_eq!(centrality_of(63), -10);
    assert_eq!(centrality_of(27), 8);
    assert_eq!(centrality_of(9), -4);
    assert_eq!(centrality_of(17), 0);
    let endgame = vec![pc(PieceKind::King, Side::White, 27), pc(PieceKind::King, Side::Black, 56)];
    assert_eq!(king_position(&endgame), 18);
}

#[test]
fn back_rank_kings_with_many_pieces() {
    let mut pieces = Vec::new();
    for sq in 8..16u8 {
        pieces.push(pc(PieceKind::Pawn, Side::White, sq));
    }
    for sq in 48..56u8 {
        pieces.push(pc(PieceKind::Pawn, Side::Black, sq));
    }
    for sq in 16..20u8 {
        pieces.push(pc(PieceKind::Knight, Side::White, sq));
    }
    pieces.push(pc(PieceKind::King, Side::White, 4));
    pieces.push(pc(PieceKind::King, Side::Black, 44));
    assert_eq!(pieces.len(), 22);
    assert_eq!(king_position(&pieces), -50);
}

#[test]
fn center_control_counts_occupants_and_moves() {
    let pieces = vec![pc(PieceKind::Knight, Side::White, 27), pc(PieceKind::Pawn, Side::Black, 51)];
    let moves = vec![Move { source: 51, dest: 35 }, Move { source: 27, dest: 44 }];
    assert_eq!(opening(&pieces, &moves), 320 - 100);
}

#[test]
fn defenders_and_occupancy() {
    let pieces = vec![
        pc(PieceKind::Queen, Side::White, 27),
        pc(PieceKind::Knight, Side::White, 10),
        pc(PieceKind::Bishop, Side::White, 0),
        pc(PieceKind::Rook, Side::Black, 31),
    ];
    let white = side_occupancy(&pieces, Side::White);
    let black = side_occupancy(&pieces, Side::Black);
    assert_eq!(white, (1u64 << 27) | (1u64 << 10) | 1);
    assert_eq!(black, 1u64 << 31);
    // the knight on c2 and the bishop on a1 both cover d4
    assert_eq!(count_defenses(&pieces, white | black, &pieces[0]), 320 + 350);
    // nothing of Black's covers h4
    assert_eq!(count_defenses(&pieces, white | black, &pieces[3]), 0);
}

#[test]
fn center_squares() {
    let centre: Vec<u8> = (0..64u8).filter(|sq| in_center(*sq)).collect();
    assert_eq!(centre, vec![27, 28, 35, 36]);
}

#[test]
fn crowded_board_is_refused_in_play() {
    let b = chess::Board::from_str("7k/8/RRRR4/8/NNNNNNNN/8/PPPPPPPP/K7 w - - 0 1").unwrap();
    assert_eq!(count_side(&get_pieces(&b), Side::White), 21);
    assert_eq!(count_side(&get_pieces(&b), Side::Black), 1);
    assert_eq!(evaluate_checked(&b, 0, None), None);
    assert_eq!(evaluate_checked(&b, 0, Some(GameOutcome::WhiteCheckmates)), Some(10000));
    assert_eq!(evaluate_checked(&chess::Board::default(), 0, None), Some(0));
}
