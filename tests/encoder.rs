use chess_dqn::encoder::{encode_board, encode_position};
use chess_dqn::pieces::{PieceComplete, PieceKind, Side};
use std::str::FromStr;

#[test]
fn start_position_encoding() {
    let e = encode_board(&chess::Board::default());
    assert_eq!(e.len(), 72);
    assert_eq!(&e[0..8], &[4, 2, 3, 5, 6, 3, 2, 4]);
    assert_eq!(&e[8..16], &[1; 8]);
    assert_eq!(&e[16..48], &[0; 32]);
    assert_eq!(&e[48..56], &[-1; 8]);
    assert_eq!(&e[56..64], &[-4, -2, -3, -5, -6, -3, -2, -4]);
    assert_eq!(&e[64..72], &[1, 3, 3, 0, 0, 0, 0, 0]);
}

#[test]
fn encoding_is_repeatable() {
    let b = chess::Board::from_str("r3k2r/8/8/8/8/8/8/4K2R b Kkq - 0 1").unwrap();
    assert_eq!(encode_board(&b), encode_board(&b));
}

#[test]
fn castle_rights_follow_side_to_move() {
    // Black to move, Black may castle both ways, White only kingside
    let b = chess::Board::from_str("r3k2r/8/8/8/8/8/8/4K2R b Kkq - 0 1").unwrap();
    let e = encode_board(&b);
    assert_eq!(&e[64..67], &[-1, 3, 1]);
    let w = chess::Board::from_str("r3k2r/8/8/8/8/8/8/4K2R w Kkq - 0 1").unwrap();
    assert_eq!(&encode_board(&w)[64..67], &[1, 1, 3]);
}

#[test]
fn encode_from_pieces() {
    let pieces = vec![
        PieceComplete { piece: PieceKind::Queen, color: Side::Black, square: 27 },
        PieceComplete { piece: PieceKind::Pawn, color: Side::White, square: 9 },
    ];
    let e = encode_position(&pieces, Side::White, 2, 0);
    assert_eq!(e[27], -5);
    assert_eq!(e[9], 1);
    assert_eq!(e.iter().filter(|v| **v != 0).count(), 4);
    assert_eq!(&e[64..67], &[1, 2, 0]);
}
