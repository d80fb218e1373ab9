//! Encoding of a position as 9 rows of 8 integers, the input of the learned
//! action-value function.
use vstd::prelude::*;
use crate::engine::{board_mine, board_side, board_theirs, my_castle_rights, side_to_move, their_castle_rights};
use crate::evaluator::{get_pieces, pieces_of};
use crate::pieces::{occupant, occupant_of, signed_for, PieceComplete, PieceKind, Side};

verus! {

/// Number of entries of an encoded position.
pub const ENCODED_LEN: usize = 72;

/// Code of a piece kind: pawn 1 up to king 6.
pub open spec fn kind_code(k: PieceKind) -> int {
    match k {
        PieceKind::Pawn => 1,
        PieceKind::Knight => 2,
        PieceKind::Bishop => 3,
        PieceKind::Rook => 4,
        PieceKind::Queen => 5,
        PieceKind::King => 6,
    }
}

/// Code of square `sq`: the kind code signed by the owner, 0 when empty.
pub open spec fn cell_code(ps: Seq<PieceComplete>, sq: int) -> int {
    match occupant(ps, sq) {
        Some(p) => signed_for(p.color, kind_code(p.piece)),
        None => 0,
    }
}

/// The encoding: entries 0 to 63 hold the squares (`rank * 8 + file`); entry
/// 64 the side to move (White 1, Black -1); entry 65 the castle rights of the
/// side to move and entry 66 those of its opponent (0 none, 1 kingside,
/// 2 queenside, 3 both); the rest 0.
pub open spec fn encoding(ps: Seq<PieceComplete>, side: Side, mine: int, theirs: int) -> Seq<int> {
    Seq::new(
        72,
        |i: int|
            if i < 64 {
                cell_code(ps, i)
            } else if i == 64 {
                signed_for(side, 1)
            } else if i == 65 {
                mine
            } else if i == 66 {
                theirs
            } else {
                0
            },
    )
}

/// Whether `r` holds exactly the integers of `e`.
pub open spec fn holds_encoding(r: Seq<i32>, e: Seq<int>) -> bool {
    r.len() == e.len() && forall|i: int| 0 <= i < r.len() ==> r[i] as int == e[i]
}

fn kind_code_of(k: PieceKind) -> (r: i32)
    ensures
        r == kind_code(k),
{
    match k {
        PieceKind::Pawn => 1,
        PieceKind::Knight => 2,
        PieceKind::Bishop => 3,
        PieceKind::Rook => 4,
        PieceKind::Queen => 5,
        PieceKind::King => 6,
    }
}

/// Encodes a position given by its pieces, side to move and castle rights.
pub fn encode_position(pieces: &Vec<PieceComplete>, side: Side, mine: u8, theirs: u8) -> (r: Vec<i32>)
    ensures
        holds_encoding(r@, encoding(pieces@, side, mine as int, theirs as int)),
{
    let mut state: Vec<i32> = Vec::new();
    let mut sq: u8 = 0;
    while sq < 64
        invariant
            sq <= 64,
            state.len() == sq,
            forall|i: int| 0 <= i < sq ==> state[i] as int == cell_code(pieces@, i),
        decreases 64 - sq,
    {
        let code = match occupant_of(pieces, sq) {
            Some(p) => {
                let v = kind_code_of(p.piece);
                match p.color {
                    Side::Black => -v,
                    Side::White => v,
                }
            },
            None => 0,
        };
        state.push(code);
        sq += 1;
    }
    state.push(
        match side {
            Side::Black => -1,
            Side::White => 1,
        },
    );
    state.push(mine as i32);
    state.push(theirs as i32);
    let mut k: usize = 67;
    while k < ENCODED_LEN
        invariant
            67 <= k <= ENCODED_LEN,
            state.len() == k,
            forall|i: int| 0 <= i < 64 ==> state[i] as int == cell_code(pieces@, i),
            state[64] as int == signed_for(side, 1),
            state[65] as int == mine as int,
            state[66] as int == theirs as int,
            forall|i: int| 67 <= i < k ==> state[i] == 0,
        decreases ENCODED_LEN - k,
    {
        state.push(0);
        k += 1;
    }
    state
}

/// The encoding of board `b`.
pub open spec fn board_encoding(b: chess::Board) -> Seq<int> {
    encoding(pieces_of(b), board_side(b), board_mine(b) as int, board_theirs(b) as int)
}

/// Encodes a board of the engine.
pub fn encode_board(board: &chess::Board) -> (r: Vec<i32>)
    ensures
        r.len() == ENCODED_LEN,
        holds_encoding(r@, board_encoding(*board)),
{
    let pieces = get_pieces(board);
    let side = side_to_move(board);
    let mine = my_castle_rights(board);
    let theirs = their_castle_rights(board);
    let r = encode_position(&pieces, side, mine, theirs);
    assert(r@.len() == encoding(pieces@, side, mine as int, theirs as int).len());
    r
}

/// Encoding is a function of the position alone: equal positions give equal
/// encodings.
pub proof fn lemma_encoding_deterministic(
    a: Seq<PieceComplete>,
    b: Seq<PieceComplete>,
    side: Side,
    mine: int,
    theirs: int,
    r1: Seq<i32>,
    r2: Seq<i32>,
)
    requires
        a == b,
        holds_encoding(r1, encoding(a, side, mine, theirs)),
        holds_encoding(r2, encoding(b, side, mine, theirs)),
    ensures
        r1 == r2,
{
    assert(r1 =~= r2);
}

} // verus!
