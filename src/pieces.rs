//! Plain-value model of the pieces on a board.
use vstd::prelude::*;

verus! {

/// A colour of the two players.
#[derive(Clone, Copy, Debug, PartialEq, Eq, Structural)]
pub enum Side {
    White,
    Black,
}

/// A kind of chess piece, in the engine's own order.
#[derive(Clone, Copy, Debug, PartialEq, Eq, Structural)]
pub enum PieceKind {
    Pawn,
    Knight,
    Bishop,
    Rook,
    Queen,
    King,
}

/// A piece standing on a square; squares are numbered `rank * 8 + file`,
/// with rank 0 White's back rank and file 0 the a-file.
#[derive(Clone, Copy, Debug, PartialEq, Eq, Structural)]
pub struct PieceComplete {
    pub piece: PieceKind,
    pub color: Side,
    pub square: u8,
}

/// A move from one square to another.
#[derive(Clone, Copy, Debug, PartialEq, Eq, Structural)]
pub struct Move {
    pub source: u8,
    pub dest: u8,
}

pub const PAWN_VALUE: i64 = 100;
pub const KNIGHT_VALUE: i64 = 320;
pub const BISHOP_VALUE: i64 = 350;
pub const ROOK_VALUE: i64 = 500;
pub const QUEEN_VALUE: i64 = 900;
pub const KING_VALUE: i64 = 5000;

/// Material value of a piece kind.
pub open spec fn kind_value(k: PieceKind) -> int {
    match k {
        PieceKind::Pawn => 100,
        PieceKind::Knight => 320,
        PieceKind::Bishop => 350,
        PieceKind::Rook => 500,
        PieceKind::Queen => 900,
        PieceKind::King => 5000,
    }
}

/// `v` counted for `c`: positive for White, negative for Black.
pub open spec fn signed_for(c: Side, v: int) -> int {
    match c {
        Side::White => v,
        Side::Black => -v,
    }
}

/// Material value of a piece signed by its owner.
pub open spec fn signed_value(p: PieceComplete) -> int {
    signed_for(p.color, kind_value(p.piece))
}

pub fn kind_value_of(k: PieceKind) -> (r: i64)
    ensures
        r == kind_value(k),
        100 <= r <= 5000,
{
    match k {
        PieceKind::Pawn => PAWN_VALUE,
        PieceKind::Knight => KNIGHT_VALUE,
        PieceKind::Bishop => BISHOP_VALUE,
        PieceKind::Rook => ROOK_VALUE,
        PieceKind::Queen => QUEEN_VALUE,
        PieceKind::King => KING_VALUE,
    }
}

/// Value of a piece, signed by its owner's colour.
pub fn piece_value(p: &PieceComplete) -> (r: i64)
    ensures
        r == signed_value(*p),
        -5000 <= r <= 5000,
{
    let v = kind_value_of(p.piece);
    match p.color {
        Side::Black => -v,
        Side::White => v,
    }
}

/// The first piece of `ps` standing on `sq`, if any.
pub open spec fn occupant(ps: Seq<PieceComplete>, sq: int) -> Option<PieceComplete>
    decreases ps.len(),
{
    if ps.len() == 0 {
        None
    } else if ps[0].square == sq {
        Some(ps[0])
    } else {
        occupant(ps.drop_first(), sq)
    }
}

/// Looks up the piece standing on `sq`.
pub fn occupant_of(ps: &Vec<PieceComplete>, sq: u8) -> (r: Option<PieceComplete>)
    ensures
        r == occupant(ps@, sq as int),
{
    let mut i: usize = 0;
    assert(ps@.subrange(0, ps.len() as int) =~= ps@);
    while i < ps.len()
        invariant
            i <= ps.len(),
            occupant(ps@, sq as int) == occupant(ps@.subrange(i as int, ps.len() as int), sq as int),
        decreases ps.len() - i,
    {
        let ghost rest = ps@.subrange(i as int, ps.len() as int);
        assert(rest.drop_first() =~= ps@.subrange(i + 1, ps.len() as int));
        if ps[i].square == sq {
            return Some(ps[i]);
        }
        i += 1;
    }
    None
}

} // verus!
