//! Heuristic position evaluation: an integer score in ten-thousandths of the
//! maximal reward, positive when the position favours White.
use vstd::prelude::*;
use crate::bits::{bit_count, count_bits, has_bit, square_bit, test_bit};
use crate::engine::{
    board_color, board_piece, color_on, legal_list, legal_moves, null_move, null_of, piece_on,
    bishop_moves, bishop_targets, king_moves, king_targets, knight_moves, knight_targets,
    pawn_attack_targets, pawn_attacks, pawn_quiet_targets, pawn_quiets, rook_moves, rook_targets,
};
use crate::pieces::{
    kind_value, kind_value_of, occupant, occupant_of, piece_value, signed_for, signed_value, Move,
    PieceComplete, PieceKind, Side,
};

verus! {

/// The score of a decisive or drawn game; the scale of every score.
pub const MAX_REWARD: i64 = 10000;

/// Ply counts up to this one are scored for centre control.
pub const OPENING_PLIES: u32 = 20;

/// With at most this many pieces on the board kings are scored by centrality.
pub const ENDGAME_PIECES: usize = 20;

/// Bound on the magnitude of any score.
pub const SCORE_BOUND: i64 = 100000000;

/// Upper bound on the moves listed for one position (both sides).
pub const MAX_LISTED_MOVES: usize = 9216;

/// How a game ended.
#[derive(Clone, Copy, Debug, PartialEq, Eq, Structural)]
pub enum GameOutcome {
    WhiteCheckmates,
    WhiteResigns,
    BlackCheckmates,
    BlackResigns,
    Stalemate,
    DrawAccepted,
    DrawDeclared,
}

/// The exact score of a finished game.
pub open spec fn terminal_score(o: GameOutcome) -> int {
    match o {
        GameOutcome::WhiteCheckmates | GameOutcome::BlackResigns => 10000,
        GameOutcome::BlackCheckmates | GameOutcome::WhiteResigns => -10000,
        GameOutcome::Stalemate | GameOutcome::DrawAccepted | GameOutcome::DrawDeclared => 0,
    }
}

/// Pieces as listed from a board: at most 64, each on one of its squares.
pub open spec fn pieces_wf(ps: Seq<PieceComplete>) -> bool {
    &&& ps.len() <= 64
    &&& forall|i: int| 0 <= i < ps.len() ==> ps[i].square < 64
}

/// Moves as listed from a board.
pub open spec fn moves_wf(ms: Seq<Move>) -> bool {
    &&& ms.len() <= MAX_LISTED_MOVES
    &&& forall|i: int| 0 <= i < ms.len() ==> ms[i].source < 64 && ms[i].dest < 64
}

// ---------------------------------------------------------------- material

/// Signed material of the first `n` pieces.
pub open spec fn material(ps: Seq<PieceComplete>, n: int) -> int
    decreases n,
{
    if n <= 0 {
        0
    } else {
        material(ps, n - 1) + signed_value(ps[n - 1])
    }
}

/// Signed material of all pieces.
pub fn count_pieces(pieces: &Vec<PieceComplete>) -> (r: i64)
    requires
        pieces_wf(pieces@),
    ensures
        r == material(pieces@, pieces@.len() as int),
        -320000 <= r <= 320000,
{
    let mut res: i64 = 0;
    let mut i: usize = 0;
    while i < pieces.len()
        invariant
            i <= pieces.len() <= 64,
            res == material(pieces@, i as int),
            -5000 * i <= res <= 5000 * i,
        decreases pieces.len() - i,
    {
        res = res + piece_value(&pieces[i]);
        i += 1;
    }
    res
}

// ------------------------------------------------------------ centre squares

/// The four central squares d4, e4, d5, e5.
pub open spec fn is_center(sq: int) -> bool {
    (sq / 8 == 3 || sq / 8 == 4) && (sq % 8 == 3 || sq % 8 == 4)
}

pub fn in_center(sq: u8) -> (r: bool)
    ensures
        r == is_center(sq as int),
{
    let rank = sq / 8;
    let file = sq % 8;
    (rank == 3 || rank == 4) && (file == 3 || file == 4)
}

/// Signed value of the piece on `sq`, 0 on an empty square.
pub open spec fn value_on(ps: Seq<PieceComplete>, sq: int) -> int {
    match occupant(ps, sq) {
        Some(p) => signed_value(p),
        None => 0,
    }
}

/// Centre occupation by the first `n` pieces.
pub open spec fn center_occupation(ps: Seq<PieceComplete>, n: int) -> int
    decreases n,
{
    if n <= 0 {
        0
    } else {
        center_occupation(ps, n - 1) + if is_center(ps[n - 1].square as int) {
            signed_value(ps[n - 1])
        } else {
            0
        }
    }
}

/// Centre pressure of the first `n` moves: the moving piece's signed value
/// for each move that lands on a central square.
pub open spec fn center_pressure(ps: Seq<PieceComplete>, ms: Seq<Move>, n: int) -> int
    decreases n,
{
    if n <= 0 {
        0
    } else {
        center_pressure(ps, ms, n - 1) + if is_center(ms[n - 1].dest as int) {
            value_on(ps, ms[n - 1].source as int)
        } else {
            0
        }
    }
}

/// Centre control, counted in the opening.
pub open spec fn opening_score(ps: Seq<PieceComplete>, ms: Seq<Move>) -> int {
    center_occupation(ps, ps.len() as int) + center_pressure(ps, ms, ms.len() as int)
}

fn signed_value_on(pieces: &Vec<PieceComplete>, sq: u8) -> (r: i64)
    ensures
        r == value_on(pieces@, sq as int),
        -5000 <= r <= 5000,
{
    match occupant_of(pieces, sq) {
        Some(p) => piece_value(&p),
        None => 0,
    }
}

/// Centre control: pieces standing on, and moves of either side landing on,
/// the four central squares, each counted at the piece's signed value.
pub fn opening(pieces: &Vec<PieceComplete>, moves: &Vec<Move>) -> (r: i64)
    requires
        pieces_wf(pieces@),
        moves_wf(moves@),
    ensures
        r == opening_score(pieces@, moves@),
        -5000 * (64 + MAX_LISTED_MOVES) <= r <= 5000 * (64 + MAX_LISTED_MOVES),
{
    let mut res: i64 = 0;
    let mut i: usize = 0;
    while i < pieces.len()
        invariant
            i <= pieces.len() <= 64,
            res == center_occupation(pieces@, i as int),
            -5000 * i <= res <= 5000 * i,
        decreases pieces.len() - i,
    {
        if in_center(pieces[i].square) {
            res = res + piece_value(&pieces[i]);
        }
        i += 1;
    }
    let base = res;
    let mut acc: i64 = 0;
    let mut j: usize = 0;
    while j < moves.len()
        invariant
            j <= moves.len() <= MAX_LISTED_MOVES,
            moves_wf(moves@),
            acc == center_pressure(pieces@, moves@, j as int),
            -5000 * j <= acc <= 5000 * j,
        decreases moves.len() - j,
    {
        let m = moves[j];
        if in_center(m.dest) {
            acc = acc + signed_value_on(pieces, m.source);
        }
        j += 1;
    }
    base + acc
}

// ---------------------------------------------------------------- occupancy

/// Squares held by the first `n` pieces of colour `c`.
pub open spec fn occupancy(ps: Seq<PieceComplete>, c: Side, n: int) -> u64
    decreases n,
{
    if n <= 0 {
        0u64
    } else if ps[n - 1].color == c {
        occupancy(ps, c, n - 1) | square_bit(ps[n - 1].square as int)
    } else {
        occupancy(ps, c, n - 1)
    }
}

/// Squares held by pieces of colour `c`.
pub fn side_occupancy(pieces: &Vec<PieceComplete>, c: Side) -> (r: u64)
    requires
        pieces_wf(pieces@),
    ensures
        r == occupancy(pieces@, c, pieces@.len() as int),
{
    let mut res: u64 = 0;
    let mut i: usize = 0;
    while i < pieces.len()
        invariant
            i <= pieces.len(),
            pieces_wf(pieces@),
            res == occupancy(pieces@, c, i as int),
        decreases pieces.len() - i,
    {
        if pieces[i].color == c {
            res = res | (1u64 << (pieces[i].square as u64));
        }
        i += 1;
    }
    res
}

// ----------------------------------------------------------------- defences

/// The squares a piece covers, given the occupied squares.
pub open spec fn guarded(q: PieceComplete, occupied: u64) -> u64 {
    let sq = q.square as int;
    match q.piece {
        PieceKind::Pawn => pawn_attack_targets(sq, q.color == Side::White, occupied),
        PieceKind::Knight => knight_targets(sq),
        PieceKind::Bishop => bishop_targets(sq, occupied),
        PieceKind::Rook => rook_targets(sq, occupied),
        PieceKind::Queen => rook_targets(sq, occupied) | bishop_targets(sq, occupied),
        PieceKind::King => king_targets(sq),
    }
}

fn guarded_squares(q: &PieceComplete, occupied: u64) -> (r: u64)
    requires
        q.square < 64,
    ensures
        r == guarded(*q, occupied),
{
    match q.piece {
        PieceKind::Pawn => pawn_attacks(q.square, q.color, occupied),
        PieceKind::Knight => knight_moves(q.square),
        PieceKind::Bishop => bishop_moves(q.square, occupied),
        PieceKind::Rook => rook_moves(q.square, occupied),
        PieceKind::Queen => rook_moves(q.square, occupied) | bishop_moves(q.square, occupied),
        PieceKind::King => king_moves(q.square),
    }
}

/// Value of the other pieces of `target`'s colour, among the first `n`,
/// that cover `target`'s square.
pub open spec fn defense(ps: Seq<PieceComplete>, target: PieceComplete, occupied: u64, n: int) -> int
    decreases n,
{
    if n <= 0 {
        0
    } else {
        let q = ps[n - 1];
        defense(ps, target, occupied, n - 1) + if q.color == target.color && q != target
            && has_bit(guarded(q, occupied), target.square as int) {
            kind_value(q.piece)
        } else {
            0
        }
    }
}

/// Value of the pieces that defend `piece_dest`.
pub fn count_defenses(pieces: &Vec<PieceComplete>, occupied: u64, piece_dest: &PieceComplete) -> (r: i64)
    requires
        pieces_wf(pieces@),
        piece_dest.square < 64,
    ensures
        r == defense(pieces@, *piece_dest, occupied, pieces@.len() as int),
        0 <= r <= 320000,
{
    let mut res: i64 = 0;
    let mut i: usize = 0;
    while i < pieces.len()
        invariant
            i <= pieces.len() <= 64,
            pieces_wf(pieces@),
            piece_dest.square < 64,
            res == defense(pieces@, *piece_dest, occupied, i as int),
            0 <= res <= 5000 * i,
        decreases pieces.len() - i,
    {
        let q = pieces[i];
        if q.color == piece_dest.color && q != *piece_dest {
            if test_bit(guarded_squares(&q, occupied), piece_dest.square) {
                res = res + kind_value_of(q.piece);
            }
        }
        i += 1;
    }
    res
}

// ------------------------------------------------------------------ threats

/// Value of the pieces making the first `n` moves that land on `sq`.
pub open spec fn attack(ps: Seq<PieceComplete>, ms: Seq<Move>, sq: int, n: int) -> int
    decreases n,
{
    if n <= 0 {
        0
    } else {
        attack(ps, ms, sq, n - 1) + if ms[n - 1].dest == sq {
            match occupant(ps, ms[n - 1].source as int) {
                Some(p) => kind_value(p.piece),
                None => 0,
            }
        } else {
            0
        }
    }
}

/// What `p` risks: nothing when unattacked; its whole value when attacked and
/// undefended; else what it is worth above its attackers, at least 0. Counted
/// against `p`'s owner.
pub open spec fn threat_on(ps: Seq<PieceComplete>, ms: Seq<Move>, occupied: u64, p: PieceComplete) -> int {
    let a = attack(ps, ms, p.square as int, ms.len() as int);
    if a == 0 {
        0
    } else {
        let v = kind_value(p.piece);
        let contest = if defense(ps, p, occupied, ps.len() as int) == 0 { v } else { v - a };
        let risk = if contest < 0 { 0 } else { contest };
        signed_for(p.color, -risk)
    }
}

/// Threats to the first `n` pieces.
pub open spec fn threats(ps: Seq<PieceComplete>, ms: Seq<Move>, occupied: u64, n: int) -> int
    decreases n,
{
    if n <= 0 {
        0
    } else {
        threats(ps, ms, occupied, n - 1) + threat_on(ps, ms, occupied, ps[n - 1])
    }
}

/// The threat score of a position, with the squares of all its pieces occupied.
pub open spec fn threat_score(ps: Seq<PieceComplete>, ms: Seq<Move>) -> int {
    threats(ps, ms, occupancy(ps, Side::White, ps.len() as int) | occupancy(ps, Side::Black, ps.len() as int), ps.len() as int)
}

fn attacking_value(pieces: &Vec<PieceComplete>, moves: &Vec<Move>, sq: u8) -> (r: i64)
    requires
        moves_wf(moves@),
    ensures
        r == attack(pieces@, moves@, sq as int, moves@.len() as int),
        0 <= r <= 5000 * MAX_LISTED_MOVES,
{
    let mut res: i64 = 0;
    let mut j: usize = 0;
    while j < moves.len()
        invariant
            j <= moves.len() <= MAX_LISTED_MOVES,
            moves_wf(moves@),
            res == attack(pieces@, moves@, sq as int, j as int),
            0 <= res <= 5000 * j,
        decreases moves.len() - j,
    {
        let m = moves[j];
        if m.dest == sq {
            match occupant_of(pieces, m.source) {
                Some(p) => {
                    res = res + kind_value_of(p.piece);
                },
                None => {},
            }
        }
        j += 1;
    }
    res
}

/// Material at risk on each side: every attacked piece counts against its
/// owner what it stands to lose.
pub fn count_threats(pieces: &Vec<PieceComplete>, moves: &Vec<Move>) -> (r: i64)
    requires
        pieces_wf(pieces@),
        moves_wf(moves@),
    ensures
        r == threat_score(pieces@, moves@),
        -320000 <= r <= 320000,
{
    let occupied = side_occupancy(pieces, Side::White) | side_occupancy(pieces, Side::Black);
    let mut res: i64 = 0;
    let mut i: usize = 0;
    while i < pieces.len()
        invariant
            i <= pieces.len() <= 64,
            pieces_wf(pieces@),
            moves_wf(moves@),
            occupied == occupancy(pieces@, Side::White, pieces@.len() as int) | occupancy(pieces@, Side::Black, pieces@.len() as int),
            res == threats(pieces@, moves@, occupied, i as int),
            -5000 * i <= res <= 5000 * i,
        decreases pieces.len() - i,
    {
        let p = pieces[i];
        let attacking = attacking_value(pieces, moves, p.square);
        if attacking != 0 {
            let defending = count_defenses(pieces, occupied, &p);
            let attacked = kind_value_of(p.piece);
            let contest = if defending == 0 { attacked } else { attacked - attacking };
            let risk = if contest < 0 { 0 } else { contest };
            res = match p.color {
                Side::Black => res + risk,
                Side::White => res - risk,
            };
        }
        i += 1;
    }
    res
}

// ----------------------------------------------------------------- mobility

/// Destinations of `p` not held by its own side, signed by its owner. A pawn
/// counts its quiet advances and the captures open to it.
pub open spec fn mobility_of(p: PieceComplete, white: u64, black: u64) -> int {
    let own = if p.color == Side::White { white } else { black };
    let enemy = if p.color == Side::White { black } else { white };
    let occupied = white | black;
    let sq = p.square as int;
    let w = p.color == Side::White;
    let n = match p.piece {
        PieceKind::Pawn => bit_count(pawn_quiet_targets(sq, w, occupied)) + bit_count(
            pawn_attack_targets(sq, w, enemy),
        ),
        PieceKind::Knight => bit_count(knight_targets(sq) & !own),
        PieceKind::Bishop => bit_count(bishop_targets(sq, occupied) & !own),
        PieceKind::Rook => bit_count(rook_targets(sq, occupied) & !own),
        PieceKind::Queen => bit_count(bishop_targets(sq, occupied) & !own) + bit_count(
            rook_targets(sq, occupied) & !own,
        ),
        PieceKind::King => bit_count(king_targets(sq) & !own),
    };
    signed_for(p.color, n as int)
}

/// Mobility of the first `n` pieces.
pub open spec fn mobility(ps: Seq<PieceComplete>, white: u64, black: u64, n: int) -> int
    decreases n,
{
    if n <= 0 {
        0
    } else {
        mobility(ps, white, black, n - 1) + mobility_of(ps[n - 1], white, black)
    }
}

/// The mobility score of a position.
pub open spec fn mobility_score(ps: Seq<PieceComplete>) -> int {
    mobility(ps, occupancy(ps, Side::White, ps.len() as int), occupancy(ps, Side::Black, ps.len() as int), ps.len() as int)
}

fn piece_mobility(p: &PieceComplete, white: u64, black: u64) -> (r: i64)
    requires
        p.square < 64,
    ensures
        r == mobility_of(*p, white, black),
        -128 <= r <= 128,
{
    let own = if p.color == Side::White { white } else { black };
    let enemy = if p.color == Side::White { black } else { white };
    let occupied = white | black;
    let sq = p.square;
    let n: u32 = match p.piece {
        PieceKind::Pawn => count_bits(pawn_quiets(sq, p.color, occupied)) + count_bits(
            pawn_attacks(sq, p.color, enemy),
        ),
        PieceKind::Knight => count_bits(knight_moves(sq) & !own),
        PieceKind::Bishop => count_bits(bishop_moves(sq, occupied) & !own),
        PieceKind::Rook => count_bits(rook_moves(sq, occupied) & !own),
        PieceKind::Queen => count_bits(bishop_moves(sq, occupied) & !own) + count_bits(
            rook_moves(sq, occupied) & !own,
        ),
        PieceKind::King => count_bits(king_moves(sq) & !own),
    };
    match p.color {
        Side::Black => -(n as i64),
        Side::White => n as i64,
    }
}

/// Mobility: per piece, the squares it can move to, signed by its owner.
pub fn count_available_squares(pieces: &Vec<PieceComplete>) -> (r: i64)
    requires
        pieces_wf(pieces@),
    ensures
        r == mobility_score(pieces@),
        -8192 <= r <= 8192,
{
    let white = side_occupancy(pieces, Side::White);
    let black = side_occupancy(pieces, Side::Black);
    let mut res: i64 = 0;
    let mut i: usize = 0;
    while i < pieces.len()
        invariant
            i <= pieces.len() <= 64,
            pieces_wf(pieces@),
            white == occupancy(pieces@, Side::White, pieces@.len() as int),
            black == occupancy(pieces@, Side::Black, pieces@.len() as int),
            res == mobility(pieces@, white, black, i as int),
            -128 * i <= res <= 128 * i,
        decreases pieces.len() - i,
    {
        res = res + piece_mobility(&pieces[i], white, black);
        i += 1;
    }
    res
}

// ------------------------------------------------------------ king position

/// The first king of colour `c` among `ps`.
pub open spec fn find_king(ps: Seq<PieceComplete>, c: Side) -> Option<PieceComplete>
    decreases ps.len(),
{
    if ps.len() == 0 {
        None
    } else if ps[0].piece == PieceKind::King && ps[0].color == c {
        Some(ps[0])
    } else {
        find_king(ps.drop_first(), c)
    }
}

/// Distance of a rank or file index from the nearer edge, 0 to 3.
pub open spec fn edge_distance(x: int) -> int {
    if x < 4 { x } else { 7 - x }
}

/// Centrality table entry by distances from the edges: low at the edges,
/// high in the centre, the same in all four quarters of the board.
pub open spec fn centrality_entry(dr: int, df: int) -> int {
    let row = if dr == 0 {
        seq![-10int, -8, -6, -4]
    } else if dr == 1 {
        seq![-8int, -4, 0, 2]
    } else if dr == 2 {
        seq![-6int, 0, 4, 6]
    } else {
        seq![-4int, 2, 6, 8]
    };
    row[df]
}

/// Centrality of square `sq`.
pub open spec fn centrality(sq: int) -> int {
    centrality_entry(edge_distance(sq / 8), edge_distance(sq % 8))
}

/// The king-position score: by centrality when at most 20 pieces remain;
/// otherwise a king still on its own back rank costs its side 50.
pub open spec fn king_score(ps: Seq<PieceComplete>) -> int {
    let wk = find_king(ps, Side::White);
    let bk = find_king(ps, Side::Black);
    if ps.len() <= 20 {
        (match wk {
            Some(k) => centrality(k.square as int),
            None => 0,
        }) - (match bk {
            Some(k) => centrality(k.square as int),
            None => 0,
        })
    } else {
        (match bk {
            Some(k) => if k.square / 8 == 7 { 50int } else { 0 },
            None => 0,
        }) - (match wk {
            Some(k) => if k.square / 8 == 0 { 50int } else { 0 },
            None => 0,
        })
    }
}

fn king_of(pieces: &Vec<PieceComplete>, c: Side) -> (r: Option<PieceComplete>)
    requires
        pieces_wf(pieces@),
    ensures
        r == find_king(pieces@, c),
        r matches Some(k) ==> k.square < 64,
{
    let mut i: usize = 0;
    assert(pieces@.subrange(0, pieces.len() as int) =~= pieces@);
    while i < pieces.len()
        invariant
            i <= pieces.len(),
            pieces_wf(pieces@),
            find_king(pieces@, c) == find_king(pieces@.subrange(i as int, pieces.len() as int), c),
        decreases pieces.len() - i,
    {
        let ghost rest = pieces@.subrange(i as int, pieces.len() as int);
        assert(rest.drop_first() =~= pieces@.subrange(i + 1, pieces.len() as int));
        if pieces[i].piece == PieceKind::King && pieces[i].color == c {
            return Some(pieces[i]);
        }
        i += 1;
    }
    None
}

fn edge_distance_of(x: u8) -> (r: u8)
    requires
        x < 8,
    ensures
        r == edge_distance(x as int),
        r < 4,
{
    if x < 4 { x } else { 7 - x }
}

/// The centrality table entry of square `sq`.
pub fn centrality_of(sq: u8) -> (r: i64)
    requires
        sq < 64,
    ensures
        r == centrality(sq as int),
        -10 <= r <= 8,
{
    let dr = edge_distance_of(sq / 8);
    let df = edge_distance_of(sq % 8);
    let row: [i64; 4] = if dr == 0 {
        [-10, -8, -6, -4]
    } else if dr == 1 {
        [-8, -4, 0, 2]
    } else if dr == 2 {
        [-6, 0, 4, 6]
    } else {
        [-4, 2, 6, 8]
    };
    let v = row[df as usize];
    v
}

/// King placement: centrality in the endgame; before it, a king left on its
/// back rank counts against its side.
pub fn king_position(pieces: &Vec<PieceComplete>) -> (r: i64)
    requires
        pieces_wf(pieces@),
    ensures
        r == king_score(pieces@),
        -100 <= r <= 100,
{
    let wk = king_of(pieces, Side::White);
    let bk = king_of(pieces, Side::Black);
    let mut res: i64 = 0;
    if pieces.len() <= ENDGAME_PIECES {
        match bk {
            Some(k) => {
                res = res - centrality_of(k.square);
            },
            None => {},
        }
        match wk {
            Some(k) => {
                res = res + centrality_of(k.square);
            },
            None => {},
        }
    } else {
        match bk {
            Some(k) => {
                if k.square / 8 == 7 {
                    res = res + 50;
                }
            },
            None => {},
        }
        match wk {
            Some(k) => {
                if k.square / 8 == 0 {
                    res = res - 50;
                }
            },
            None => {},
        }
    }
    res
}

// -------------------------------------------------------------------- total

/// Score of a position still in play, in ten-thousandths of `MAX_REWARD`:
/// material, centre control while at most `OPENING_PLIES` plies are played,
/// king position, threats and mobility, each White-positive.
pub open spec fn position_score(ps: Seq<PieceComplete>, ms: Seq<Move>, num_moves: int) -> int {
    material(ps, ps.len() as int) + (if num_moves <= 20 { opening_score(ps, ms) } else { 0 })
        + king_score(ps) + threat_score(ps, ms) + mobility_score(ps)
}

/// Scores a position in play from its pieces and the moves listed for it.
pub fn score(pieces: &Vec<PieceComplete>, moves: &Vec<Move>, num_moves: u32) -> (r: i64)
    requires
        pieces_wf(pieces@),
        moves_wf(moves@),
    ensures
        r == position_score(pieces@, moves@, num_moves as int),
        -SCORE_BOUND <= r <= SCORE_BOUND,
{
    let c_pieces = count_pieces(pieces);
    let king = king_position(pieces);
    let threats = count_threats(pieces, moves);
    let available = count_available_squares(pieces);
    let center = if num_moves <= OPENING_PLIES {
        opening(pieces, moves)
    } else {
        0
    };
    c_pieces + center + king + threats + available
}

/// The pieces on the first `n` squares of board `b`, in square order: one
/// for each square that holds both a piece and a colour.
pub open spec fn pieces_upto(b: chess::Board, n: int) -> Seq<PieceComplete>
    decreases n,
{
    if n <= 0 {
        Seq::empty()
    } else {
        let rest = pieces_upto(b, n - 1);
        match (board_piece(b, n - 1), board_color(b, n - 1)) {
            (Some(piece), Some(color)) => rest.push(PieceComplete { piece, color, square: (n - 1) as u8 }),
            _ => rest,
        }
    }
}

/// Number of pieces of colour `c` in `ps`.
pub open spec fn side_count(ps: Seq<PieceComplete>, c: Side) -> nat
    decreases ps.len(),
{
    if ps.len() == 0 {
        0
    } else {
        side_count(ps.drop_last(), c) + if ps.last().color == c { 1nat } else { 0 }
    }
}

/// Neither side of board `b` holds more than 16 pieces, as in every game of
/// chess: the most the engine's move generator can list moves for.
pub open spec fn within_move_limits(b: chess::Board) -> bool {
    side_count(pieces_of(b), Side::White) <= 16 && side_count(pieces_of(b), Side::Black) <= 16
}

/// Boards with the same pieces on every square list the same pieces.
pub proof fn lemma_same_pieces(a: chess::Board, b: chess::Board, n: int)
    requires
        n <= 64,
        forall|sq: int|
            0 <= sq < 64 ==> #[trigger] board_piece(a, sq) == board_piece(b, sq) && board_color(a, sq)
                == board_color(b, sq),
    ensures
        pieces_upto(a, n) == pieces_upto(b, n),
    decreases n,
{
    if n > 0 {
        lemma_same_pieces(a, b, n - 1);
        assert(board_piece(a, n - 1) == board_piece(b, n - 1));
    }
}

/// The pieces of board `b`, from a1 to h8.
pub open spec fn pieces_of(b: chess::Board) -> Seq<PieceComplete> {
    pieces_upto(b, 64)
}

/// The moves listed for board `b`: its legal moves, then those of the other
/// side after a null move, when one is possible.
pub open spec fn listed_moves(b: chess::Board) -> Seq<Move> {
    legal_list(b) + match null_of(b) {
        Some(n) => legal_list(n),
        None => Seq::empty(),
    }
}

/// The pieces on a board, square by square from a1 to h8.
pub fn get_pieces(board: &chess::Board) -> (r: Vec<PieceComplete>)
    ensures
        r@ == pieces_of(*board),
        pieces_wf(r@),
        forall|i: int, j: int| 0 <= i < j < r.len() ==> r[i].square < r[j].square,
{
    let mut res: Vec<PieceComplete> = Vec::new();
    let mut sq: u8 = 0;
    while sq < 64
        invariant
            sq <= 64,
            res@ == pieces_upto(*board, sq as int),
            res.len() <= sq,
            forall|i: int| 0 <= i < res.len() ==> res[i].square < sq,
            forall|i: int, j: int| 0 <= i < j < res.len() ==> res[i].square < res[j].square,
        decreases 64 - sq,
    {
        match (piece_on(board, sq), color_on(board, sq)) {
            (Some(piece), Some(color)) => {
                res.push(PieceComplete { piece, color, square: sq });
            },
            _ => {},
        }
        sq += 1;
    }
    res
}

/// The legal moves of the side to move, followed by those the other side
/// would have if it were to move (none when the side to move is in check).
pub fn get_moves(board: &chess::Board) -> (r: Vec<Move>)
    requires
        within_move_limits(*board),
    ensures
        r@ == listed_moves(*board),
        moves_wf(r@),
{
    let mut moves = legal_moves(board);
    match null_move(board) {
        Some(reversed) => {
            proof {
                lemma_same_pieces(reversed, *board, 64);
            }
            let mut others = legal_moves(&reversed);
            moves.append(&mut others);
        },
        None => {
            assert(moves@ + Seq::<Move>::empty() =~= moves@);
        },
    }
    moves
}

/// Evaluates a board in ten-thousandths of `MAX_REWARD`, White-positive: a
/// finished game scores exactly by its outcome, whatever the board; a game in
/// play scores `position_score` of the board's pieces and listed moves.
pub fn evaluate(board: &chess::Board, num_moves: u32, game_result: Option<GameOutcome>) -> (r: i64)
    requires
        game_result is None ==> within_move_limits(*board),
    ensures
        game_result matches Some(o) ==> r == terminal_score(o),
        game_result is None ==> r == position_score(pieces_of(*board), listed_moves(*board), num_moves as int),
        -SCORE_BOUND <= r <= SCORE_BOUND,
{
    match game_result {
        Some(GameOutcome::WhiteCheckmates) | Some(GameOutcome::BlackResigns) => MAX_REWARD,
        Some(GameOutcome::BlackCheckmates) | Some(GameOutcome::WhiteResigns) => -MAX_REWARD,
        Some(GameOutcome::DrawAccepted) | Some(GameOutcome::DrawDeclared) | Some(GameOutcome::Stalemate) => 0,
        None => {
            let pieces = get_pieces(board);
            let moves = get_moves(board);
            score(&pieces, &moves, num_moves)
        },
    }
}

/// Counts the pieces of colour `c`.
pub fn count_side(pieces: &Vec<PieceComplete>, c: Side) -> (r: usize)
    ensures
        r == side_count(pieces@, c),
{
    let mut n: usize = 0;
    let mut i: usize = 0;
    while i < pieces.len()
        invariant
            i <= pieces.len(),
            n <= i,
            n == side_count(pieces@.subrange(0, i as int), c),
        decreases pieces.len() - i,
    {
        assert(pieces@.subrange(0, i + 1).drop_last() =~= pieces@.subrange(0, i as int));
        if pieces[i].color == c {
            n += 1;
        }
        i += 1;
    }
    assert(pieces@.subrange(0, pieces.len() as int) =~= pieces@);
    n
}

/// Evaluates any board: `None` when a game is in play on a board where a side
/// holds more than 16 pieces, which no game of chess reaches; otherwise what
/// `evaluate` gives.
pub fn evaluate_checked(board: &chess::Board, num_moves: u32, game_result: Option<GameOutcome>) -> (r: Option<i64>)
    ensures
        r is None <==> (game_result is None && !within_move_limits(*board)),
        game_result matches Some(o) ==> r == Some(terminal_score(o) as i64),
        game_result is None && within_move_limits(*board) ==> r == Some(
            position_score(pieces_of(*board), listed_moves(*board), num_moves as int) as i64,
        ),
{
    if game_result.is_none() {
        let pieces = get_pieces(board);
        if count_side(&pieces, Side::White) > 16 || count_side(&pieces, Side::Black) > 16 {
            return None;
        }
    }
    Some(evaluate(board, num_moves, game_result))
}

/// A position in which no positional term applies (kings neither central nor
/// on their back ranks, nothing threatened, nothing mobile, no centre control
/// counted) scores its signed material alone.
pub proof fn lemma_material_only(ps: Seq<PieceComplete>, ms: Seq<Move>, num_moves: int)
    requires
        king_score(ps) == 0,
        threat_score(ps, ms) == 0,
        mobility_score(ps) == 0,
        num_moves > 20 || opening_score(ps, ms) == 0,
    ensures
        position_score(ps, ms, num_moves) == material(ps, ps.len() as int),
{
}

/// A finished game scores by its outcome alone: decisive for White `MAX_REWARD`,
/// decisive for Black `-MAX_REWARD`, drawn 0.
pub proof fn lemma_terminal_scores(o: GameOutcome)
    ensures
        (o == GameOutcome::WhiteCheckmates || o == GameOutcome::BlackResigns) ==> terminal_score(o) == MAX_REWARD,
        (o == GameOutcome::BlackCheckmates || o == GameOutcome::WhiteResigns) ==> terminal_score(o) == -MAX_REWARD,
        (o == GameOutcome::Stalemate || o == GameOutcome::DrawAccepted || o == GameOutcome::DrawDeclared) ==> terminal_score(o) == 0,
{
}

} // verus!
