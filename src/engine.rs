//! The calls into the `chess` engine that the library relies on.
use vstd::prelude::*;
use crate::bits::has_bit;
use crate::evaluator::{pieces_of, side_count};
use crate::pieces::{Move, PieceKind, Side};

verus! {

/// A position of the `chess` engine, carried through opaquely.
#[verifier::external_type_specification]
#[verifier::external_body]
pub struct ExBoard(chess::Board);

/// A FEN layout of the `chess` engine, before it becomes a position.
#[verifier::external_type_specification]
#[verifier::external_body]
pub struct ExBoardBuilder(chess::BoardBuilder);

/// The kind of piece on square `sq` of board `b`.
pub uninterp spec fn board_piece(b: chess::Board, sq: int) -> Option<PieceKind>;

/// The colour of the piece on square `sq` of board `b`.
pub uninterp spec fn board_color(b: chess::Board, sq: int) -> Option<Side>;

/// The side to move on board `b`.
pub uninterp spec fn board_side(b: chess::Board) -> Side;

/// The castle rights of the side to move on board `b`.
pub uninterp spec fn board_mine(b: chess::Board) -> u8;

/// The castle rights of the side not to move on board `b`.
pub uninterp spec fn board_theirs(b: chess::Board) -> u8;

/// The legal moves of board `b`, in the engine's order.
pub uninterp spec fn legal_list(b: chess::Board) -> Seq<Move>;

/// Board `b` with the other side to move, if the side to move is not in check.
pub uninterp spec fn null_of(b: chess::Board) -> Option<chess::Board>;

/// The layout a FEN string describes, if it reads as one.
pub uninterp spec fn fen_layout(s: Seq<char>) -> Option<chess::BoardBuilder>;

/// The piece and colour on square `sq` of layout `l`.
pub uninterp spec fn layout_square(l: chess::BoardBuilder, sq: int) -> Option<(PieceKind, Side)>;

/// The side to move of layout `l`.
pub uninterp spec fn layout_side(l: chess::BoardBuilder) -> Side;

/// The position layout `l` makes, if it is a sane one.
pub uninterp spec fn layout_board(l: chess::BoardBuilder) -> Option<chess::Board>;

/// Whether layout `l` holds a king of the side to move.
pub open spec fn layout_has_mover_king(l: chess::BoardBuilder) -> bool {
    exists|sq: int| 0 <= sq < 64 && #[trigger] layout_square(l, sq) == Some((PieceKind::King, layout_side(l)))
}

/// Distance between two ranks or two files.
pub open spec fn gap(a: int, b: int) -> int {
    if a >= b { a - b } else { b - a }
}

/// A knight on `s` reaches `t`: two ranks and one file apart, or one rank
/// and two files.
pub open spec fn knight_step(s: int, t: int) -> bool {
    (gap(s / 8, t / 8) == 2 && gap(s % 8, t % 8) == 1) || (gap(s / 8, t / 8) == 1 && gap(s % 8, t % 8) == 2)
}

/// A king on `s` reaches `t`: a different square at most one rank and one
/// file away.
pub open spec fn king_step(s: int, t: int) -> bool {
    gap(s / 8, t / 8) <= 1 && gap(s % 8, t % 8) <= 1 && s != t
}

/// A pawn of the given colour on `s` captures on `t`: one rank forward, one
/// file to either side.
pub open spec fn pawn_capture_step(s: int, white: bool, t: int) -> bool {
    t / 8 == s / 8 + (if white { 1int } else { -1 }) && gap(s % 8, t % 8) == 1
}

/// The square `k` steps from `s` in direction (`dr` ranks, `df` files).
pub open spec fn ray_square(s: int, dr: int, df: int, k: int) -> int {
    (s / 8 + k * dr) * 8 + (s % 8 + k * df)
}

/// Whether the square `k` steps from `s` in direction (`dr`, `df`) is on the board.
pub open spec fn ray_on_board(s: int, dr: int, df: int, k: int) -> bool {
    0 <= s / 8 + k * dr < 8 && 0 <= s % 8 + k * df < 8
}

/// A piece sliding from `s` in direction (`dr`, `df`) reaches `t`: every
/// square before `t` on the way is free of `blockers`; `t` itself may hold one.
pub open spec fn slides_to(s: int, t: int, dr: int, df: int, blockers: u64) -> bool {
    exists|k: int|
        1 <= k <= 7 && ray_on_board(s, dr, df, k) && t == #[trigger] ray_square(s, dr, df, k) && forall|j: int|
            1 <= j < k ==> !has_bit(blockers, #[trigger] ray_square(s, dr, df, j))
}

/// A rook on `s` reaches `t` along a rank or a file.
pub open spec fn rook_step(s: int, t: int, blockers: u64) -> bool {
    slides_to(s, t, 1, 0, blockers) || slides_to(s, t, -1, 0, blockers) || slides_to(s, t, 0, 1, blockers)
        || slides_to(s, t, 0, -1, blockers)
}

/// A bishop on `s` reaches `t` along a diagonal.
pub open spec fn bishop_step(s: int, t: int, blockers: u64) -> bool {
    slides_to(s, t, 1, 1, blockers) || slides_to(s, t, 1, -1, blockers) || slides_to(s, t, -1, 1, blockers)
        || slides_to(s, t, -1, -1, blockers)
}

/// A pawn of the given colour on `s` advances to `t` without capturing: one
/// square forward when it is free of `blockers`, or two from its starting
/// rank when both are free.
pub open spec fn pawn_push(s: int, white: bool, t: int, blockers: u64) -> bool {
    let dir = if white { 1int } else { -1 };
    let start = if white { 1int } else { 6 };
    ray_on_board(s, dir, 0, 1) && !has_bit(blockers, ray_square(s, dir, 0, 1)) && (t == ray_square(s, dir, 0, 1)
        || (s / 8 == start && t == ray_square(s, dir, 0, 2) && !has_bit(blockers, t)))
}

/// The king moves from square `sq`, as a bitboard.
pub uninterp spec fn king_targets(sq: int) -> u64;

/// The knight moves from square `sq`, as a bitboard.
pub uninterp spec fn knight_targets(sq: int) -> u64;

/// The bishop moves from `sq` with the given blocking squares.
pub uninterp spec fn bishop_targets(sq: int, blockers: u64) -> u64;

/// The rook moves from `sq` with the given blocking squares.
pub uninterp spec fn rook_targets(sq: int, blockers: u64) -> u64;

/// The squares among `victims` that a pawn of the given colour on `sq` captures on.
pub uninterp spec fn pawn_attack_targets(sq: int, white: bool, victims: u64) -> u64;

/// The non-capturing moves of a pawn of the given colour on `sq`.
pub uninterp spec fn pawn_quiet_targets(sq: int, white: bool, blockers: u64) -> u64;

/// Relies on `chess::Board::piece_on`: the kind of piece on square `sq`.
#[verifier::external_body]
pub(crate) fn piece_on(board: &chess::Board, sq: u8) -> (r: Option<PieceKind>)
    requires
        sq < 64,
    ensures
        r == board_piece(*board, sq as int),
{
    board.piece_on(chess::ALL_SQUARES[sq as usize]).map(|p| match p {
        chess::Piece::Pawn => PieceKind::Pawn,
        chess::Piece::Knight => PieceKind::Knight,
        chess::Piece::Bishop => PieceKind::Bishop,
        chess::Piece::Rook => PieceKind::Rook,
        chess::Piece::Queen => PieceKind::Queen,
        chess::Piece::King => PieceKind::King,
    })
}

/// Relies on `chess::Board::color_on`: the colour of the piece on square `sq`.
#[verifier::external_body]
pub(crate) fn color_on(board: &chess::Board, sq: u8) -> (r: Option<Side>)
    requires
        sq < 64,
    ensures
        r == board_color(*board, sq as int),
{
    board.color_on(chess::ALL_SQUARES[sq as usize]).map(|c| match c {
        chess::Color::White => Side::White,
        chess::Color::Black => Side::Black,
    })
}

/// Relies on `chess::Board::side_to_move`.
#[verifier::external_body]
pub(crate) fn side_to_move(board: &chess::Board) -> (r: Side)
    ensures
        r == board_side(*board),
{
    match board.side_to_move() {
        chess::Color::White => Side::White,
        chess::Color::Black => Side::Black,
    }
}

/// Relies on `chess::Board::my_castle_rights` and `CastleRights::to_index`:
/// 0 none, 1 kingside, 2 queenside, 3 both.
#[verifier::external_body]
pub(crate) fn my_castle_rights(board: &chess::Board) -> (r: u8)
    ensures
        r == board_mine(*board),
        r < 4,
{
    board.my_castle_rights().to_index() as u8
}

/// Relies on `chess::Board::their_castle_rights` and `CastleRights::to_index`:
/// 0 none, 1 kingside, 2 queenside, 3 both.
#[verifier::external_body]
pub(crate) fn their_castle_rights(board: &chess::Board) -> (r: u8)
    ensures
        r == board_theirs(*board),
        r < 4,
{
    board.their_castle_rights().to_index() as u8
}

/// Relies on `chess::MoveGen::new_legal`: the legal moves of the side to move,
/// in the engine's order. The generator stores its entries in an array of 18
/// without checking: one entry per piece of the side to move that can move,
/// plus at most two for en-passant captures. So the side to move may hold at
/// most 16 pieces. Each entry is a bitboard of at most 64 targets, each target
/// yielding at most 4 promotions.
#[verifier::external_body]
pub(crate) fn legal_moves(board: &chess::Board) -> (r: Vec<Move>)
    requires
        side_count(pieces_of(*board), board_side(*board)) <= 16,
    ensures
        r@ == legal_list(*board),
        r.len() <= 4608,
        forall|i: int| 0 <= i < r.len() ==> r[i].source < 64 && r[i].dest < 64,
{
    chess::MoveGen::new_legal(board)
        .map(|m| Move { source: m.get_source().to_int(), dest: m.get_dest().to_int() })
        .collect()
}

/// Relies on `chess::Board::null_move`: the same position with the other side
/// to move, or `None` when the side to move is in check. The engine copies the
/// board and flips the side to move, leaving every piece where it stands.
#[verifier::external_body]
pub(crate) fn null_move(board: &chess::Board) -> (r: Option<chess::Board>)
    ensures
        r == null_of(*board),
        r matches Some(n) ==> board_side(n) != board_side(*board) && forall|sq: int|
            0 <= sq < 64 ==> #[trigger] board_piece(n, sq) == board_piece(*board, sq) && board_color(n, sq)
                == board_color(*board, sq),
{
    board.null_move()
}

/// Relies on `chess::BoardBuilder::from_str`: reads a FEN string into a
/// layout, or `None` when it does not read as one. The reader walks the text
/// by characters and wraps ranks and files, so it returns on every string.
#[verifier::external_body]
pub(crate) fn parse_fen(fen: &String) -> (r: Option<chess::BoardBuilder>)
    ensures
        r == fen_layout(fen@),
{
    <chess::BoardBuilder as std::str::FromStr>::from_str(fen.as_str()).ok()
}

/// Relies on indexing a `chess::BoardBuilder` by square: the piece and colour
/// placed on square `sq`.
#[verifier::external_body]
pub(crate) fn layout_piece(layout: &chess::BoardBuilder, sq: u8) -> (r: Option<(PieceKind, Side)>)
    requires
        sq < 64,
    ensures
        r == layout_square(*layout, sq as int),
{
    layout[chess::ALL_SQUARES[sq as usize]].map(|(p, c)| (
        match p {
            chess::Piece::Pawn => PieceKind::Pawn,
            chess::Piece::Knight => PieceKind::Knight,
            chess::Piece::Bishop => PieceKind::Bishop,
            chess::Piece::Rook => PieceKind::Rook,
            chess::Piece::Queen => PieceKind::Queen,
            chess::Piece::King => PieceKind::King,
        },
        match c {
            chess::Color::White => Side::White,
            chess::Color::Black => Side::Black,
        },
    ))
}

/// Relies on `chess::BoardBuilder::get_side_to_move`.
#[verifier::external_body]
pub(crate) fn layout_mover(layout: &chess::BoardBuilder) -> (r: Side)
    ensures
        r == layout_side(*layout),
{
    match layout.get_side_to_move() {
        chess::Color::White => Side::White,
        chess::Color::Black => Side::Black,
    }
}

/// Relies on `TryFrom<&BoardBuilder> for Board`: the position, or `None` when
/// the layout is not sane. The conversion locates the king of the side to
/// move before it checks sanity, so the layout must hold one.
#[verifier::external_body]
pub(crate) fn board_from_layout(layout: &chess::BoardBuilder) -> (r: Option<chess::Board>)
    requires
        layout_has_mover_king(*layout),
    ensures
        r == layout_board(*layout),
{
    <chess::Board as std::convert::TryFrom<&chess::BoardBuilder>>::try_from(layout).ok()
}

/// Relies on `chess::get_king_moves`, a table that the crate's build step
/// fills with the squares one step away.
#[verifier::external_body]
pub(crate) fn king_moves(sq: u8) -> (r: u64)
    requires
        sq < 64,
    ensures
        r == king_targets(sq as int),
        forall|t: int| 0 <= t < 64 ==> (#[trigger] has_bit(r, t) <==> king_step(sq as int, t)),
{
    chess::get_king_moves(chess::ALL_SQUARES[sq as usize]).0
}

/// Relies on `chess::get_knight_moves`, a table that the crate's build step
/// fills with the squares a knight's jump away.
#[verifier::external_body]
pub(crate) fn knight_moves(sq: u8) -> (r: u64)
    requires
        sq < 64,
    ensures
        r == knight_targets(sq as int),
        forall|t: int| 0 <= t < 64 ==> (#[trigger] has_bit(r, t) <==> knight_step(sq as int, t)),
{
    chess::get_knight_moves(chess::ALL_SQUARES[sq as usize]).0
}

/// Relies on `chess::get_bishop_moves`: a magic lookup into answers that the
/// build step computes by walking each diagonal up to and including the
/// first blocker.
#[verifier::external_body]
pub(crate) fn bishop_moves(sq: u8, blockers: u64) -> (r: u64)
    requires
        sq < 64,
    ensures
        r == bishop_targets(sq as int, blockers),
        forall|t: int| 0 <= t < 64 ==> (#[trigger] has_bit(r, t) <==> bishop_step(sq as int, t, blockers)),
{
    chess::get_bishop_moves(chess::ALL_SQUARES[sq as usize], chess::BitBoard(blockers)).0
}

/// Relies on `chess::get_rook_moves`: a magic lookup into answers that the
/// build step computes by walking each rank and file direction up to and
/// including the first blocker.
#[verifier::external_body]
pub(crate) fn rook_moves(sq: u8, blockers: u64) -> (r: u64)
    requires
        sq < 64,
    ensures
        r == rook_targets(sq as int, blockers),
        forall|t: int| 0 <= t < 64 ==> (#[trigger] has_bit(r, t) <==> rook_step(sq as int, t, blockers)),
{
    chess::get_rook_moves(chess::ALL_SQUARES[sq as usize], chess::BitBoard(blockers)).0
}

/// Relies on `chess::get_pawn_attacks`: the build step's table of the two
/// forward diagonal squares, masked by `victims`.
#[verifier::external_body]
pub(crate) fn pawn_attacks(sq: u8, side: Side, victims: u64) -> (r: u64)
    requires
        sq < 64,
    ensures
        r == pawn_attack_targets(sq as int, side == Side::White, victims),
        forall|t: int|
            0 <= t < 64 ==> (#[trigger] has_bit(r, t) <==> (pawn_capture_step(sq as int, side == Side::White, t)
                && has_bit(victims, t))),
{
    let color = match side {
        Side::White => chess::Color::White,
        Side::Black => chess::Color::Black,
    };
    chess::get_pawn_attacks(chess::ALL_SQUARES[sq as usize], color, chess::BitBoard(victims)).0
}

/// Relies on `chess::get_pawn_quiets`: nothing when the square ahead is
/// blocked, else the build step's table of forward squares (two from the
/// starting rank) less the blocked ones.
#[verifier::external_body]
pub(crate) fn pawn_quiets(sq: u8, side: Side, blockers: u64) -> (r: u64)
    requires
        sq < 64,
    ensures
        r == pawn_quiet_targets(sq as int, side == Side::White, blockers),
        forall|t: int|
            0 <= t < 64 ==> (#[trigger] has_bit(r, t) <==> pawn_push(sq as int, side == Side::White, t, blockers)),
{
    let color = match side {
        Side::White => chess::Color::White,
        Side::Black => chess::Color::Black,
    };
    chess::get_pawn_quiets(chess::ALL_SQUARES[sq as usize], color, chess::BitBoard(blockers)).0
}

} // verus!
