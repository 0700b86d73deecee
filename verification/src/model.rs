//! The mathematical description of the rules: what each generator is
//! required to return, stated over integer coordinates and sequences.

use vstd::prelude::*;
use crate::types::{BoardState, Color, Move, Piece};

verus! {

/// Whether `(file, rank)` names one of the 64 cells.
pub open spec fn on_board(file: int, rank: int) -> bool {
    0 <= file < 8 && 0 <= rank < 8
}

/// What the board holds at `(file, rank)`.
pub open spec fn piece_at(board: BoardState, file: int, rank: int) -> Piece
    recommends
        on_board(file, rank),
{
    board[file][rank]
}

/// The cell exists and nothing stands on it.
pub open spec fn vacant(board: BoardState, file: int, rank: int) -> bool {
    on_board(file, rank) && piece_at(board, file, rank) is Empty
}

/// `piece` is a piece of the side opposite to `color`.
pub open spec fn is_enemy(color: Color, piece: Piece) -> bool {
    match piece.colour() {
        Some(other) => other != color,
        None => false,
    }
}

/// The cell exists and a piece of the side opposite to `color` stands on it.
pub open spec fn hostile(board: BoardState, color: Color, file: int, rank: int) -> bool {
    on_board(file, rank) && is_enemy(color, piece_at(board, file, rank))
}

/// The move to `(file, rank)`, capturing or not.
pub open spec fn move_to(file: int, rank: int, capture: bool) -> Move {
    ((file as usize, rank as usize), capture)
}

/// A move that is consistent with the board: its destination is a cell of
/// the board, it is flagged as a capture exactly when an enemy of `color`
/// stands there, and otherwise the destination is empty.
pub open spec fn sound_move(board: BoardState, color: Color, m: Move) -> bool {
    let file = m.0.0 as int;
    let rank = m.0.1 as int;
    &&& on_board(file, rank)
    &&& m.1 <==> is_enemy(color, piece_at(board, file, rank))
    &&& !m.1 ==> piece_at(board, file, rank) is Empty
}

/// Every move of the list is consistent with the board.
pub open spec fn sound_moves(board: BoardState, color: Color, moves: Seq<Move>) -> bool {
    forall|i: int| 0 <= i < moves.len() ==> sound_move(board, color, #[trigger] moves[i])
}

/// Some move of the list goes to `(file, rank)`.
pub open spec fn reaches(moves: Seq<Move>, file: int, rank: int) -> bool {
    exists|i: int|
        0 <= i < moves.len() && (#[trigger] moves[i]).0.0 == file && moves[i].0.1 == rank
}

/// What trying to land on `(file, rank)` yields for a piece of `color`:
/// a quiet move onto an empty cell, a capture of an enemy, and nothing
/// where the cell is off the board or held by a friend.
pub open spec fn landing(board: BoardState, color: Color, file: int, rank: int) -> Seq<Move> {
    if vacant(board, file, rank) {
        seq![move_to(file, rank, false)]
    } else if hostile(board, color, file, rank) {
        seq![move_to(file, rank, true)]
    } else {
        Seq::empty()
    }
}

/// A ray direction: one step changes file and rank by at most one each,
/// and changes at least one of them.
pub open spec fn is_direction(df: int, dr: int) -> bool {
    &&& -1 <= df <= 1
    &&& -1 <= dr <= 1
    &&& (df != 0 || dr != 0)
}

/// The number of consecutive empty cells met when walking from
/// `(file, rank)` in direction `(df, dr)`, counted from the cell at
/// distance `dist` on. A ray never looks further than seven steps.
pub open spec fn free_run(
    board: BoardState,
    file: int,
    rank: int,
    df: int,
    dr: int,
    dist: int,
) -> nat
    decreases 8 - dist,
{
    if 1 <= dist < 8 && vacant(board, file + df * dist, rank + dr * dist) {
        1 + free_run(board, file, rank, df, dr, dist + 1)
    } else {
        0
    }
}

/// How far a slider at `(file, rank)` can travel in direction `(df, dr)`
/// over empty cells.
pub open spec fn ray_reach(board: BoardState, file: int, rank: int, df: int, dr: int) -> nat {
    free_run(board, file, rank, df, dr, 1)
}

/// The moves of one ray: a quiet move to every cell within reach, nearest
/// first, then whatever landing on the cell just beyond them yields: a
/// capture if an enemy blocks the ray there, nothing otherwise.
pub open spec fn ray_moves(
    board: BoardState,
    color: Color,
    file: int,
    rank: int,
    df: int,
    dr: int,
) -> Seq<Move> {
    let reach = ray_reach(board, file, rank, df, dr);
    let beyond = reach + 1;
    Seq::new(reach, |i: int| move_to(file + df * (i + 1), rank + dr * (i + 1), false))
        + if hostile(board, color, file + df * beyond, rank + dr * beyond) {
        seq![move_to(file + df * beyond, rank + dr * beyond, true)]
    } else {
        Seq::empty()
    }
}

/// All moves of a rook: its four rays, east, west, north, south.
pub open spec fn rook_moves(board: BoardState, color: Color, file: int, rank: int) -> Seq<Move> {
    ray_moves(board, color, file, rank, 1, 0) + ray_moves(board, color, file, rank, -1, 0)
        + ray_moves(board, color, file, rank, 0, 1) + ray_moves(board, color, file, rank, 0, -1)
}

/// All moves of a bishop: its four diagonal rays, north-east, south-west,
/// north-west, south-east.
pub open spec fn bishop_moves(board: BoardState, color: Color, file: int, rank: int) -> Seq<Move> {
    ray_moves(board, color, file, rank, 1, 1) + ray_moves(board, color, file, rank, -1, -1)
        + ray_moves(board, color, file, rank, -1, 1) + ray_moves(board, color, file, rank, 1, -1)
}

/// The change of rank that one step forward makes for a pawn of `color`.
pub open spec fn forward(color: Color) -> int {
    match color {
        Color::White => 1,
        Color::Black => -1,
    }
}

/// `rank` is a rank of the board with another rank in front of it for a
/// pawn of `color`.
pub open spec fn has_rank_ahead(color: Color, rank: int) -> bool {
    0 <= rank < 8 && 0 <= rank + forward(color) < 8
}

/// The straight moves of a pawn: one step forward onto an empty cell, and
/// a second step onto an empty cell if the first was possible and the pawn
/// has not moved before.
pub open spec fn pawn_advances(
    board: BoardState,
    color: Color,
    file: int,
    rank: int,
    first_move: bool,
) -> Seq<Move> {
    let ahead = rank + forward(color);
    let two_ahead = rank + 2 * forward(color);
    if !vacant(board, file, ahead) {
        Seq::empty()
    } else if first_move && vacant(board, file, two_ahead) {
        seq![move_to(file, ahead, false), move_to(file, two_ahead, false)]
    } else {
        seq![move_to(file, ahead, false)]
    }
}

/// What a pawn of `color` gets from attacking `(file, rank)`: a capture if
/// an enemy stands there, nothing otherwise.
pub open spec fn pawn_capture(board: BoardState, color: Color, file: int, rank: int) -> Seq<Move> {
    if hostile(board, color, file, rank) {
        seq![move_to(file, rank, true)]
    } else {
        Seq::empty()
    }
}

/// All moves of a pawn: its straight moves, then the capture towards the
/// higher file, then the capture towards the lower file.
pub open spec fn pawn_moves(
    board: BoardState,
    color: Color,
    file: int,
    rank: int,
    first_move: bool,
) -> Seq<Move> {
    let ahead = rank + forward(color);
    pawn_advances(board, color, file, rank, first_move) + pawn_capture(
        board,
        color,
        file + 1,
        ahead,
    ) + pawn_capture(board, color, file - 1, ahead)
}

/// The moves of a piece that jumps by fixed offsets: for each offset of
/// the table in turn, what landing on the cell it leads to yields.
pub open spec fn leaper_moves(
    board: BoardState,
    color: Color,
    file: int,
    rank: int,
    offsets: Seq<(i8, i8)>,
) -> Seq<Move>
    decreases offsets.len(),
{
    if offsets.len() == 0 {
        Seq::empty()
    } else {
        leaper_moves(board, color, file, rank, offsets.drop_last()) + landing(
            board,
            color,
            file + offsets.last().0,
            rank + offsets.last().1,
        )
    }
}

/// The eight jumps of a knight, in the order in which they are tried.
pub open spec fn knight_offsets() -> Seq<(i8, i8)> {
    seq![
        (2i8, 1i8),
        (2i8, -1i8),
        (1i8, 2i8),
        (1i8, -2i8),
        (-2i8, 1i8),
        (-2i8, -1i8),
        (-1i8, 2i8),
        (-1i8, -2i8),
    ]
}

/// The eight steps of a king, in the order in which they are tried.
pub open spec fn king_offsets() -> Seq<(i8, i8)> {
    seq![
        (1i8, 1i8),
        (1i8, -1i8),
        (-1i8, 1i8),
        (-1i8, -1i8),
        (0i8, 1i8),
        (1i8, 0i8),
        (-1i8, 0i8),
        (0i8, -1i8),
    ]
}

/// All moves of a knight.
pub open spec fn knight_moves(board: BoardState, color: Color, file: int, rank: int) -> Seq<Move> {
    leaper_moves(board, color, file, rank, knight_offsets())
}

/// All moves of a king. Castling is not among them.
pub open spec fn king_moves(board: BoardState, color: Color, file: int, rank: int) -> Seq<Move> {
    leaper_moves(board, color, file, rank, king_offsets())
}

} // verus!
