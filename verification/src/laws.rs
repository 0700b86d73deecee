//! Laws of the move generators, proved from the model.

use vstd::prelude::*;
use crate::model::{
    bishop_moves, forward, free_run, hostile, is_direction, king_moves, knight_moves, landing,
    leaper_moves, move_to, on_board, pawn_advances, pawn_capture, pawn_moves, ray_moves,
    ray_reach, reaches, rook_moves, sound_move, sound_moves, vacant,
};
use crate::moves::{bish_move, king_move, knight_move, pawn_move, rook_move};
use crate::types::{BoardState, Color, Move, MoveList};

verus! {

/// Joining two lists of moves that are consistent with the board gives a
/// list that is consistent with the board.
pub proof fn lemma_sound_moves_concat(
    board: BoardState,
    color: Color,
    front: Seq<Move>,
    back: Seq<Move>,
)
    requires
        sound_moves(board, color, front),
        sound_moves(board, color, back),
    ensures
        sound_moves(board, color, front + back),
{
}

/// Landing on a cell only ever yields a move onto the board, flagged as a
/// capture exactly when an enemy stood there.
pub proof fn lemma_landing_sound(board: BoardState, color: Color, file: int, rank: int)
    ensures
        sound_moves(board, color, landing(board, color, file, rank)),
{
}

/// Every cell that `free_run` counts is empty.
proof fn lemma_counted_cells_vacant(
    board: BoardState,
    file: int,
    rank: int,
    df: int,
    dr: int,
    dist: int,
    d: int,
)
    requires
        1 <= dist <= d < dist + free_run(board, file, rank, df, dr, dist),
    ensures
        vacant(board, file + df * d, rank + dr * d),
    decreases 8 - dist,
{
    if d != dist {
        lemma_counted_cells_vacant(board, file, rank, df, dr, dist + 1, d);
    }
}

/// The count of `free_run` stops within seven steps, at the edge of the
/// board or in front of an occupied cell.
proof fn lemma_run_ends(board: BoardState, file: int, rank: int, df: int, dr: int, dist: int)
    requires
        1 <= dist <= 8,
        on_board(file, rank),
        is_direction(df, dr),
    ensures
        ({
            let end = dist + free_run(board, file, rank, df, dr, dist);
            end <= 8 && !vacant(board, file + df * end, rank + dr * end)
        }),
    decreases 8 - dist,
{
    if dist < 8 && vacant(board, file + df * dist, rank + dr * dist) {
        lemma_run_ends(board, file, rank, df, dr, dist + 1);
    }
}

/// The shape of one ray of a sliding piece.
///
/// The ray holds at most seven moves, and its entry number `i` goes to the
/// cell `i + 1` steps from the origin. Every entry but the last is a quiet
/// move onto a cell that is empty. The last entry is a capture exactly
/// when an enemy stands on its cell, and a quiet move exactly when its
/// cell is empty. A ray that does not end in a capture stops because the
/// cell directly beyond its last entry is off the board or held by a
/// friend; nothing is returned beyond a capture.
pub proof fn lemma_ray_moves_shape(
    board: BoardState,
    color: Color,
    file: int,
    rank: int,
    df: int,
    dr: int,
)
    requires
        on_board(file, rank),
        is_direction(df, dr),
    ensures
        ({
            let ray = ray_moves(board, color, file, rank, df, dr);
            let len = ray.len() as int;
            &&& len <= 7
            &&& forall|i: int|
                0 <= i < len ==> {
                    &&& (#[trigger] ray[i]).0.0 == file + df * (i + 1)
                    &&& ray[i].0.1 == rank + dr * (i + 1)
                }
            &&& forall|i: int|
                0 <= i < len - 1 ==> {
                    &&& !(#[trigger] ray[i]).1
                    &&& vacant(board, ray[i].0.0 as int, ray[i].0.1 as int)
                }
            &&& len > 0 ==> {
                &&& ray.last().1 <==> hostile(
                    board,
                    color,
                    ray.last().0.0 as int,
                    ray.last().0.1 as int,
                )
                &&& !ray.last().1 <==> vacant(board, ray.last().0.0 as int, ray.last().0.1 as int)
            }
            &&& !(len > 0 && ray.last().1) ==> {
                &&& !vacant(board, file + df * (len + 1), rank + dr * (len + 1))
                &&& !hostile(board, color, file + df * (len + 1), rank + dr * (len + 1))
            }
        }),
{
    let ray = ray_moves(board, color, file, rank, df, dr);
    let reach = ray_reach(board, file, rank, df, dr) as int;
    lemma_run_ends(board, file, rank, df, dr, 1);
    assert forall|i: int| 0 <= i < reach implies {
        &&& vacant(board, file + df * (i + 1), rank + dr * (i + 1))
        &&& #[trigger] ray[i] == move_to(file + df * (i + 1), rank + dr * (i + 1), false)
    } by {
        lemma_counted_cells_vacant(board, file, rank, df, dr, 1, i + 1);
    }
    if reach == 7 {
        assert(!on_board(file + df * 8, rank + dr * 8));
    }
}

/// Every move of a ray goes to a cell of the board, and is flagged as a
/// capture if and only if an enemy of the mover stood on that cell.
pub proof fn lemma_ray_moves_sound(
    board: BoardState,
    color: Color,
    file: int,
    rank: int,
    df: int,
    dr: int,
)
    requires
        on_board(file, rank),
        is_direction(df, dr),
    ensures
        sound_moves(board, color, ray_moves(board, color, file, rank, df, dr)),
{
    lemma_ray_moves_shape(board, color, file, rank, df, dr);
}

/// Every move of a rook goes to a cell of the board, and is flagged as a
/// capture if and only if an enemy of the mover stood on that cell.
pub proof fn lemma_rook_moves_sound(board: BoardState, color: Color, file: int, rank: int)
    requires
        on_board(file, rank),
    ensures
        sound_moves(board, color, rook_moves(board, color, file, rank)),
{
    let east = ray_moves(board, color, file, rank, 1, 0);
    let west = ray_moves(board, color, file, rank, -1, 0);
    let north = ray_moves(board, color, file, rank, 0, 1);
    let south = ray_moves(board, color, file, rank, 0, -1);
    lemma_ray_moves_sound(board, color, file, rank, 1, 0);
    lemma_ray_moves_sound(board, color, file, rank, -1, 0);
    lemma_ray_moves_sound(board, color, file, rank, 0, 1);
    lemma_ray_moves_sound(board, color, file, rank, 0, -1);
    lemma_sound_moves_concat(board, color, east, west);
    lemma_sound_moves_concat(board, color, east + west, north);
    lemma_sound_moves_concat(board, color, east + west + north, south);
}

/// Every move of a bishop goes to a cell of the board, and is flagged as
/// a capture if and only if an enemy of the mover stood on that cell.
pub proof fn lemma_bishop_moves_sound(board: BoardState, color: Color, file: int, rank: int)
    requires
        on_board(file, rank),
    ensures
        sound_moves(board, color, bishop_moves(board, color, file, rank)),
{
    let north_east = ray_moves(board, color, file, rank, 1, 1);
    let south_west = ray_moves(board, color, file, rank, -1, -1);
    let north_west = ray_moves(board, color, file, rank, -1, 1);
    let south_east = ray_moves(board, color, file, rank, 1, -1);
    lemma_ray_moves_sound(board, color, file, rank, 1, 1);
    lemma_ray_moves_sound(board, color, file, rank, -1, -1);
    lemma_ray_moves_sound(board, color, file, rank, -1, 1);
    lemma_ray_moves_sound(board, color, file, rank, 1, -1);
    lemma_sound_moves_concat(board, color, north_east, south_west);
    lemma_sound_moves_concat(board, color, north_east + south_west, north_west);
    lemma_sound_moves_concat(board, color, north_east + south_west + north_west, south_east);
}

/// Every move of a leaper goes to a cell of the board, and is flagged as
/// a capture if and only if an enemy of the mover stood on that cell,
/// whatever its table of offsets; no offset gives more than one move.
pub proof fn lemma_leaper_moves_sound(
    board: BoardState,
    color: Color,
    file: int,
    rank: int,
    offsets: Seq<(i8, i8)>,
)
    ensures
        sound_moves(board, color, leaper_moves(board, color, file, rank, offsets)),
        leaper_moves(board, color, file, rank, offsets).len() <= offsets.len(),
    decreases offsets.len(),
{
    if offsets.len() > 0 {
        lemma_leaper_moves_sound(board, color, file, rank, offsets.drop_last());
        lemma_landing_sound(board, color, file + offsets.last().0, rank + offsets.last().1);
        lemma_sound_moves_concat(
            board,
            color,
            leaper_moves(board, color, file, rank, offsets.drop_last()),
            landing(board, color, file + offsets.last().0, rank + offsets.last().1),
        );
    }
}

/// Every move of a pawn goes to a cell of the board, and is flagged as a
/// capture if and only if an enemy of the mover stood on that cell; a pawn
/// has at most four moves.
pub proof fn lemma_pawn_moves_sound(
    board: BoardState,
    color: Color,
    file: int,
    rank: int,
    first_move: bool,
)
    ensures
        sound_moves(board, color, pawn_moves(board, color, file, rank, first_move)),
        pawn_moves(board, color, file, rank, first_move).len() <= 4,
{
    let ahead = rank + forward(color);
    let straight = pawn_advances(board, color, file, rank, first_move);
    let high = pawn_capture(board, color, file + 1, ahead);
    let low = pawn_capture(board, color, file - 1, ahead);
    lemma_sound_moves_concat(board, color, straight, high);
    lemma_sound_moves_concat(board, color, straight + high, low);
}

/// A pawn steps two ranks forward if and only if it has not moved before
/// and both the cell it passes over and the cell it arrives on are empty.
pub proof fn lemma_pawn_double_step(
    board: BoardState,
    color: Color,
    file: int,
    rank: int,
    first_move: bool,
)
    ensures
        reaches(
            pawn_moves(board, color, file, rank, first_move),
            file,
            rank + 2 * forward(color),
        ) <==> first_move && vacant(board, file, rank + forward(color)) && vacant(
            board,
            file,
            rank + 2 * forward(color),
        ),
{
    let ahead = rank + forward(color);
    let two_ahead = rank + 2 * forward(color);
    let moves = pawn_moves(board, color, file, rank, first_move);
    if first_move && vacant(board, file, ahead) && vacant(board, file, two_ahead) {
        assert(moves[1] == move_to(file, two_ahead, false));
    }
}

/// A pawn whose cell in front is occupied does not step two ranks forward,
/// whether it has moved before or not and whatever stands two ranks ahead.
pub proof fn lemma_pawn_blocked_no_double_step(
    board: BoardState,
    color: Color,
    file: int,
    rank: int,
    first_move: bool,
)
    requires
        !vacant(board, file, rank + forward(color)),
    ensures
        !reaches(
            pawn_moves(board, color, file, rank, first_move),
            file,
            rank + 2 * forward(color),
        ),
{
    lemma_pawn_double_step(board, color, file, rank, first_move);
}

/// Generating the moves of a pawn twice from the same square, colour,
/// flag and board gives the same list, order included.
pub proof fn lemma_pawn_move_repeatable(
    sq: (usize, usize),
    color: Color,
    first_move: bool,
    board: BoardState,
    first: MoveList,
    second: MoveList,
)
    requires
        call_ensures(pawn_move, (sq, &color, &first_move, &board), first),
        call_ensures(pawn_move, (sq, &color, &first_move, &board), second),
    ensures
        first@ == second@,
{
}

/// Generating the moves of a rook twice from the same square, colour and
/// board gives the same list, order included.
pub proof fn lemma_rook_move_repeatable(
    sq: (usize, usize),
    color: Color,
    board: BoardState,
    first: MoveList,
    second: MoveList,
)
    requires
        call_ensures(rook_move, (sq, &color, &board), first),
        call_ensures(rook_move, (sq, &color, &board), second),
    ensures
        first@ == second@,
{
}

/// Generating the moves of a bishop twice from the same square, colour
/// and board gives the same list, order included.
pub proof fn lemma_bish_move_repeatable(
    sq: (usize, usize),
    color: Color,
    board: BoardState,
    first: MoveList,
    second: MoveList,
)
    requires
        call_ensures(bish_move, (sq, &color, &board), first),
        call_ensures(bish_move, (sq, &color, &board), second),
    ensures
        first@ == second@,
{
}

/// Generating the moves of a king twice from the same square, colour and
/// board gives the same list, order included, whatever the two values of
/// the reserved flag.
pub proof fn lemma_king_move_repeatable(
    sq: (usize, usize),
    color: Color,
    board: BoardState,
    first_flag: bool,
    second_flag: bool,
    first: MoveList,
    second: MoveList,
)
    requires
        call_ensures(king_move, (sq, &color, &board, first_flag), first),
        call_ensures(king_move, (sq, &color, &board, second_flag), second),
    ensures
        first@ == second@,
{
}

/// Generating the moves of a knight twice from the same square, colour
/// and board gives the same list, order included.
pub proof fn lemma_knight_move_repeatable(
    sq: (usize, usize),
    color: Color,
    board: BoardState,
    first: MoveList,
    second: MoveList,
)
    requires
        call_ensures(knight_move, (sq, &color, &board), first),
        call_ensures(knight_move, (sq, &color, &board), second),
    ensures
        first@ == second@,
{
}

} // verus!
