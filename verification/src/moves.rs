//! The move generators, one per piece archetype.

use vstd::prelude::*;
use crate::laws::{
    lemma_bishop_moves_sound, lemma_leaper_moves_sound, lemma_pawn_double_step,
    lemma_pawn_moves_sound, lemma_rook_moves_sound,
};
use crate::model::{
    bishop_moves, forward, free_run, has_rank_ahead, is_direction, king_moves, king_offsets,
    knight_moves, knight_offsets, landing, leaper_moves, move_to, on_board, pawn_capture,
    pawn_moves, ray_moves, ray_reach, reaches, rook_moves, sound_moves, vacant,
};
use crate::types::{BoardState, Color, MoveList, Piece};
use crate::utils::{check_enemy, in_bounds};

verus! {

/// Walks one ray from `sq` in direction `(df, dr)` and appends its moves:
/// every empty cell up to the first obstruction, then the obstruction
/// itself if it is an enemy.
fn scan_ray(
    sq: (usize, usize),
    df: i8,
    dr: i8,
    color: &Color,
    board: &BoardState,
    moves: &mut MoveList,
)
    requires
        on_board(sq.0 as int, sq.1 as int),
        is_direction(df as int, dr as int),
    ensures
        final(moves)@ == old(moves)@ + ray_moves(
            *board,
            *color,
            sq.0 as int,
            sq.1 as int,
            df as int,
            dr as int,
        ),
{
    let ghost origin_file = sq.0 as int;
    let ghost origin_rank = sq.1 as int;
    let ghost before = moves@;
    let mut file: i8 = sq.0 as i8;
    let mut rank: i8 = sq.1 as i8;
    let mut dist: i8 = 1;
    while dist < 8
        invariant_except_break
            1 <= dist <= 8,
            on_board(file as int, rank as int),
            file == origin_file + df * (dist - 1),
            rank == origin_rank + dr * (dist - 1),
            ray_reach(*board, origin_file, origin_rank, df as int, dr as int) == (dist - 1)
                + free_run(*board, origin_file, origin_rank, df as int, dr as int, dist as int),
            moves@ == before + Seq::new(
                (dist - 1) as nat,
                |i: int| move_to(origin_file + df * (i + 1), origin_rank + dr * (i + 1), false),
            ),
        invariant
            origin_file == sq.0,
            origin_rank == sq.1,
            on_board(origin_file, origin_rank),
            is_direction(df as int, dr as int),
        ensures
            moves@ == before + ray_moves(
                *board,
                *color,
                origin_file,
                origin_rank,
                df as int,
                dr as int,
            ),
        decreases 8 - dist,
    {
        assert(df * (dist - 1) + df == df * dist) by (nonlinear_arith);
        assert(dr * (dist - 1) + dr == dr * dist) by (nonlinear_arith);
        file = file + df;
        rank = rank + dr;
        if !in_bounds(file, rank) {
            break ;
        }
        let piece = board[file as usize][rank as usize];
        if piece != Piece::Empty {
            if check_enemy(color, piece) {
                moves.push(((file as usize, rank as usize), true));
            }
            break ;
        }
        moves.push(((file as usize, rank as usize), false));
        dist = dist + 1;
    }
}

/// Appends the capture of whatever enemy of `color` stands on the
/// candidate `(file, rank)`; an empty cell, a friend or a candidate off
/// the board gives nothing.
fn try_pawn_capture(file: i8, rank: i8, color: &Color, board: &BoardState, moves: &mut MoveList)
    ensures
        final(moves)@ == old(moves)@ + pawn_capture(*board, *color, file as int, rank as int),
{
    if in_bounds(file, rank) && check_enemy(color, board[file as usize][rank as usize]) {
        moves.push(((file as usize, rank as usize), true));
    }
}

/// The pseudo-legal moves of a pawn of `color` standing on `sq`.
///
/// White pawns walk towards higher ranks, black pawns towards lower ones.
/// The pawn steps one rank forward if that cell is empty, and a second
/// rank if `first_move` is set and that cell is empty too; it captures an
/// enemy standing diagonally in front of it. Promotion and capture in
/// passing are not generated.
///
/// The pawn must not stand on the last rank of its walk.
pub fn pawn_move(sq: (usize, usize), color: &Color, first_move: &bool, board: &BoardState) -> (moves:
    MoveList)
    requires
        on_board(sq.0 as int, sq.1 as int),
        has_rank_ahead(*color, sq.1 as int),
    ensures
        moves@ == pawn_moves(*board, *color, sq.0 as int, sq.1 as int, *first_move),
        moves@.len() <= 4,
        sound_moves(*board, *color, moves@),
        reaches(moves@, sq.0 as int, sq.1 + 2 * forward(*color)) <==> *first_move && vacant(
            *board,
            sq.0 as int,
            sq.1 + forward(*color),
        ) && vacant(*board, sq.0 as int, sq.1 + 2 * forward(*color)),
        !vacant(*board, sq.0 as int, sq.1 + forward(*color)) ==> !reaches(
            moves@,
            sq.0 as int,
            sq.1 + 2 * forward(*color),
        ),
{
    proof {
        lemma_pawn_moves_sound(*board, *color, sq.0 as int, sq.1 as int, *first_move);
        lemma_pawn_double_step(*board, *color, sq.0 as int, sq.1 as int, *first_move);
    }
    let mut moves: MoveList = Vec::new();
    let step: i8 = match color {
        Color::White => 1,
        Color::Black => -1,
    };
    let file: i8 = sq.0 as i8;
    let ahead: i8 = sq.1 as i8 + step;
    if board[sq.0][ahead as usize] == Piece::Empty {
        moves.push(((sq.0, ahead as usize), false));
        let two_ahead: i8 = ahead + step;
        if *first_move && in_bounds(file, two_ahead) && board[sq.0][two_ahead as usize]
            == Piece::Empty {
            moves.push(((sq.0, two_ahead as usize), false));
        }
    }
    try_pawn_capture(file + 1, ahead, color, board, &mut moves);
    try_pawn_capture(file - 1, ahead, color, board, &mut moves);
    moves
}

/// The pseudo-legal moves of a rook of `color` standing on `sq`: along
/// each of the four axis directions, every empty cell up to the first
/// piece met, and that piece's cell as a capture if it is an enemy.
pub fn rook_move(sq: (usize, usize), color: &Color, board: &BoardState) -> (moves: MoveList)
    requires
        on_board(sq.0 as int, sq.1 as int),
    ensures
        moves@ == rook_moves(*board, *color, sq.0 as int, sq.1 as int),
        sound_moves(*board, *color, moves@),
{
    proof {
        lemma_rook_moves_sound(*board, *color, sq.0 as int, sq.1 as int);
    }
    let mut moves: MoveList = Vec::new();
    scan_ray(sq, 1, 0, color, board, &mut moves);
    scan_ray(sq, -1, 0, color, board, &mut moves);
    scan_ray(sq, 0, 1, color, board, &mut moves);
    scan_ray(sq, 0, -1, color, board, &mut moves);
    moves
}

/// The pseudo-legal moves of a bishop of `color` standing on `sq`: along
/// each of the four diagonals, every empty cell up to the first piece met,
/// and that piece's cell as a capture if it is an enemy.
pub fn bish_move(sq: (usize, usize), color: &Color, board: &BoardState) -> (moves: MoveList)
    requires
        on_board(sq.0 as int, sq.1 as int),
    ensures
        moves@ == bishop_moves(*board, *color, sq.0 as int, sq.1 as int),
        sound_moves(*board, *color, moves@),
{
    proof {
        lemma_bishop_moves_sound(*board, *color, sq.0 as int, sq.1 as int);
    }
    let mut moves: MoveList = Vec::new();
    scan_ray(sq, 1, 1, color, board, &mut moves);
    scan_ray(sq, -1, -1, color, board, &mut moves);
    scan_ray(sq, -1, 1, color, board, &mut moves);
    scan_ray(sq, 1, -1, color, board, &mut moves);
    moves
}

/// The jumps of a knight as `(file, rank)` changes.
pub const KNIGHT_VECTORS: [(i8, i8); 8] = [
    (2, 1),
    (2, -1),
    (1, 2),
    (1, -2),
    (-2, 1),
    (-2, -1),
    (-1, 2),
    (-1, -2),
];

/// The steps of a king as `(file, rank)` changes.
pub const KING_VECTORS: [(i8, i8); 8] = [
    (1, 1),
    (1, -1),
    (-1, 1),
    (-1, -1),
    (0, 1),
    (1, 0),
    (-1, 0),
    (0, -1),
];

/// Tries to land a piece of `color` on the candidate `(file, rank)` and
/// appends what comes of it: a quiet move onto an empty cell, a capture of
/// an enemy, nothing off the board or onto a friend.
fn try_landing(file: i8, rank: i8, color: &Color, board: &BoardState, moves: &mut MoveList)
    ensures
        final(moves)@ == old(moves)@ + landing(*board, *color, file as int, rank as int),
{
    if in_bounds(file, rank) {
        let piece = board[file as usize][rank as usize];
        if piece == Piece::Empty {
            moves.push(((file as usize, rank as usize), false));
        } else if check_enemy(color, piece) {
            moves.push(((file as usize, rank as usize), true));
        }
    }
}

/// Tries every offset of `table` from `sq`, in order.
fn leap(sq: (usize, usize), table: &[(i8, i8); 8], color: &Color, board: &BoardState) -> (moves:
    MoveList)
    requires
        on_board(sq.0 as int, sq.1 as int),
        forall|k: int|
            0 <= k < 8 ==> -8 <= (#[trigger] table[k]).0 <= 8 && -8 <= table[k].1 <= 8,
    ensures
        moves@ == leaper_moves(*board, *color, sq.0 as int, sq.1 as int, table@),
{
    let mut moves: MoveList = Vec::new();
    let mut i: usize = 0;
    while i < 8
        invariant
            i <= 8,
            on_board(sq.0 as int, sq.1 as int),
            forall|k: int|
                0 <= k < 8 ==> -8 <= (#[trigger] table[k]).0 <= 8 && -8 <= table[k].1 <= 8,
            moves@ == leaper_moves(*board, *color, sq.0 as int, sq.1 as int, table@.take(i as int)),
        decreases 8 - i,
    {
        let vector = table[i];
        let file = sq.0 as i8 + vector.0;
        let rank = sq.1 as i8 + vector.1;
        try_landing(file, rank, color, board, &mut moves);
        proof {
            assert(table@.take(i + 1).drop_last() =~= table@.take(i as int));
        }
        i = i + 1;
    }
    proof {
        assert(table@.take(8) =~= table@);
    }
    moves
}

/// The pseudo-legal moves of a knight of `color` standing on `sq`.
pub fn knight_move(sq: (usize, usize), color: &Color, board: &BoardState) -> (moves: MoveList)
    requires
        on_board(sq.0 as int, sq.1 as int),
    ensures
        moves@ == knight_moves(*board, *color, sq.0 as int, sq.1 as int),
        moves@.len() <= 8,
        sound_moves(*board, *color, moves@),
{
    proof {
        lemma_leaper_moves_sound(*board, *color, sq.0 as int, sq.1 as int, knight_offsets());
    }
    let table = KNIGHT_VECTORS;
    assert(table@ =~= knight_offsets());
    leap(sq, &table, color, board)
}

/// The pseudo-legal moves of a king of `color` standing on `sq`.
///
/// `_first_move` is reserved for castling, which is not generated; the
/// result does not depend on it.
pub fn king_move(sq: (usize, usize), color: &Color, board: &BoardState, _first_move: bool) -> (moves:
    MoveList)
    requires
        on_board(sq.0 as int, sq.1 as int),
    ensures
        moves@ == king_moves(*board, *color, sq.0 as int, sq.1 as int),
        moves@.len() <= 8,
        sound_moves(*board, *color, moves@),
{
    proof {
        lemma_leaper_moves_sound(*board, *color, sq.0 as int, sq.1 as int, king_offsets());
    }
    let table = KING_VECTORS;
    assert(table@ =~= king_offsets());
    leap(sq, &table, color, board)
}

} // verus!
