//! The checks the generators share, and the checks a caller makes before
//! handing a square to a generator.

use vstd::prelude::*;
use crate::model::{has_rank_ahead, is_enemy, on_board};
use crate::types::{Color, Piece};

verus! {

/// Whether a candidate `(file, rank)` lies on the board. Candidates are
/// signed: stepping off the low edge gives a negative coordinate.
pub fn in_bounds(file: i8, rank: i8) -> (ok: bool)
    ensures
        ok == on_board(file as int, rank as int),
{
    0 <= file && file <= 7 && 0 <= rank && rank <= 7
}

/// Whether `piece` belongs to the side opposite to `color`. An empty cell
/// holds no enemy.
pub fn check_enemy(color: &Color, piece: Piece) -> (enemy: bool)
    ensures
        enemy == is_enemy(*color, piece),
{
    match piece.get_colour() {
        Some(other) => other != *color,
        None => false,
    }
}

/// Whether `sq` names one of the 64 cells, as every generator requires
/// of the square it is given.
pub fn is_square(sq: (usize, usize)) -> (ok: bool)
    ensures
        ok == on_board(sq.0 as int, sq.1 as int),
{
    sq.0 < 8 && sq.1 < 8
}

/// Whether a pawn of `color` standing on `rank` has a rank in front of it,
/// as the pawn generator requires.
pub fn pawn_can_advance(color: &Color, rank: usize) -> (ok: bool)
    ensures
        ok == has_rank_ahead(*color, rank as int),
{
    match color {
        Color::White => rank < 7,
        Color::Black => 0 < rank && rank < 8,
    }
}

} // verus!
