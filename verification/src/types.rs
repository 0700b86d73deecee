//! The values the move generators work on: colours, pieces, the board and
//! the moves that come out.

use vstd::prelude::*;

verus! {

/// The side a piece belongs to.
#[derive(Clone, Copy, Debug, PartialEq, Eq, Structural)]
pub enum Color {
    White,
    Black,
}

/// The archetype of a piece.
#[derive(Clone, Copy, Debug, PartialEq, Eq, Structural)]
pub enum PieceKind {
    Pawn,
    Knight,
    Bishop,
    Rook,
    Queen,
    King,
}

/// What one cell of the board holds.
#[derive(Clone, Copy, Debug, PartialEq, Eq, Structural)]
pub enum Piece {
    Empty,
    Occupied(PieceKind, Color),
}

/// The 8x8 grid, indexed by file first and rank second.
pub type BoardState = [[Piece; 8]; 8];

/// A destination square `(file, rank)` and whether moving there captures.
pub type Move = ((usize, usize), bool);

/// Moves in the order in which they were generated.
pub type MoveList = Vec<Move>;

impl Piece {
    /// The colour of the piece on an occupied cell, nothing for an empty one.
    pub open spec fn colour(self) -> Option<Color> {
        match self {
            Piece::Empty => None,
            Piece::Occupied(_, color) => Some(color),
        }
    }

    /// Colour of the piece if the cell is occupied.
    pub fn get_colour(&self) -> (colour: Option<Color>)
        ensures
            colour == self.colour(),
    {
        match self {
            Piece::Empty => None,
            Piece::Occupied(_, color) => Some(*color),
        }
    }
}

} // verus!
