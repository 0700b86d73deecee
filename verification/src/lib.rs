//! Pseudo-legal move generation for chess pieces.
//!
//! Each generator takes the square a piece stands on, its colour and a
//! snapshot of the board, and lists the squares the piece may move to
//! together with a flag that tells whether the move captures. Whether a
//! move would leave the mover's own king in check is not considered.

pub mod laws;
pub mod model;
pub mod moves;
pub mod types;
pub mod utils;
