//! A minimal chess position model: coordinates, pieces, a notation parser,
//! the starting position and a straight-line move filter.

pub mod board;
pub mod game;
pub mod moves;
pub mod notation;

pub use board::{File, Kind, Piece, Rank, Square};
pub use moves::get_moves;
pub use notation::{parse_piece, parse_square, ParseError};
pub use game::{new_game, Game};
