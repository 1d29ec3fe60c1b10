//! A verified tic-tac-toe engine: the board, the rules of a move and the
//! outcome of a position, each with a contract over a mathematical grid.

pub mod board;
pub mod game;
pub mod input;
pub mod laws;

pub use board::{Board, BoardValue, Player};
pub use game::{Game, GameStatus, PlayError};
