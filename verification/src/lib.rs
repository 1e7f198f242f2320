//! Tic-tac-toe for two players at one keyboard: the board, the rules that govern it,
//! and the game that is played on it round after round.

pub mod board;
pub mod game;
pub mod input;
pub mod rules;
