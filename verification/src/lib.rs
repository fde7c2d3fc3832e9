//! A falling-block puzzle engine: the seven pieces, the board they fall into,
//! and the game that spawns, moves, rotates, locks and scores them.
//!
//! Every operation is stated over a mathematical model (grids and boards as
//! sequences of sequences, a game as a record of plain values) and proved
//! against it.

pub mod catalog;
pub mod grid;
pub mod board;
pub mod piece;
pub mod game;
pub mod control;
