//! A shogi board: pieces, squares, a selection controller and a random opponent,
//! on top of the `shogi` crate's rules engine.
pub mod piece;
pub mod sfen;
pub mod board;
pub mod controller;
pub mod opponent;
pub mod sprite;
