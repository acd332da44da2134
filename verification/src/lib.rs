//! A two-player Tic-Tac-Toe game engine with verified game rules.
//!
//! The crate keeps the 3x3 board, alternates turns between the two players,
//! moves a selection cursor, and detects win and tie conditions. Terminal
//! rendering and event polling live outside the library and drive it through
//! the public methods of [`app::App`].

pub mod app;
pub mod board;
