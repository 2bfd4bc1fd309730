//! Rules engine for a two-player chess game: board and game state, move
//! legality, check and checkmate detection, move application with castling,
//! en passant and promotion, and the fixed-width binary save record.
//!
//! Beside the engine the crate keeps three small pieces of a
//! security-awareness exercise: its page builder, its text masking and its
//! menu actions.

pub mod board;
pub mod laws;
pub mod mask;
pub mod play;
pub mod rules;
pub mod save;
pub mod sitegen;
pub mod state;
pub mod tui;
