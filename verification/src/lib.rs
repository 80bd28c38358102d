//! A verified chess rules engine: board model, move-legality pipeline,
//! state transitions, legal-move enumeration, and FEN export.

pub mod api;
pub mod auth;
pub mod board;
pub mod fen;
pub mod game;
pub mod laws;
pub mod moves;
pub mod strings;
pub mod types;
