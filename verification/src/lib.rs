//! A verified chess rules engine on bitboards: per-piece move generation,
//! a legality filter with king-safety simulation, a move executor that
//! handles castling, en passant and promotion, and checkmate/stalemate
//! detection by exhaustive search with exact move undo.

pub mod bitboards;
pub mod bits;
pub mod legal_moves;
pub mod perform_moves;
pub mod state;
