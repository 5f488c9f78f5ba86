//! A turn-based chess board tracker.
//!
//! The library keeps the position of the pieces on an 8x8 grid and whose
//! turn it is, accepts coordinate move tokens such as `"A2A4"`, and accepts
//! or rejects each move by a small set of legality checks: syntax, bounds,
//! piece ownership, turn order, and same-side capture prevention. Movement
//! geometry, check, checkmate, castling, en passant and promotion are
//! deliberately out of scope.

pub mod chess;
pub mod laws;
