//! Combinatorial indexing and board-geometry algebra for a 5x5-board,
//! 8-piece positional game: a binomial-coefficient table, per-stage
//! configuration counts, bitboard transformation primitives, and the
//! catalog of winning line masks.

pub mod binomial;
pub mod counts;
pub mod models;
pub mod scores;
pub mod transform;
