//! The score domain and its six reserved sentinel values.
//!
//! Genuine evaluations produced by a search layered above this system
//! must never collide with these sentinels; the win values are extreme
//! but deliberately not the extreme representable values, so that no
//! derived evaluation path can accidentally produce one.

use vstd::prelude::*;

verus! {

/// A signed small-integer evaluation of a position.
pub type Score = i8;

pub const TIE: Score = 0;

pub const WHITE_WIN: Score = -126;

pub const BLACK_WIN: Score = 126;

/// Evaluation absent.
pub const NONE: Score = -127;

/// Position outside the legal state space.
pub const NONEXISTENT: Score = 127;

/// Position violates a game rule.
pub const ILLEGAL: Score = -128;

} // verus!
