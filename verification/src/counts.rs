//! Board dimensions and per-stage state-space counts.
//!
//! A game runs through nine stages: stages 0 through 7 are "drop" stages
//! where that many pieces have been placed, stage 8 is the "play" stage
//! with all 8 pieces on the board.  Each stage has a number of `patterns`
//! (piece-identity assignments), `positions` (choices of occupied cells,
//! C(25, s)), and `configurations` (their product).

use vstd::prelude::*;

verus! {

use crate::binomial::binom;
use crate::binomial::lemma_binom_absorption;

pub const PIECES: u8 = 8;

pub const BOARD_EDGE: u8 = 5;

pub const BOARD_LOCATIONS: u8 = BOARD_EDGE * BOARD_EDGE;

pub const DROP0_PATTERNS: u32 = 1;

pub const DROP1_PATTERNS: u32 = DROP0_PATTERNS;

pub const DROP2_PATTERNS: u32 = DROP1_PATTERNS * 2;

pub const DROP3_PATTERNS: u32 = (DROP2_PATTERNS * 3) / 2;

pub const DROP4_PATTERNS: u32 = DROP3_PATTERNS * 4;

pub const DROP5_PATTERNS: u32 = (DROP4_PATTERNS * 5) / 2;

pub const DROP6_PATTERNS: u32 = DROP5_PATTERNS * 6;

pub const DROP7_PATTERNS: u32 = (DROP6_PATTERNS * 7) / 2;

pub const PLAY_PATTERNS: u32 = (DROP7_PATTERNS * 8) / 4;

pub const DROP0_POSITIONS: u32 = 1;

pub const DROP1_POSITIONS: u32 = DROP0_POSITIONS * 25;

pub const DROP2_POSITIONS: u32 = (DROP1_POSITIONS * 24) / 2;

pub const DROP3_POSITIONS: u32 = (DROP2_POSITIONS * 23) / 3;

pub const DROP4_POSITIONS: u32 = (DROP3_POSITIONS * 22) / 4;

pub const DROP5_POSITIONS: u32 = (DROP4_POSITIONS * 21) / 5;

pub const DROP6_POSITIONS: u32 = (DROP5_POSITIONS * 20) / 6;

pub const DROP7_POSITIONS: u32 = (DROP6_POSITIONS * 19) / 7;

pub const PLAY_POSITIONS: u32 = (DROP7_POSITIONS * 18) / 8;

/// The number of distinct piece-identity assignments at stage `s`: the
/// fixed sequence determined by the game's piece-interchangeability rule.
pub open spec fn spec_patterns(s: int) -> int {
    if s <= 1 {
        1
    } else if s == 2 {
        2
    } else if s == 3 {
        3
    } else if s == 4 {
        12
    } else if s == 5 {
        30
    } else if s == 6 {
        180
    } else if s == 7 {
        630
    } else {
        1260
    }
}

/// The number of distinct choices of occupied cells at stage `s`,
/// by the incremental multiplicative recurrence for C(25, s): choosing
/// `s` cells out of 25 without regard to order.
pub open spec fn spec_positions(s: int) -> int
    decreases s,
{
    if s <= 0 {
        1
    } else {
        spec_positions(s - 1) * (26 - s) / s
    }
}

/// The size of stage `s`'s slice of the state space.
pub open spec fn spec_configurations(s: int) -> int {
    spec_patterns(s) * spec_positions(s)
}

/// The sum of the configuration counts of stages 0 through `s - 1`.
pub open spec fn spec_total_configurations(s: int) -> int
    decreases s,
{
    if s <= 0 {
        0
    } else {
        spec_total_configurations(s - 1) + spec_configurations(s - 1)
    }
}

/// The literal values of the nine stage counts and their running totals.
proof fn lemma_stage_values()
    ensures
        spec_positions(0) == 1,
        spec_positions(1) == 25,
        spec_positions(2) == 300,
        spec_positions(3) == 2300,
        spec_positions(4) == 12650,
        spec_positions(5) == 53130,
        spec_positions(6) == 177100,
        spec_positions(7) == 480700,
        spec_positions(8) == 1081575,
        spec_total_configurations(0) == 0,
        spec_total_configurations(1) == 1,
        spec_total_configurations(2) == 26,
        spec_total_configurations(3) == 626,
        spec_total_configurations(4) == 7526,
        spec_total_configurations(5) == 159326,
        spec_total_configurations(6) == 1753226,
        spec_total_configurations(7) == 33631226,
        spec_total_configurations(8) == 336472226,
        spec_total_configurations(9) == 1699256726,
{
    assert(spec_positions(0) == 1);
    assert(spec_positions(1) == 25);
    assert(spec_positions(2) == 300);
    assert(spec_positions(3) == 2300);
    assert(spec_positions(4) == 12650);
    assert(spec_positions(5) == 53130);
    assert(spec_positions(6) == 177100);
    assert(spec_positions(7) == 480700);
    assert(spec_positions(8) == 1081575);
    assert(spec_total_configurations(0) == 0);
    assert(spec_total_configurations(1) == 1);
    assert(spec_total_configurations(2) == 26);
    assert(spec_total_configurations(3) == 626);
    assert(spec_total_configurations(4) == 7526);
    assert(spec_total_configurations(5) == 159326);
    assert(spec_total_configurations(6) == 1753226);
    assert(spec_total_configurations(7) == 33631226);
    assert(spec_total_configurations(8) == 336472226);
    assert(spec_total_configurations(9) == 1699256726);
}

/// The incremental positions recurrence computes exactly C(25, s), and
/// its integer division is exact at every step: the product
/// positions[s-1] * (26 - s) leaves no remainder when divided by s.
pub proof fn lemma_positions_binomial(s: int)
    requires
        0 <= s <= 25,
    ensures
        spec_positions(s) == binom(25, s as nat),
        s >= 1 ==> (spec_positions(s - 1) * (26 - s)) % s == 0,
    decreases s,
{
    if s == 0 {
        assert(binom(25, 0) == 1);
    } else {
        lemma_positions_binomial(s - 1);
        lemma_binom_absorption(25, s as nat);
        let p = binom(25, s as nat) as int;
        let q = binom(25, (s - 1) as nat) as int;
        assert(s * p == (26 - s) * q);
        assert((q * (26 - s)) % s == 0 && q * (26 - s) / s == p) by (nonlinear_arith)
            requires
                s >= 1,
                s * p == (26 - s) * q,
        ;
    }
}

/// The pattern count of each stage, indexed 0 through 8.
pub fn patterns() -> (r: Vec<u32>)
    ensures
        r@.len() == 9,
        forall|s: int| 0 <= s < 9 ==> r@[s] == spec_patterns(s),
{
    let mut v: Vec<u32> = Vec::new();
    v.push(DROP0_PATTERNS);
    v.push(DROP1_PATTERNS);
    v.push(DROP2_PATTERNS);
    v.push(DROP3_PATTERNS);
    v.push(DROP4_PATTERNS);
    v.push(DROP5_PATTERNS);
    v.push(DROP6_PATTERNS);
    v.push(DROP7_PATTERNS);
    v.push(PLAY_PATTERNS);
    proof {
        assert forall|s: int| 0 <= s < 9 implies v@[s] == spec_patterns(s) by {
            if s == 0 {
                assert(v@[0] == 1);
            } else if s == 1 {
                assert(v@[1] == 1);
            } else if s == 2 {
                assert(v@[2] == 2);
            } else if s == 3 {
                assert(v@[3] == 3);
            } else if s == 4 {
                assert(v@[4] == 12);
            } else if s == 5 {
                assert(v@[5] == 30);
            } else if s == 6 {
                assert(v@[6] == 180);
            } else if s == 7 {
                assert(v@[7] == 630);
            } else {
                assert(v@[8] == 1260);
            }
        }
    }
    v
}

/// The position count of each stage, indexed 0 through 8.
pub fn positions() -> (r: Vec<u32>)
    ensures
        r@.len() == 9,
        forall|s: int| 0 <= s < 9 ==> r@[s] == spec_positions(s),
{
    proof {
        lemma_stage_values();
    }
    let mut v: Vec<u32> = Vec::new();
    v.push(DROP0_POSITIONS);
    v.push(DROP1_POSITIONS);
    v.push(DROP2_POSITIONS);
    v.push(DROP3_POSITIONS);
    v.push(DROP4_POSITIONS);
    v.push(DROP5_POSITIONS);
    v.push(DROP6_POSITIONS);
    v.push(DROP7_POSITIONS);
    v.push(PLAY_POSITIONS);
    v
}

/// The configuration count of each stage, indexed 0 through 8:
/// always the product of the stage's pattern and position counts.
pub fn configurations() -> (r: Vec<u32>)
    ensures
        r@.len() == 9,
        forall|s: int| 0 <= s < 9 ==> r@[s] == spec_configurations(s),
        forall|s: int| 0 <= s < 9 ==> r@[s] == spec_patterns(s) * spec_positions(s),
{
    proof {
        lemma_stage_values();
    }
    let mut v: Vec<u32> = Vec::new();
    v.push(DROP0_PATTERNS * DROP0_POSITIONS);
    v.push(DROP1_PATTERNS * DROP1_POSITIONS);
    v.push(DROP2_PATTERNS * DROP2_POSITIONS);
    v.push(DROP3_PATTERNS * DROP3_POSITIONS);
    v.push(DROP4_PATTERNS * DROP4_POSITIONS);
    v.push(DROP5_PATTERNS * DROP5_POSITIONS);
    v.push(DROP6_PATTERNS * DROP6_POSITIONS);
    v.push(DROP7_PATTERNS * DROP7_POSITIONS);
    v.push(PLAY_PATTERNS * PLAY_POSITIONS);
    proof {
        assert forall|s: int| 0 <= s < 9 implies v@[s] == spec_patterns(s) * spec_positions(s) by {
            if s == 0 {
                assert(v@[0] == 1 * 1);
            } else if s == 1 {
                assert(v@[1] == 1 * 25);
            } else if s == 2 {
                assert(v@[2] == 2 * 300);
            } else if s == 3 {
                assert(v@[3] == 3 * 2300);
            } else if s == 4 {
                assert(v@[4] == 12 * 12650);
            } else if s == 5 {
                assert(v@[5] == 30 * 53130);
            } else if s == 6 {
                assert(v@[6] == 180 * 177100);
            } else if s == 7 {
                assert(v@[7] == 630 * 480700);
            } else {
                assert(v@[8] == 1260 * 1081575);
            }
        }
    }
    v
}

/// The total size of the state space: the configuration counts of all
/// nine stages summed.
pub fn total_configurations() -> (r: u32)
    ensures
        r == spec_total_configurations(9),
{
    proof {
        lemma_stage_values();
    }
    let c = configurations();
    let mut sum: u32 = 0;
    let mut s: usize = 0;
    while s < 9
        invariant
            s <= 9,
            c@.len() == 9,
            forall|i: int| 0 <= i < 9 ==> c@[i] == spec_configurations(i),
            sum == spec_total_configurations(s as int),
            spec_total_configurations(9) == 1699256726,
        decreases 9 - s,
    {
        proof {
            lemma_stage_values();
        }
        sum = sum + c[s];
        s = s + 1;
    }
    sum
}

} // verus!
