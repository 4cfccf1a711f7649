//! Value types carried between this layer and its consumers, the
//! mask-inspection functions `position_in_mask` and `pieces_in_mask`,
//! and the catalog of winning-line masks.

use vstd::prelude::*;

verus! {

use crate::transform::board_ok;
use crate::transform::down;
use crate::transform::right;
use crate::transform::slot;
use crate::transform::spec_down;
use crate::transform::spec_right;
use crate::transform::pop_count25;
use crate::transform::spec_slot;

/// Occupancy of the 25 board cells, one bit per cell, row-major,
/// bit 0 = cell (row 0, column 0).  Bits 25 and above are always zero
/// for any mask produced by this layer.
pub type BoardMask = u32;

/// Same bit layout as `BoardMask`, used to mark per-piece assignment
/// rather than occupancy; the distinction is semantic only.
pub type BoardPattern = u8;

/// Combinatorial rank of a choice of occupied cells at some stage.
pub type PositionNumber = u32;

/// Combinatorial rank of a piece-identity assignment at some stage.
pub type PatternNumber = u8;

/// A piece-identity assignment index.
pub type Pattern = u8;

/// Dense index of a board state within one stage's configuration space:
/// a position number paired with a pattern number.
pub struct GodelPosition {
    pub position: PositionNumber,
    pub pattern: PatternNumber,
}

/// The two sides' occupancy masks.  Consumers must keep the two masks
/// disjoint; this layer does not enforce that.
pub struct ABBoard {
    pub a: BoardMask,
    pub b: BoardMask,
}

/// The 1-indexed cell number of the single set bit of `mask`.  Calling
/// this on a mask without exactly one set bit is a caller defect, ruled
/// out by the precondition.
pub fn position_in_mask(mask: BoardMask) -> (r: u8)
    requires
        board_ok(mask),
        pop_count25(mask) == 1,
    ensures
        1 <= r <= 25,
        mask == spec_slot(r as u32),
{
    proof {
        assert(mask << 0u32 == mask) by (bit_vector);
    }
    let ghost m0 = mask;
    let mut mask = mask;
    let mut result: u8 = 1;
    while mask & 1 == 0
        invariant
            board_ok(m0),
            pop_count25(m0) == 1,
            board_ok(mask),
            pop_count25(mask) == 1,
            1 <= result <= 25,
            mask << ((result - 1) as u32) == m0,
        decreases mask,
    {
        proof {
            assert(pop_count25(mask >> 1) == 1 && mask >> 1 < mask && mask >> 1 < 0x2000000
                && (mask >> 1) << (result as u32) == m0 && result <= 24) by (bit_vector)
                requires
                    mask < 0x2000000,
                    pop_count25(mask) == 1,
                    mask & 1 == 0,
                    mask << ((result - 1) as u32) == m0,
                    m0 < 0x2000000,
                    pop_count25(m0) == 1,
                    1 <= result <= 25,
            ;
        }
        mask = mask >> 1;
        result = result + 1;
    }
    proof {
        assert(mask == 1) by (bit_vector)
            requires mask < 0x2000000, pop_count25(mask) == 1, mask & 1 != 0;
    }
    result
}

/// The number of pieces on the board: the population count of `mask`.
pub fn pieces_in_mask(mask: BoardMask) -> (r: u8)
    requires
        board_ok(mask),
    ensures
        r == pop_count25(mask),
{
    proof {
        assert(0 <= pop_count25(mask) <= 25) by (bit_vector)
            requires mask < 0x2000000;
    }
    let ghost m0 = mask;
    let mut mask = mask;
    let mut result: u8 = 0;
    while mask != 0
        invariant
            board_ok(m0),
            board_ok(mask),
            0 <= pop_count25(m0) <= 25,
            result + pop_count25(mask) == pop_count25(m0),
        decreases mask,
    {
        proof {
            assert(pop_count25(mask) == ((mask & 1) as int) + pop_count25(mask >> 1)
                && (mask & 1 == 0 || mask & 1 == 1)
                && mask >> 1 < mask
                && mask >> 1 < 0x2000000
                && 0 <= pop_count25(mask >> 1)
                && 1 <= pop_count25(mask)) by (bit_vector)
                requires mask < 0x2000000, mask != 0;
        }
        if mask & 1 != 0 {
            result = result + 1;
        }
        mask = mask >> 1;
    }
    proof {
        assert(pop_count25(0u32) == 0) by (bit_vector);
    }
    result
}

/// The 2x2 block base shape: cells 1, 2, 6, 7.
pub open spec fn spec_little_square() -> BoardMask {
    (spec_slot(1) + spec_slot(2) + spec_slot(6) + spec_slot(7)) as u32
}

/// The horizontal 4-in-a-row base shape: cells 1, 2, 3, 4.
pub open spec fn spec_horizontal() -> BoardMask {
    (spec_slot(1) + spec_slot(2) + spec_slot(3) + spec_slot(4)) as u32
}

/// The vertical 4-in-a-row base shape: cells 1, 6, 11, 16.
pub open spec fn spec_vertical() -> BoardMask {
    (spec_slot(1) + spec_slot(6) + spec_slot(11) + spec_slot(16)) as u32
}

/// The falling-diagonal 4-in-a-row base shape: cells 1, 7, 13, 19.
pub open spec fn spec_diagonal_down() -> BoardMask {
    (spec_slot(1) + spec_slot(7) + spec_slot(13) + spec_slot(19)) as u32
}

/// The rising-diagonal 4-in-a-row base shape: cells 4, 8, 12, 16.
pub open spec fn spec_diagonal_up() -> BoardMask {
    (spec_slot(4) + spec_slot(8) + spec_slot(12) + spec_slot(16)) as u32
}

/// The full catalog of winning-line masks, in generation order: every
/// translation of the five base shapes that stays on the board.
pub open spec fn spec_winning_masks() -> Seq<BoardMask> {
    seq![
        spec_little_square(),
        spec_right(spec_little_square()),
        spec_right(spec_right(spec_little_square())),
        spec_right(spec_right(spec_right(spec_little_square()))),
        spec_down(spec_little_square()),
        spec_down(spec_right(spec_little_square())),
        spec_down(spec_right(spec_right(spec_little_square()))),
        spec_down(spec_right(spec_right(spec_right(spec_little_square())))),
        spec_down(spec_down(spec_little_square())),
        spec_down(spec_down(spec_right(spec_little_square()))),
        spec_down(spec_down(spec_right(spec_right(spec_little_square())))),
        spec_down(spec_down(spec_right(spec_right(spec_right(spec_little_square()))))),
        spec_down(spec_down(spec_down(spec_little_square()))),
        spec_down(spec_down(spec_down(spec_right(spec_little_square())))),
        spec_down(spec_down(spec_down(spec_right(spec_right(spec_little_square()))))),
        spec_down(spec_down(spec_down(spec_right(spec_right(spec_right(spec_little_square())))))),
        spec_horizontal(),
        spec_right(spec_horizontal()),
        spec_down(spec_horizontal()),
        spec_down(spec_right(spec_horizontal())),
        spec_down(spec_down(spec_horizontal())),
        spec_down(spec_down(spec_right(spec_horizontal()))),
        spec_down(spec_down(spec_down(spec_horizontal()))),
        spec_down(spec_down(spec_down(spec_right(spec_horizontal())))),
        spec_down(spec_down(spec_down(spec_down(spec_horizontal())))),
        spec_down(spec_down(spec_down(spec_down(spec_right(spec_horizontal()))))),
        spec_vertical(),
        spec_right(spec_vertical()),
        spec_right(spec_right(spec_vertical())),
        spec_right(spec_right(spec_right(spec_vertical()))),
        spec_right(spec_right(spec_right(spec_right(spec_vertical())))),
        spec_down(spec_vertical()),
        spec_down(spec_right(spec_vertical())),
        spec_down(spec_right(spec_right(spec_vertical()))),
        spec_down(spec_right(spec_right(spec_right(spec_vertical())))),
        spec_down(spec_right(spec_right(spec_right(spec_right(spec_vertical()))))),
        spec_diagonal_down(),
        spec_right(spec_diagonal_down()),
        spec_down(spec_diagonal_down()),
        spec_down(spec_right(spec_diagonal_down())),
        spec_diagonal_up(),
        spec_right(spec_diagonal_up()),
        spec_down(spec_diagonal_up()),
        spec_down(spec_right(spec_diagonal_up())),
    ]
}

/// Every mask of the catalog stays on the board and has exactly four
/// set bits, and the catalog has exactly 44 entries.
pub proof fn lemma_winning_masks_props()
    ensures
        spec_winning_masks().len() == 44,
        forall|i: int| 0 <= i < 44 ==> board_ok(#[trigger] spec_winning_masks()[i])
            && pop_count25(spec_winning_masks()[i]) == 4,
{
    assert(
        pop_count25(spec_little_square()) == 4 && spec_little_square() < 0x2000000
        &&
        pop_count25(spec_right(spec_little_square())) == 4 && spec_right(spec_little_square()) < 0x2000000
        &&
        pop_count25(spec_right(spec_right(spec_little_square()))) == 4 && spec_right(spec_right(spec_little_square())) < 0x2000000
        &&
        pop_count25(spec_right(spec_right(spec_right(spec_little_square())))) == 4 && spec_right(spec_right(spec_right(spec_little_square()))) < 0x2000000
        &&
        pop_count25(spec_down(spec_little_square())) == 4 && spec_down(spec_little_square()) < 0x2000000
        &&
        pop_count25(spec_down(spec_right(spec_little_square()))) == 4 && spec_down(spec_right(spec_little_square())) < 0x2000000
        &&
        pop_count25(spec_down(spec_right(spec_right(spec_little_square())))) == 4 && spec_down(spec_right(spec_right(spec_little_square()))) < 0x2000000
        &&
        pop_count25(spec_down(spec_right(spec_right(spec_right(spec_little_square()))))) == 4 && spec_down(spec_right(spec_right(spec_right(spec_little_square())))) < 0x2000000
        &&
        pop_count25(spec_down(spec_down(spec_little_square()))) == 4 && spec_down(spec_down(spec_little_square())) < 0x2000000
        &&
        pop_count25(spec_down(spec_down(spec_right(spec_little_square())))) == 4 && spec_down(spec_down(spec_right(spec_little_square()))) < 0x2000000
        &&
        pop_count25(spec_down(spec_down(spec_right(spec_right(spec_little_square()))))) == 4 && spec_down(spec_down(spec_right(spec_right(spec_little_square())))) < 0x2000000
        &&
        pop_count25(spec_down(spec_down(spec_right(spec_right(spec_right(spec_little_square())))))) == 4 && spec_down(spec_down(spec_right(spec_right(spec_right(spec_little_square()))))) < 0x2000000
        &&
        pop_count25(spec_down(spec_down(spec_down(spec_little_square())))) == 4 && spec_down(spec_down(spec_down(spec_little_square()))) < 0x2000000
        &&
        pop_count25(spec_down(spec_down(spec_down(spec_right(spec_little_square()))))) == 4 && spec_down(spec_down(spec_down(spec_right(spec_little_square())))) < 0x2000000
        &&
        pop_count25(spec_down(spec_down(spec_down(spec_right(spec_right(spec_little_square())))))) == 4 && spec_down(spec_down(spec_down(spec_right(spec_right(spec_little_square()))))) < 0x2000000
        &&
        pop_count25(spec_down(spec_down(spec_down(spec_right(spec_right(spec_right(spec_little_square()))))))) == 4 && spec_down(spec_down(spec_down(spec_right(spec_right(spec_right(spec_little_square())))))) < 0x2000000
    ) by (bit_vector);
    assert(
        pop_count25(spec_horizontal()) == 4 && spec_horizontal() < 0x2000000
        &&
        pop_count25(spec_right(spec_horizontal())) == 4 && spec_right(spec_horizontal()) < 0x2000000
        &&
        pop_count25(spec_down(spec_horizontal())) == 4 && spec_down(spec_horizontal()) < 0x2000000
        &&
        pop_count25(spec_down(spec_right(spec_horizontal()))) == 4 && spec_down(spec_right(spec_horizontal())) < 0x2000000
        &&
        pop_count25(spec_down(spec_down(spec_horizontal()))) == 4 && spec_down(spec_down(spec_horizontal())) < 0x2000000
        &&
        pop_count25(spec_down(spec_down(spec_right(spec_horizontal())))) == 4 && spec_down(spec_down(spec_right(spec_horizontal()))) < 0x2000000
        &&
        pop_count25(spec_down(spec_down(spec_down(spec_horizontal())))) == 4 && spec_down(spec_down(spec_down(spec_horizontal()))) < 0x2000000
        &&
        pop_count25(spec_down(spec_down(spec_down(spec_right(spec_horizontal()))))) == 4 && spec_down(spec_down(spec_down(spec_right(spec_horizontal())))) < 0x2000000
        &&
        pop_count25(spec_down(spec_down(spec_down(spec_down(spec_horizontal()))))) == 4 && spec_down(spec_down(spec_down(spec_down(spec_horizontal())))) < 0x2000000
        &&
        pop_count25(spec_down(spec_down(spec_down(spec_down(spec_right(spec_horizontal())))))) == 4 && spec_down(spec_down(spec_down(spec_down(spec_right(spec_horizontal()))))) < 0x2000000
    ) by (bit_vector);
    assert(
        pop_count25(spec_vertical()) == 4 && spec_vertical() < 0x2000000
        &&
        pop_count25(spec_right(spec_vertical())) == 4 && spec_right(spec_vertical()) < 0x2000000
        &&
        pop_count25(spec_right(spec_right(spec_vertical()))) == 4 && spec_right(spec_right(spec_vertical())) < 0x2000000
        &&
        pop_count25(spec_right(spec_right(spec_right(spec_vertical())))) == 4 && spec_right(spec_right(spec_right(spec_vertical()))) < 0x2000000
        &&
        pop_count25(spec_right(spec_right(spec_right(spec_right(spec_vertical()))))) == 4 && spec_right(spec_right(spec_right(spec_right(spec_vertical())))) < 0x2000000
        &&
        pop_count25(spec_down(spec_vertical())) == 4 && spec_down(spec_vertical()) < 0x2000000
        &&
        pop_count25(spec_down(spec_right(spec_vertical()))) == 4 && spec_down(spec_right(spec_vertical())) < 0x2000000
        &&
        pop_count25(spec_down(spec_right(spec_right(spec_vertical())))) == 4 && spec_down(spec_right(spec_right(spec_vertical()))) < 0x2000000
        &&
        pop_count25(spec_down(spec_right(spec_right(spec_right(spec_vertical()))))) == 4 && spec_down(spec_right(spec_right(spec_right(spec_vertical())))) < 0x2000000
        &&
        pop_count25(spec_down(spec_right(spec_right(spec_right(spec_right(spec_vertical())))))) == 4 && spec_down(spec_right(spec_right(spec_right(spec_right(spec_vertical()))))) < 0x2000000
    ) by (bit_vector);
    assert(
        pop_count25(spec_diagonal_down()) == 4 && spec_diagonal_down() < 0x2000000
        &&
        pop_count25(spec_right(spec_diagonal_down())) == 4 && spec_right(spec_diagonal_down()) < 0x2000000
        &&
        pop_count25(spec_down(spec_diagonal_down())) == 4 && spec_down(spec_diagonal_down()) < 0x2000000
        &&
        pop_count25(spec_down(spec_right(spec_diagonal_down()))) == 4 && spec_down(spec_right(spec_diagonal_down())) < 0x2000000
    ) by (bit_vector);
    assert(
        pop_count25(spec_diagonal_up()) == 4 && spec_diagonal_up() < 0x2000000
        &&
        pop_count25(spec_right(spec_diagonal_up())) == 4 && spec_right(spec_diagonal_up()) < 0x2000000
        &&
        pop_count25(spec_down(spec_diagonal_up())) == 4 && spec_down(spec_diagonal_up()) < 0x2000000
        &&
        pop_count25(spec_down(spec_right(spec_diagonal_up()))) == 4 && spec_down(spec_right(spec_diagonal_up())) < 0x2000000
    ) by (bit_vector);
    let wm = spec_winning_masks();
    assert forall|i: int| 0 <= i < 44 implies board_ok(#[trigger] wm[i])
        && pop_count25(wm[i]) == 4 by {
        if i == 0 {
            assert(wm[0] == spec_little_square());
        }
        if i == 1 {
            assert(wm[1] == spec_right(spec_little_square()));
        }
        if i == 2 {
            assert(wm[2] == spec_right(spec_right(spec_little_square())));
        }
        if i == 3 {
            assert(wm[3] == spec_right(spec_right(spec_right(spec_little_square()))));
        }
        if i == 4 {
            assert(wm[4] == spec_down(spec_little_square()));
        }
        if i == 5 {
            assert(wm[5] == spec_down(spec_right(spec_little_square())));
        }
        if i == 6 {
            assert(wm[6] == spec_down(spec_right(spec_right(spec_little_square()))));
        }
        if i == 7 {
            assert(wm[7] == spec_down(spec_right(spec_right(spec_right(spec_little_square())))));
        }
        if i == 8 {
            assert(wm[8] == spec_down(spec_down(spec_little_square())));
        }
        if i == 9 {
            assert(wm[9] == spec_down(spec_down(spec_right(spec_little_square()))));
        }
        if i == 10 {
            assert(wm[10] == spec_down(spec_down(spec_right(spec_right(spec_little_square())))));
        }
        if i == 11 {
            assert(wm[11] == spec_down(spec_down(spec_right(spec_right(spec_right(spec_little_square()))))));
        }
        if i == 12 {
            assert(wm[12] == spec_down(spec_down(spec_down(spec_little_square()))));
        }
        if i == 13 {
            assert(wm[13] == spec_down(spec_down(spec_down(spec_right(spec_little_square())))));
        }
        if i == 14 {
            assert(wm[14] == spec_down(spec_down(spec_down(spec_right(spec_right(spec_little_square()))))));
        }
        if i == 15 {
            assert(wm[15] == spec_down(spec_down(spec_down(spec_right(spec_right(spec_right(spec_little_square())))))));
        }
        if i == 16 {
            assert(wm[16] == spec_horizontal());
        }
        if i == 17 {
            assert(wm[17] == spec_right(spec_horizontal()));
        }
        if i == 18 {
            assert(wm[18] == spec_down(spec_horizontal()));
        }
        if i == 19 {
            assert(wm[19] == spec_down(spec_right(spec_horizontal())));
        }
        if i == 20 {
            assert(wm[20] == spec_down(spec_down(spec_horizontal())));
        }
        if i == 21 {
            assert(wm[21] == spec_down(spec_down(spec_right(spec_horizontal()))));
        }
        if i == 22 {
            assert(wm[22] == spec_down(spec_down(spec_down(spec_horizontal()))));
        }
        if i == 23 {
            assert(wm[23] == spec_down(spec_down(spec_down(spec_right(spec_horizontal())))));
        }
        if i == 24 {
            assert(wm[24] == spec_down(spec_down(spec_down(spec_down(spec_horizontal())))));
        }
        if i == 25 {
            assert(wm[25] == spec_down(spec_down(spec_down(spec_down(spec_right(spec_horizontal()))))));
        }
        if i == 26 {
            assert(wm[26] == spec_vertical());
        }
        if i == 27 {
            assert(wm[27] == spec_right(spec_vertical()));
        }
        if i == 28 {
            assert(wm[28] == spec_right(spec_right(spec_vertical())));
        }
        if i == 29 {
            assert(wm[29] == spec_right(spec_right(spec_right(spec_vertical()))));
        }
        if i == 30 {
            assert(wm[30] == spec_right(spec_right(spec_right(spec_right(spec_vertical())))));
        }
        if i == 31 {
            assert(wm[31] == spec_down(spec_vertical()));
        }
        if i == 32 {
            assert(wm[32] == spec_down(spec_right(spec_vertical())));
        }
        if i == 33 {
            assert(wm[33] == spec_down(spec_right(spec_right(spec_vertical()))));
        }
        if i == 34 {
            assert(wm[34] == spec_down(spec_right(spec_right(spec_right(spec_vertical())))));
        }
        if i == 35 {
            assert(wm[35] == spec_down(spec_right(spec_right(spec_right(spec_right(spec_vertical()))))));
        }
        if i == 36 {
            assert(wm[36] == spec_diagonal_down());
        }
        if i == 37 {
            assert(wm[37] == spec_right(spec_diagonal_down()));
        }
        if i == 38 {
            assert(wm[38] == spec_down(spec_diagonal_down()));
        }
        if i == 39 {
            assert(wm[39] == spec_down(spec_right(spec_diagonal_down())));
        }
        if i == 40 {
            assert(wm[40] == spec_diagonal_up());
        }
        if i == 41 {
            assert(wm[41] == spec_right(spec_diagonal_up()));
        }
        if i == 42 {
            assert(wm[42] == spec_down(spec_diagonal_up()));
        }
        if i == 43 {
            assert(wm[43] == spec_down(spec_right(spec_diagonal_up())));
        }
    }
}

/// Build the ordered catalog of the 44 winning-line masks.
#[verifier::rlimit(100)]
pub fn winning_masks() -> (r: Vec<BoardMask>)
    ensures
        r@ == spec_winning_masks(),
        r@.len() == 44,
        forall|i: int| 0 <= i < 44 ==> board_ok(#[trigger] r@[i]) && pop_count25(r@[i]) == 4,
{
    let mut wm: Vec<BoardMask> = Vec::new();
    let little_square = slot(1) + slot(2) + slot(6) + slot(7);
    let horizontal = slot(1) + slot(2) + slot(3) + slot(4);
    let vertical = slot(1) + slot(6) + slot(11) + slot(16);
    let diagonal_down = slot(1) + slot(7) + slot(13) + slot(19);
    let diagonal_up = slot(4) + slot(8) + slot(12) + slot(16);
    wm.push(little_square);
    wm.push(right(little_square));
    wm.push(right(right(little_square)));
    wm.push(right(right(right(little_square))));
    wm.push(down(little_square));
    wm.push(down(right(little_square)));
    wm.push(down(right(right(little_square))));
    wm.push(down(right(right(right(little_square)))));
    wm.push(down(down(little_square)));
    wm.push(down(down(right(little_square))));
    wm.push(down(down(right(right(little_square)))));
    wm.push(down(down(right(right(right(little_square))))));
    wm.push(down(down(down(little_square))));
    wm.push(down(down(down(right(little_square)))));
    wm.push(down(down(down(right(right(little_square))))));
    wm.push(down(down(down(right(right(right(little_square)))))));
    wm.push(horizontal);
    wm.push(right(horizontal));
    wm.push(down(horizontal));
    wm.push(down(right(horizontal)));
    wm.push(down(down(horizontal)));
    wm.push(down(down(right(horizontal))));
    wm.push(down(down(down(horizontal))));
    wm.push(down(down(down(right(horizontal)))));
    wm.push(down(down(down(down(horizontal)))));
    wm.push(down(down(down(down(right(horizontal))))));
    wm.push(vertical);
    wm.push(right(vertical));
    wm.push(right(right(vertical)));
    wm.push(right(right(right(vertical))));
    wm.push(right(right(right(right(vertical)))));
    wm.push(down(vertical));
    wm.push(down(right(vertical)));
    wm.push(down(right(right(vertical))));
    wm.push(down(right(right(right(vertical)))));
    wm.push(down(right(right(right(right(vertical))))));
    wm.push(diagonal_down);
    wm.push(right(diagonal_down));
    wm.push(down(diagonal_down));
    wm.push(down(right(diagonal_down)));
    wm.push(diagonal_up);
    wm.push(right(diagonal_up));
    wm.push(down(diagonal_up));
    wm.push(down(right(diagonal_up)));
    proof {
        assert(wm@ =~= spec_winning_masks());
        lemma_winning_masks_props();
    }
    wm
}


} // verus!
