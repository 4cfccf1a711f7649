//! Pure bit-transformation primitives over a 25-bit board mask:
//! cell-to-bit conversion (`slot`), translation (`down`, `right`),
//! reflection (`flip_up_down`) and transposition (`transpose`).

use vstd::prelude::*;

verus! {

use crate::counts::BOARD_EDGE;
use crate::models::BoardMask;

/// A well-formed board mask: only the 25 board bits may be set.
pub open spec fn board_ok(m: BoardMask) -> bool {
    m < 0x2000000
}

/// Whether cell `i` (row `i / 5`, column `i % 5`, 0-indexed) is set in `m`.
pub open spec fn mask_bit(m: BoardMask, i: int) -> bool {
    (m >> (i as u32)) & 1 == 1
}

/// The five bits of row `i` of the board, as the low bits of the result.
pub open spec fn mask_row(m: BoardMask, i: int) -> u32 {
    (m >> ((5 * i) as u32)) & 0x1f
}

/// Number of set bits among the 25 board bits of `m`.
pub open spec fn pop_count25(m: BoardMask) -> int {
    ((m >> 0) & 1) + ((m >> 1) & 1) + ((m >> 2) & 1) + ((m >> 3) & 1)
        + ((m >> 4) & 1) + ((m >> 5) & 1) + ((m >> 6) & 1) + ((m >> 7) & 1)
        + ((m >> 8) & 1) + ((m >> 9) & 1) + ((m >> 10) & 1) + ((m >> 11) & 1)
        + ((m >> 12) & 1) + ((m >> 13) & 1) + ((m >> 14) & 1) + ((m >> 15) & 1)
        + ((m >> 16) & 1) + ((m >> 17) & 1) + ((m >> 18) & 1) + ((m >> 19) & 1)
        + ((m >> 20) & 1) + ((m >> 21) & 1) + ((m >> 22) & 1) + ((m >> 23) & 1)
        + ((m >> 24) & 1)
}

/// The singleton mask of 1-indexed cell `c`.
pub open spec fn spec_slot(c: u32) -> BoardMask {
    1u32 << ((c - 1) as u32)
}

/// Every set bit moved one row down: a linear shift by one row over the
/// flat encoding, with no edge guard.
pub open spec fn spec_down(m: BoardMask) -> BoardMask {
    m << (BOARD_EDGE as u32)
}

/// Every set bit moved one column right: a linear shift by one bit over
/// the flat encoding, with no edge guard.
pub open spec fn spec_right(m: BoardMask) -> BoardMask {
    m << 1u32
}

/// Translating a mask whose bottom row is empty keeps it on the board,
/// keeps its piece count, and moves the bit of every cell one row down.
pub proof fn lemma_down_translates(j: BoardMask)
    requires
        j < 0x100000,
    ensures
        board_ok(spec_down(j)),
        pop_count25(spec_down(j)) == pop_count25(j),
        forall|i: int| 0 <= i < 20 ==> mask_bit(spec_down(j), i + 5) == #[trigger] mask_bit(j, i),
{
    assert(spec_down(j) < 0x2000000 && pop_count25(spec_down(j)) == pop_count25(j))
        by (bit_vector)
        requires j < 0x100000;
    assert forall|i: int| 0 <= i < 20 implies mask_bit(spec_down(j), i + 5) == #[trigger] mask_bit(
        j,
        i,
    ) by {
        let iu = i as u32;
        assert((spec_down(j) >> ((iu + 5) as u32)) & 1 == (j >> iu) & 1) by (bit_vector)
            requires iu < 20;
    }
}

/// Translating a mask whose rightmost column is empty keeps it on the
/// board, keeps its piece count, and moves the bit of every cell one
/// column right.
pub proof fn lemma_right_translates(j: BoardMask)
    requires
        board_ok(j),
        j & 0x1084210 == 0,
    ensures
        board_ok(spec_right(j)),
        pop_count25(spec_right(j)) == pop_count25(j),
        forall|i: int| 0 <= i < 25 && i % 5 != 4 ==> mask_bit(spec_right(j), i + 1)
            == #[trigger] mask_bit(j, i),
{
    assert(spec_right(j) < 0x2000000 && pop_count25(spec_right(j)) == pop_count25(j))
        by (bit_vector)
        requires j < 0x2000000, j & 0x1084210 == 0;
    assert forall|i: int| 0 <= i < 25 && i % 5 != 4 implies mask_bit(spec_right(j), i + 1)
        == #[trigger] mask_bit(j, i) by {
        let iu = i as u32;
        assert((spec_right(j) >> ((iu + 1) as u32)) & 1 == (j >> iu) & 1) by (bit_vector)
            requires iu < 24;
    }
}

/// Translate every set bit one row down.  This is a linear shift over the
/// flat 25-bit encoding: a bit in the bottom row leaves the board, so
/// callers apply it only to masks whose bottom row is empty.
pub fn down(j: BoardMask) -> (r: BoardMask)
    ensures
        r == spec_down(j),
        j < 0x100000 ==> board_ok(r) && pop_count25(r) == pop_count25(j) && forall|i: int|
            0 <= i < 20 ==> mask_bit(r, i + 5) == #[trigger] mask_bit(j, i),
{
    proof {
        if j < 0x100000 {
            lemma_down_translates(j);
        }
    }
    j << (BOARD_EDGE as u32)
}

/// Translate every set bit one column right.  This is a linear shift over
/// the flat 25-bit encoding: a bit in the rightmost column wraps into the
/// next row, so callers apply it only to masks whose rightmost column is
/// empty.
pub fn right(j: BoardMask) -> (r: BoardMask)
    ensures
        r == spec_right(j),
        board_ok(j) && j & 0x1084210 == 0 ==> board_ok(r) && pop_count25(r) == pop_count25(j)
            && forall|i: int| 0 <= i < 25 && i % 5 != 4 ==> mask_bit(r, i + 1)
            == #[trigger] mask_bit(j, i),
{
    proof {
        if j < 0x2000000 && j & 0x1084210 == 0 {
            lemma_right_translates(j);
        }
    }
    j << 1u32
}

/// The singleton mask of 1-indexed cell `j` (1..=25).
pub fn slot(j: BoardMask) -> (r: BoardMask)
    requires
        1 <= j <= 25,
    ensures
        r == spec_slot(j),
        board_ok(r),
        pop_count25(r) == 1,
{
    proof {
        assert(board_ok(spec_slot(j)) && pop_count25(spec_slot(j)) == 1) by (bit_vector)
            requires 1 <= j <= 25;
    }
    1u32 << (j - 1)
}

/// Round trip of cell numbering: distinct cells have distinct slot
/// masks, so the cell number recovered from `spec_slot(c)` — as
/// `position_in_mask` recovers it — can only be `c` itself.
pub proof fn lemma_slot_round_trip(c: u32, r: u32)
    requires
        1 <= c <= 25,
        1 <= r <= 25,
        spec_slot(r) == spec_slot(c),
    ensures
        r == c,
{
    assert(c == r) by (bit_vector)
        requires
            1 <= c <= 25,
            1 <= r <= 25,
            1u32 << ((c - 1) as u32) == 1u32 << ((r - 1) as u32),
    ;
}

/// Reflect the mask across the horizontal mid-line: the five 5-bit row
/// groups are reassembled in reverse row order.
pub open spec fn spec_flip_up_down(x: BoardMask) -> BoardMask {
    ((x & 0x1f) << 20)
        | ((x & 0x3e0) << 10)
        | (x & 0x7c00)
        | ((x >> 10) & 0x3e0)
        | ((x >> 20) & 0x1f)
}

/// Row `i` of `spec_flip_up_down(x)` is row `4 - i` of `x`.
pub proof fn lemma_flip_up_down_rows(x: BoardMask, i: int)
    requires
        board_ok(x),
        0 <= i < 5,
    ensures
        mask_row(spec_flip_up_down(x), i) == mask_row(x, 4 - i),
{
    let iu = i as u32;
    assert((spec_flip_up_down(x) >> ((5 * iu) as u32)) & 0x1f
        == (x >> ((5 * (4 - iu)) as u32)) & 0x1f)
        by (bit_vector)
        requires x < 0x2000000, iu < 5;
    assert(5 * i == 5 * iu);
    assert(5 * (4 - i) == 5 * (4 - iu));
}

/// Reflecting twice returns the original mask.
pub proof fn lemma_flip_up_down_involution(x: BoardMask)
    requires
        board_ok(x),
    ensures
        spec_flip_up_down(spec_flip_up_down(x)) == x,
{
    assert(spec_flip_up_down(spec_flip_up_down(x)) == x) by (bit_vector)
        requires x < 0x2000000;
}

/// Reflect the mask across the horizontal mid-line.
pub fn flip_up_down(x: BoardMask) -> (r: BoardMask)
    requires
        board_ok(x),
    ensures
        r == spec_flip_up_down(x),
        board_ok(r),
        forall|i: int| 0 <= i < 5 ==> #[trigger] mask_row(r, i) == mask_row(x, 4 - i),
{
    proof {
        assert(board_ok(spec_flip_up_down(x))) by (bit_vector)
            requires x < 0x2000000;
        assert forall|i: int| 0 <= i < 5 implies #[trigger] mask_row(spec_flip_up_down(x), i)
            == mask_row(x, 4 - i) by {
            lemma_flip_up_down_rows(x, i);
        }
    }
    ((x & 0x1f) << 20)
        | ((x & 0x3e0) << 10)
        | (x & 0x7c00)
        | ((x >> 10) & 0x3e0)
        | ((x >> 20) & 0x1f)
}

/// Swap the mask across the board's main diagonal (rows become columns)
/// by three XOR-based bit-swap stages with masks tuned for a 5x5 grid.
pub open spec fn spec_transpose(x: BoardMask) -> BoardMask {
    let t1 = ((x >> 12) ^ x) & 0x0000318;
    let x1 = x ^ t1 ^ (t1 << 12);
    let t2 = ((x1 >> 8) ^ x1) & 0x0004004;
    let x2 = x1 ^ t2 ^ (t2 << 8);
    let t3 = ((x2 >> 4) ^ x2) & 0x0092092;
    x2 ^ t3 ^ (t3 << 4)
}

/// Cell `i` of `spec_transpose(x)` is cell (column, row) = (row, column)
/// of `x`: the bit at row `i / 5`, column `i % 5` of the result is the
/// bit at row `i % 5`, column `i / 5` of the input.
pub proof fn lemma_transpose_cells(x: BoardMask, i: int)
    requires
        board_ok(x),
        0 <= i < 25,
    ensures
        mask_bit(spec_transpose(x), i) == mask_bit(x, 5 * (i % 5) + i / 5),
{
    let iu = i as u32;
    assert((spec_transpose(x) >> iu) & 1 == (x >> ((5 * (iu % 5) + iu / 5) as u32)) & 1)
        by (bit_vector)
        requires x < 0x2000000, iu < 25;
    assert(i as u32 == iu);
    assert(5 * (i % 5) + i / 5 == 5 * (iu % 5) + iu / 5);
}

/// Transposing twice returns the original mask.
pub proof fn lemma_transpose_involution(x: BoardMask)
    requires
        board_ok(x),
    ensures
        spec_transpose(spec_transpose(x)) == x,
{
    assert(spec_transpose(spec_transpose(x)) == x) by (bit_vector)
        requires x < 0x2000000;
}

/// Swap the mask across the board's main diagonal (rows become columns).
pub fn transpose(x: BoardMask) -> (r: BoardMask)
    requires
        board_ok(x),
    ensures
        r == spec_transpose(x),
        board_ok(r),
        forall|i: int| 0 <= i < 25 ==> #[trigger] mask_bit(r, i) == mask_bit(x, 5 * (i % 5) + i / 5),
{
    proof {
        assert(board_ok(spec_transpose(x))) by (bit_vector)
            requires x < 0x2000000;
        assert forall|i: int| 0 <= i < 25 implies #[trigger] mask_bit(spec_transpose(x), i)
            == mask_bit(x, 5 * (i % 5) + i / 5) by {
            lemma_transpose_cells(x, i);
        }
    }
    let mut x: u32 = x;
    let mut temp: u32 = ((x >> 12) ^ x) & 0x0000318;
    x = x ^ temp ^ (temp << 12);
    temp = ((x >> 8) ^ x) & 0x0004004;
    x = x ^ temp ^ (temp << 8);
    temp = ((x >> 4) ^ x) & 0x0092092;
    x ^ temp ^ (temp << 4)
}

} // verus!
