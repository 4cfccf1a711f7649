use teeko_core::models::pieces_in_mask;
use teeko_core::models::position_in_mask;
use teeko_core::transform::down;
use teeko_core::transform::flip_up_down;
use teeko_core::transform::right;
use teeko_core::transform::slot;
use teeko_core::transform::transpose;

/// A deterministic sample of 25-bit masks for property checks.
fn sample_masks() -> Vec<u32> {
    let mut masks = vec![0, 0x1ffffff, 0x1f, 0x1f00000, 0x1084210, 0x0842108];
    let mut x: u32 = 1;
    for _ in 0..200 {
        x = x.wrapping_mul(1664525).wrapping_add(1013904223);
        masks.push(x & 0x1ffffff);
    }
    masks
}

#[test]
fn slot_values() {
    assert_eq!(slot(1), 1);
    assert_eq!(slot(2), 2);
    assert_eq!(slot(6), 0x20);
    assert_eq!(slot(25), 0x1000000);
}

#[test]
fn down_and_right_translate() {
    // cell 1 (row 0, col 0) moves to cell 6 (row 1, col 0) and cell 2.
    assert_eq!(down(slot(1)), slot(6));
    assert_eq!(right(slot(1)), slot(2));
    assert_eq!(down(right(slot(7))), slot(13));
}

#[test]
fn flip_up_down_reflects_rows() {
    // cell 1 (row 0, col 0) reflects to cell 21 (row 4, col 0).
    assert_eq!(flip_up_down(slot(1)), slot(21));
    assert_eq!(flip_up_down(slot(13)), slot(13));
    assert_eq!(flip_up_down(0x1f), 0x1f00000);
}

#[test]
fn transpose_swaps_rows_and_columns() {
    // cell 2 (row 0, col 1) transposes to cell 6 (row 1, col 0).
    assert_eq!(transpose(slot(2)), slot(6));
    assert_eq!(transpose(slot(7)), slot(7));
    // top row becomes left column.
    assert_eq!(transpose(0x1f), 0x108421);
}

#[test]
fn transpose_is_involution() {
    for m in sample_masks() {
        assert_eq!(transpose(transpose(m)), m);
    }
}

#[test]
fn flip_up_down_is_involution() {
    for m in sample_masks() {
        assert_eq!(flip_up_down(flip_up_down(m)), m);
    }
}

#[test]
fn position_in_mask_inverts_slot() {
    for c in 1..=25u32 {
        assert_eq!(position_in_mask(slot(c)) as u32, c);
    }
}

#[test]
fn pieces_in_mask_counts_bits() {
    assert_eq!(pieces_in_mask(0), 0);
    assert_eq!(pieces_in_mask(0x1ffffff), 25);
    for c in 1..=25u32 {
        assert_eq!(pieces_in_mask(slot(c)), 1);
    }
    assert_eq!(pieces_in_mask(0x1084210), 5);
    for m in sample_masks() {
        assert_eq!(u32::from(pieces_in_mask(m)), m.count_ones());
    }
}
