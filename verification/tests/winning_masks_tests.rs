use teeko_core::models::pieces_in_mask;
use teeko_core::models::winning_masks;
use teeko_core::models::ABBoard;
use teeko_core::models::GodelPosition;
use teeko_core::scores::BLACK_WIN;
use teeko_core::scores::ILLEGAL;
use teeko_core::scores::NONE;
use teeko_core::scores::NONEXISTENT;
use teeko_core::scores::TIE;
use teeko_core::scores::WHITE_WIN;
use teeko_core::transform::down;
use teeko_core::transform::right;
use teeko_core::transform::slot;

#[test]
fn catalog_has_44_masks() {
    assert_eq!(winning_masks().len(), 44);
}

#[test]
fn every_mask_has_four_pieces_on_the_board() {
    for &m in winning_masks().iter() {
        assert!(m < 0x2000000);
        assert_eq!(pieces_in_mask(m), 4);
    }
}

#[test]
fn catalog_masks_are_distinct() {
    let wm = winning_masks();
    for i in 0..wm.len() {
        for j in (i + 1)..wm.len() {
            assert_ne!(wm[i], wm[j]);
        }
    }
}

#[test]
fn catalog_expected_values() {
    let expected: Vec<u32> = vec![
        0x63, 0xc6, 0x18c, 0x318, 0xc60, 0x18c0, 0x3180, 0x6300, 0x18c00, 0x31800, 0x63000,
        0xc6000, 0x318000, 0x630000, 0xc60000, 0x18c0000, 0xf, 0x1e, 0x1e0, 0x3c0, 0x3c00,
        0x7800, 0x78000, 0xf0000, 0xf00000, 0x1e00000, 0x8421, 0x10842, 0x21084, 0x42108,
        0x84210, 0x108420, 0x210840, 0x421080, 0x842100, 0x1084200, 0x41041, 0x82082, 0x820820,
        0x1041040, 0x8888, 0x11110, 0x111100, 0x222200,
    ];
    assert_eq!(winning_masks(), expected);
}

#[test]
fn little_square_family_is_complete_and_distinct() {
    // Generate the 2x2-block family from its base shape by translation:
    // 16 placements, all distinct, all on the board.
    let base = slot(1) + slot(2) + slot(6) + slot(7);
    let mut family: Vec<u32> = Vec::new();
    for d in 0..4 {
        for r in 0..4 {
            let mut m = base;
            for _ in 0..r {
                m = right(m);
            }
            for _ in 0..d {
                m = down(m);
            }
            family.push(m);
        }
    }
    assert_eq!(family.len(), 16);
    for i in 0..16 {
        assert!(family[i] < 0x2000000);
        assert_eq!(pieces_in_mask(family[i]), 4);
        for j in (i + 1)..16 {
            assert_ne!(family[i], family[j]);
        }
    }
    assert_eq!(&winning_masks()[0..16], &family[..]);
}

#[test]
fn score_sentinels() {
    assert_eq!(TIE, 0);
    assert_eq!(WHITE_WIN, -126);
    assert_eq!(BLACK_WIN, 126);
    assert_eq!(NONE, -127);
    assert_eq!(NONEXISTENT, 127);
    assert_eq!(ILLEGAL, -128);
    let sentinels = [TIE, WHITE_WIN, BLACK_WIN, NONE, NONEXISTENT, ILLEGAL];
    for i in 0..sentinels.len() {
        for j in (i + 1)..sentinels.len() {
            assert_ne!(sentinels[i], sentinels[j]);
        }
    }
}

#[test]
fn value_types_carry_their_fields() {
    let g = GodelPosition {
        position: 12650,
        pattern: 12,
    };
    assert_eq!(g.position, 12650);
    assert_eq!(g.pattern, 12);
    let b = ABBoard { a: 0x63, b: 0x8888 };
    assert_eq!(b.a & b.b, 0);
}
