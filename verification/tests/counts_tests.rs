use teeko_core::binomial::compute_choose_table;
use teeko_core::counts::configurations;
use teeko_core::counts::patterns;
use teeko_core::counts::positions;
use teeko_core::counts::total_configurations;
use teeko_core::counts::BOARD_EDGE;
use teeko_core::counts::BOARD_LOCATIONS;
use teeko_core::counts::PIECES;

#[test]
fn board_constants() {
    assert_eq!(PIECES, 8);
    assert_eq!(BOARD_EDGE, 5);
    assert_eq!(BOARD_LOCATIONS, 25);
}

#[test]
fn positions_literal_values() {
    let p = positions();
    assert_eq!(
        p,
        vec![1, 25, 300, 2300, 12650, 53130, 177100, 480700, 1081575]
    );
}

#[test]
fn patterns_literal_values() {
    let p = patterns();
    assert_eq!(p, vec![1, 1, 2, 3, 12, 30, 180, 630, 1260]);
}

#[test]
fn positions_match_binomial_table() {
    let t = compute_choose_table();
    let p = positions();
    for s in 0..9 {
        assert_eq!(p[s], t[25][s]);
    }
}

#[test]
fn configurations_are_products() {
    let pat = patterns();
    let pos = positions();
    let cfg = configurations();
    assert_eq!(cfg.len(), 9);
    for s in 0..9 {
        assert_eq!(cfg[s], pat[s] * pos[s]);
    }
}

#[test]
fn total_configuration_count() {
    let cfg = configurations();
    let sum: u32 = cfg.iter().sum();
    assert_eq!(sum, 1699256726);
    assert_eq!(total_configurations(), 1699256726);
}
