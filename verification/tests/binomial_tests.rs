use teeko_core::binomial::compute_choose_table;

#[test]
fn table_is_32_by_32() {
    let t = compute_choose_table();
    assert_eq!(t.len(), 32);
    for row in &t {
        assert_eq!(row.len(), 32);
    }
}

#[test]
fn row_endpoints_are_one() {
    let t = compute_choose_table();
    for n in 0..32 {
        assert_eq!(t[n][0], 1);
        assert_eq!(t[n][n], 1);
    }
}

#[test]
fn pascal_recurrence_holds() {
    let t = compute_choose_table();
    for n in 1..32 {
        for k in 1..n {
            assert_eq!(t[n][k], t[n - 1][k - 1] + t[n - 1][k]);
        }
    }
}

#[test]
fn entries_above_diagonal_are_zero() {
    let t = compute_choose_table();
    for n in 0..32 {
        for k in (n + 1)..32 {
            assert_eq!(t[n][k], 0);
        }
    }
}

#[test]
fn known_values() {
    let t = compute_choose_table();
    assert_eq!(t[5][2], 10);
    assert_eq!(t[10][3], 120);
    assert_eq!(t[25][8], 1081575);
    assert_eq!(t[31][15], 300540195);
    assert_eq!(t[31][16], 300540195);
}
