//! Binomial coefficients: the mathematical definition by Pascal's
//! recurrence, the facts the rest of the crate needs about it, and the
//! 32-by-32 lookup table computed row by row.

use vstd::prelude::*;

verus! {

use vstd::pervasive::VecAdditionalExecFns;

/// C(n, k), the number of k-element subsets of an n-element set, defined
/// by Pascal's recurrence.  C(n, k) == 0 for k > n.
pub open spec fn binom(n: nat, k: nat) -> nat
    decreases n,
{
    if k == 0 {
        1
    } else if k > n {
        0
    } else {
        binom((n - 1) as nat, (k - 1) as nat) + binom((n - 1) as nat, k)
    }
}

/// Both endpoints of every row of Pascal's triangle are 1.
pub proof fn lemma_binom_edges(n: nat)
    ensures
        binom(n, 0) == 1,
        binom(n, n) == 1,
    decreases n,
{
    if n > 0 {
        lemma_binom_edges((n - 1) as nat);
        assert(binom((n - 1) as nat, n) == 0);
    }
}

/// Every interior entry of Pascal's triangle is the sum of the two
/// entries above it.
pub proof fn lemma_binom_pascal(n: nat, k: nat)
    requires
        0 < k < n,
    ensures
        binom(n, k) == binom((n - 1) as nat, (k - 1) as nat) + binom((n - 1) as nat, k),
{
}

/// C(n, 1) == n.
pub proof fn lemma_binom_one(n: nat)
    ensures
        binom(n, 1) == n,
    decreases n,
{
    if n > 0 {
        lemma_binom_one((n - 1) as nat);
        lemma_binom_edges((n - 1) as nat);
    }
}

/// C(n, n - 1) == n for n >= 1.
pub proof fn lemma_binom_n_minus_1(n: nat)
    requires
        n >= 1,
    ensures
        binom(n, (n - 1) as nat) == n,
    decreases n,
{
    if n > 1 {
        lemma_binom_n_minus_1((n - 1) as nat);
        lemma_binom_edges((n - 1) as nat);
    }
}

/// The same-row absorption identity:
/// k * C(n, k) == (n + 1 - k) * C(n, k - 1) for 1 <= k <= n.
pub proof fn lemma_binom_absorption(n: nat, k: nat)
    requires
        1 <= k <= n,
    ensures
        k * binom(n, k) == (n + 1 - k) * binom(n, (k - 1) as nat),
    decreases n,
{
    if k == n {
        lemma_binom_edges(n);
        lemma_binom_n_minus_1(n);
        assert(k * binom(n, k) == (n + 1 - k) * binom(n, (k - 1) as nat)) by (nonlinear_arith)
            requires
                k == n,
                binom(n, k) == 1,
                binom(n, (k - 1) as nat) == n,
        ;
    } else if k == 1 {
        lemma_binom_one(n);
        lemma_binom_edges(n);
        assert(k * binom(n, k) == (n + 1 - k) * binom(n, (k - 1) as nat)) by (nonlinear_arith)
            requires
                k == 1,
                binom(n, k) == n,
                binom(n, (k - 1) as nat) == 1,
        ;
    } else {
        let a = binom((n - 1) as nat, (k - 2) as nat) as int;
        let b = binom((n - 1) as nat, (k - 1) as nat) as int;
        let c = binom((n - 1) as nat, k) as int;
        lemma_binom_absorption((n - 1) as nat, (k - 1) as nat);
        lemma_binom_absorption((n - 1) as nat, k);
        assert(binom(n, k) == b + c);
        assert(binom(n, (k - 1) as nat) == a + b);
        assert(k * (b + c) == (n + 1 - k) * (a + b)) by (nonlinear_arith)
            requires
                (k - 1) * b == (n + 1 - k) * a,
                k * c == (n - k) * b,
        ;
    }
}

/// 2^n.
pub open spec fn pow2n(n: nat) -> nat
    decreases n,
{
    if n == 0 {
        1
    } else {
        2 * pow2n((n - 1) as nat)
    }
}

proof fn lemma_pow2n_pos(n: nat)
    ensures
        pow2n(n) >= 1,
    decreases n,
{
    if n > 0 {
        lemma_pow2n_pos((n - 1) as nat);
    }
}

proof fn lemma_pow2n_mono(a: nat, b: nat)
    requires
        a <= b,
    ensures
        pow2n(a) <= pow2n(b),
    decreases b,
{
    if a < b {
        lemma_pow2n_mono(a, (b - 1) as nat);
        lemma_pow2n_pos((b - 1) as nat);
    }
}

/// Every entry of row n of Pascal's triangle is at most 2^n.
proof fn lemma_binom_le_pow2(n: nat, k: nat)
    ensures
        binom(n, k) <= pow2n(n),
    decreases n,
{
    lemma_pow2n_pos(n);
    if k != 0 && k <= n {
        lemma_binom_le_pow2((n - 1) as nat, (k - 1) as nat);
        lemma_binom_le_pow2((n - 1) as nat, k);
    }
}

/// Every entry of the first 32 rows fits comfortably in a u32:
/// C(n, k) <= 2^31 for n <= 31.
proof fn lemma_binom_fits_u32(n: nat, k: nat)
    requires
        n <= 31,
    ensures
        binom(n, k) <= 0x80000000,
{
    lemma_binom_le_pow2(n, k);
    lemma_pow2n_mono(n, 31);
    assert(pow2n(31) == 0x80000000) by {
        reveal_with_fuel(pow2n, 32);
    }
}

/// The binomial lookup table: a 32-by-32 square, row n holding C(n, k)
/// at index k for k <= n and zero above the diagonal, filled row by row
/// by Pascal's rule.
pub fn compute_choose_table() -> (r: Vec<Vec<u32>>)
    ensures
        r@.len() == 32,
        forall|n: int| 0 <= n < 32 ==> (#[trigger] r@[n])@.len() == 32,
        forall|n: int, k: int| 0 <= k <= n < 32 ==> r@[n]@[k] == binom(n as nat, k as nat),
        forall|n: int, k: int| 0 <= n < k < 32 ==> r@[n]@[k] == 0,
{
    let mut result: Vec<Vec<u32>> = Vec::new();
    let mut n: usize = 0;
    while n < 32
        invariant
            n <= 32,
            result@.len() == n,
            forall|i: int| 0 <= i < n ==> (#[trigger] result@[i])@.len() == 32,
            forall|i: int, k: int| 0 <= k <= i < n ==> result@[i]@[k] == binom(i as nat, k as nat),
            forall|i: int, k: int| 0 <= i < n && i < k < 32 ==> result@[i]@[k] == 0,
        decreases 32 - n,
    {
        let mut row: Vec<u32> = Vec::new();
        let mut z: usize = 0;
        while z < 32
            invariant
                z <= 32,
                row@.len() == z,
                forall|j: int| 0 <= j < z ==> row@[j] == 0,
            decreases 32 - z,
        {
            row.push(0);
            z = z + 1;
        }
        row.set(0, 1);
        row.set(n, 1);
        proof {
            lemma_binom_edges(n as nat);
        }
        let mut k: usize = 1;
        while k < n
            invariant
                n < 32,
                1 <= k,
                k <= n || k == 1,
                result@.len() == n,
                forall|i: int| 0 <= i < n ==> (#[trigger] result@[i])@.len() == 32,
                forall|i: int, k2: int| 0 <= k2 <= i < n ==> result@[i]@[k2] == binom(
                    i as nat,
                    k2 as nat,
                ),
                row@.len() == 32,
                row@[0] == 1,
                row@[n as int] == 1,
                binom(n as nat, 0) == 1,
                binom(n as nat, n as nat) == 1,
                forall|j: int| 1 <= j < k && j < n ==> row@[j] == binom(n as nat, j as nat),
                forall|j: int| n < j < 32 ==> row@[j] == 0,
            decreases n - k,
        {
            let a = result[n - 1][k - 1];
            let b = result[n - 1][k];
            proof {
                lemma_binom_fits_u32(n as nat, k as nat);
                assert(a + b == binom(n as nat, k as nat));
            }
            let v = a + b;
            row.set(k, v);
            k = k + 1;
        }
        result.push(row);
        n = n + 1;
    }
    result
}

} // verus!
