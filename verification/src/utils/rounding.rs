//! Division of integers with rounding to the nearest quotient.

use vstd::arithmetic::div_mod::{lemma_fundamental_div_mod, lemma_fundamental_div_mod_converse, lemma_mod_bound};
use vstd::prelude::*;

verus! {

/// Largest magnitude of a dividend that [`div_round`] accepts.
pub const DIVIDEND_LIMIT: i128 = 0x1_0000_0000_0000_0000_0000_0000_0000;

/// Largest divisor that [`div_round`] accepts.
pub const DIVISOR_LIMIT: i128 = 0x1_0000_0000_0000_0000;

/// The integer nearest to the fraction `n / d`; of two equally near integers
/// the larger one.
pub open spec fn round_div(n: int, d: int) -> int
    recommends
        d > 0,
{
    (2 * n + d) / (2 * d)
}

/// `round_div(n, d)` lies within half a unit of the exact quotient: its
/// product with `d` is less than `d / 2` below `n` and at most `d / 2` above.
pub proof fn lemma_round_div_nearest(n: int, d: int)
    requires
        d > 0,
    ensures
        -d <= 2 * (n - round_div(n, d) * d) < d,
{
    let m = 2 * n + d;
    let e = 2 * d;
    let q = m / e;
    lemma_fundamental_div_mod(m, e);
    lemma_mod_bound(m, e);
    assert(e * q == 2 * (q * d)) by (nonlinear_arith)
        requires
            e == 2 * d,
    ;
}

/// Only one integer lies that near to the exact quotient.
pub proof fn lemma_round_div_unique(n: int, d: int, q: int)
    requires
        d > 0,
        -d <= 2 * (n - q * d) < d,
    ensures
        q == round_div(n, d),
{
    let m = 2 * n + d;
    let e = 2 * d;
    let r = m - q * e;
    assert(q * e == 2 * (q * d)) by (nonlinear_arith)
        requires
            e == 2 * d,
    ;
    lemma_fundamental_div_mod_converse(m, e, q, r);
}

/// Rounding commutes with adding a whole number of divisors to the dividend.
pub proof fn lemma_round_div_shift(n: int, d: int, k: int)
    requires
        d > 0,
    ensures
        round_div(k * d + n, d) == k + round_div(n, d),
{
    let q = round_div(n, d);
    lemma_round_div_nearest(n, d);
    assert((k + q) * d == k * d + q * d) by (nonlinear_arith);
    lemma_round_div_unique(k * d + n, d, k + q);
}

/// A dividend that the divisor divides is not rounded at all.
pub proof fn lemma_round_div_exact(n: int, d: int)
    requires
        d > 0,
        n % d == 0,
    ensures
        round_div(n, d) * d == n,
{
    let q = n / d;
    lemma_fundamental_div_mod(n, d);
    lemma_round_div_unique(n, d, q);
}

/// Computes [`round_div`] on machine integers.
pub fn div_round(n: i128, d: i128) -> (q: i128)
    requires
        -DIVIDEND_LIMIT <= n <= DIVIDEND_LIMIT,
        0 < d <= DIVISOR_LIMIT,
    ensures
        q == round_div(n as int, d as int),
{
    let m: i128 = 2 * n + d;
    let e: i128 = 2 * d;
    if m >= 0 {
        m / e
    } else {
        // Machine division truncates; below zero the floor is one step further.
        let p: i128 = -m;
        let c: i128 = (p + (e - 1)) / e;
        proof {
            let t = p + (e - 1);
            lemma_fundamental_div_mod(t, e as int);
            lemma_mod_bound(t, e as int);
            assert((-c) * e == -(e * c)) by (nonlinear_arith);
            lemma_fundamental_div_mod_converse(m as int, e as int, -c, m - (-c) * e);
        }
        -c
    }
}

} // verus!
