//! Toroidal (wrap-around) addressing of field cells.

use vstd::prelude::*;
use vstd::arithmetic::div_mod::{
    lemma_fundamental_div_mod, lemma_fundamental_div_mod_converse, lemma_mod_multiples_vanish,
};

verus! {

/// The cell of a field with `n` cells per axis that the signed offset `a`
/// falls on once the field's edges are joined: the remainder of the floored
/// division of `a` by `n`.
pub open spec fn wrapped(a: int, n: int) -> int
    recommends
        n > 0,
{
    a % n
}

/// Wraps the signed offset `a` into `[0, n)`.
pub fn modulo(a: i128, n: usize) -> (r: usize)
    requires
        n > 0,
    ensures
        r == wrapped(a as int, n as int),
        r < n,
{
    let t: i128 = a % (n as i128);
    proof {
        if a < 0 {
            let q = (-a) / (n as int);
            let m = (-a) % (n as int);
            lemma_fundamental_div_mod(-a, n as int);
            assert(t == -m);
            if m == 0 {
                assert(a == (n as int) * (-q) + 0) by (nonlinear_arith)
                    requires
                        -a == (n as int) * q + m,
                        m == 0,
                ;
                lemma_fundamental_div_mod_converse(a as int, n as int, -q, 0);
            } else {
                assert(a == (-q - 1) * (n as int) + (n - m)) by (nonlinear_arith)
                    requires
                        -a == (n as int) * q + m,
                ;
                lemma_fundamental_div_mod_converse(a as int, n as int, -q - 1, n - m);
            }
        }
    }
    if t < 0 {
        (t + n as i128) as usize
    } else {
        t as usize
    }
}

/// A wrapped offset always names a cell of the field.
pub proof fn lemma_wrapped_in_range(a: int, n: int)
    requires
        n > 0,
    ensures
        0 <= wrapped(a, n) < n,
{
}

/// Moving an offset by any whole number of field lengths leaves the cell it
/// wraps to unchanged.
pub proof fn lemma_wrapped_periodic(a: int, k: int, n: int)
    requires
        n > 0,
    ensures
        wrapped(a + k * n, n) == wrapped(a, n),
{
    assert(a + k * n == n * k + a) by (nonlinear_arith);
    lemma_mod_multiples_vanish(k, a, n);
}

/// An offset that already names a cell wraps to itself.
pub proof fn lemma_wrapped_fixed(a: int, n: int)
    requires
        0 <= a < n,
    ensures
        wrapped(a, n) == a,
{
    lemma_fundamental_div_mod_converse(a, n, 0, a);
}

} // verus!
