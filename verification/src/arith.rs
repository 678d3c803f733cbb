//! Saturating accounting arithmetic.
//!
//! Heap totals are mathematical sums; the machine result is that sum
//! clamped to `usize::MAX`. Saturation (rather than wrapping or panicking)
//! is this crate's documented overflow policy for pathologically large
//! capacities.

use vstd::prelude::*;

verus! {

/// A mathematical byte total clamped to what a `usize` can represent.
pub open spec fn saturated(n: nat) -> nat {
    if n > usize::MAX as nat {
        usize::MAX as nat
    } else {
        n
    }
}

/// Saturating addition, exact with respect to `saturated`.
pub fn sat_add(a: usize, b: usize) -> (r: usize)
    ensures
        r as nat == saturated(a as nat + b as nat),
{
    a.saturating_add(b)
}

/// Saturating multiplication, exact with respect to `saturated`.
pub fn sat_mul(a: usize, b: usize) -> (r: usize)
    ensures
        r as nat == saturated(a as nat * b as nat),
{
    match a.checked_mul(b) {
        Some(p) => p,
        None => usize::MAX,
    }
}

/// Clamping each addend first never changes the clamped sum.
pub proof fn lemma_saturated_add(x: nat, y: nat)
    ensures
        saturated(saturated(x) + saturated(y)) == saturated(x + y),
{
}

/// Clamping the second factor first never changes the clamped product.
pub proof fn lemma_saturated_mul(a: nat, y: nat)
    ensures
        saturated(a * saturated(y)) == saturated(a * y),
{
    if y > usize::MAX as nat {
        if a == 0 {
        } else {
            assert(a * saturated(y) >= 1 * saturated(y)) by (nonlinear_arith)
                requires
                    a >= 1,
                    saturated(y) >= 0,
            ;
            assert(a * y >= 1 * y) by (nonlinear_arith)
                requires
                    a >= 1,
                    y >= 0,
            ;
        }
    }
}

} // verus!
