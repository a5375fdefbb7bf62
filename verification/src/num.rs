//! Fixed-point arithmetic helpers: rounding a fixed-point coordinate to the
//! nearest cell index, and an integer square root for distances.

use vstd::arithmetic::div_mod::{
    lemma_div_multiples_vanish_fancy, lemma_fundamental_div_mod,
    lemma_mod_division_less_than_divisor,
};
use vstd::prelude::*;

verus! {

/// Number of fixed-point units in one maze cell (and in one world unit).
pub const MILLI: i64 = 1000;

/// Coordinates handed to the motion functions stay well inside this bound,
/// which keeps every intermediate product inside `i64`.
pub const COORD_LIMIT: i64 = 1_000_000_000;

/// Cell index nearest to the fixed-point value `v`, halves rounding away
/// from zero — the same convention as the continuous rounding this model
/// stands for.
pub open spec fn round_milli(v: int) -> int {
    if v >= 0 {
        (v + 500) / 1000
    } else {
        -((-v + 500) / 1000)
    }
}

/// The rounded cell's center is within half a cell of the value itself.
pub proof fn lemma_round_milli_range(v: int)
    ensures
        1000 * round_milli(v) - 500 <= v <= 1000 * round_milli(v) + 500,
{
    if v >= 0 {
        let q = (v + 500) / 1000;
        lemma_fundamental_div_mod(v + 500, 1000);
        lemma_mod_division_less_than_divisor(v + 500, 1000);
        assert(v + 500 == 1000 * q + (v + 500) % 1000);
    } else {
        let q = (-v + 500) / 1000;
        lemma_fundamental_div_mod(-v + 500, 1000);
        lemma_mod_division_less_than_divisor(-v + 500, 1000);
        assert(-v + 500 == 1000 * q + (-v + 500) % 1000);
    }
}

/// For nonnegative values the window is half-open on the high side:
/// halves round up.
pub proof fn lemma_round_milli_range_nonneg(v: int)
    requires
        v >= 0,
    ensures
        1000 * round_milli(v) - 500 <= v <= 1000 * round_milli(v) + 499,
{
    let q = (v + 500) / 1000;
    lemma_fundamental_div_mod(v + 500, 1000);
    lemma_mod_division_less_than_divisor(v + 500, 1000);
    assert(v + 500 == 1000 * q + (v + 500) % 1000);
}

/// A nonnegative value within the half-open half-cell window around cell
/// `k`'s center rounds to `k`.
pub proof fn lemma_round_milli_at(v: int, k: int)
    requires
        v >= 0,
        1000 * k - 500 <= v <= 1000 * k + 499,
    ensures
        round_milli(v) == k,
{
    assert(v + 500 == 1000 * k + (v + 500 - 1000 * k));
    lemma_div_multiples_vanish_fancy(k, v + 500 - 1000 * k, 1000);
}

/// Nearest cell index of the fixed-point value `v`.
pub fn round_to_cell(v: i64) -> (r: i64)
    requires
        -COORD_LIMIT <= v <= COORD_LIMIT,
    ensures
        r == round_milli(v as int),
{
    if v >= 0 {
        (v + 500) / 1000
    } else {
        -((-v + 500) / 1000)
    }
}

/// Fixed-point coordinate of the center of the cell nearest to `v`.
pub fn round_to_milli(v: i64) -> (r: i64)
    requires
        -COORD_LIMIT <= v <= COORD_LIMIT,
    ensures
        r == 1000 * round_milli(v as int),
{
    proof {
        lemma_round_milli_range(v as int);
    }
    round_to_cell(v) * 1000
}

/// The integer square root: the largest integer whose square does not
/// exceed `n`.
pub open spec fn spec_isqrt(n: nat) -> nat
    decreases n,
{
    if n == 0 {
        0
    } else {
        let r = spec_isqrt((n - 1) as nat);
        if (r + 1) * (r + 1) <= n {
            r + 1
        } else {
            r
        }
    }
}

/// The integer square root brackets its argument between consecutive
/// squares.
pub proof fn lemma_isqrt_bounds(n: nat)
    ensures
        spec_isqrt(n) * spec_isqrt(n) <= n < (spec_isqrt(n) + 1) * (spec_isqrt(n) + 1),
    decreases n,
{
    if n != 0 {
        lemma_isqrt_bounds((n - 1) as nat);
        let r = spec_isqrt((n - 1) as nat);
        if (r + 1) * (r + 1) <= n {
            assert(spec_isqrt(n) == r + 1);
            assert(n == (r + 1) * (r + 1));
            assert((r + 2) * (r + 2) > (r + 1) * (r + 1)) by (nonlinear_arith);
            assert((spec_isqrt(n) + 1) * (spec_isqrt(n) + 1) == (r + 2) * (r + 2));
        } else {
            assert(spec_isqrt(n) == r);
            assert((spec_isqrt(n) + 1) * (spec_isqrt(n) + 1) == (r + 1) * (r + 1)) by (nonlinear_arith)
                requires
                    spec_isqrt(n) == r,
            ;
        }
        assert(spec_isqrt(n) * spec_isqrt(n) <= n);
        assert(n < (spec_isqrt(n) + 1) * (spec_isqrt(n) + 1));
    } else {
        assert(spec_isqrt(n) == 0);
        assert(spec_isqrt(n) * spec_isqrt(n) <= n < (spec_isqrt(n) + 1) * (spec_isqrt(n)
            + 1)) by (nonlinear_arith)
            requires
                n == 0,
                spec_isqrt(n) == 0,
        ;
    }
}

/// Bracketing between consecutive squares determines the root.
pub proof fn lemma_isqrt_unique(n: nat, r: nat)
    requires
        r * r <= n < (r + 1) * (r + 1),
    ensures
        r == spec_isqrt(n),
{
    lemma_isqrt_bounds(n);
    let s = spec_isqrt(n);
    if r < s {
        assert((r + 1) * (r + 1) <= s * s) by (nonlinear_arith)
            requires
                r + 1 <= s,
        ;
    }
    if s < r {
        assert((s + 1) * (s + 1) <= r * r) by (nonlinear_arith)
            requires
                s + 1 <= r,
        ;
    }
}

/// Largest integer whose square does not exceed `n`.
pub fn isqrt(n: u64) -> (r: u64)
    requires
        n <= 4_000_000_000_000_000_000,
    ensures
        r * r <= n < (r + 1) * (r + 1),
        r == spec_isqrt(n as nat),
{
    let mut r: u64 = 0;
    let mut next_sq: u64 = 1;
    while next_sq <= n
        invariant
            r * r <= n <= 4_000_000_000_000_000_000,
            next_sq == (r + 1) * (r + 1),
            r <= 2_000_000_000,
        decreases n - r,
    {
        proof {
            assert((r + 1) * (r + 1) <= 4_000_000_000_000_000_000 ==> r + 1
                <= 2_000_000_000) by (nonlinear_arith);
            assert((r + 2) * (r + 2) == (r + 1) * (r + 1) + 2 * (r + 1) + 1) by (nonlinear_arith);
            assert((r + 1) * (r + 1) <= n ==> r < n) by (nonlinear_arith);
        }
        r = r + 1;
        next_sq = next_sq + 2 * r + 1;
    }
    proof {
        lemma_isqrt_unique(n as nat, r as nat);
    }
    r
}

} // verus!
