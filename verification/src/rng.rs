//! The engine's randomness, drawn from the process-wide generator of the
//! `rand` crate.  Everything the verified logic concludes from a draw
//! holds for every value the generator can hand back; functions that need
//! reproducible behaviour take the draws as plain arguments instead and
//! are exercised that way by the tests.

use vstd::prelude::*;

verus! {

/// Relies on rand's `Rng::gen_range` over `0..n`: the sample lies in the
/// half-open range, so strictly below `n`; the call panics only on an
/// empty range, which the precondition rules out.
#[verifier::external_body]
pub(crate) fn rand_below(n: u32) -> (r: u32)
    requires
        n > 0,
    ensures
        r < n,
{
    rand::Rng::gen_range(&mut rand::thread_rng(), 0..n)
}

/// Relies on rand's `random::<bool>()`: a coin flip.  Either outcome can
/// come back, so nothing more is promised of it.
#[verifier::external_body]
pub(crate) fn rand_coin() -> bool {
    rand::random::<bool>()
}

} // verus!
