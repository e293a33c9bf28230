//! Random draws from `rand`.

use rand::rngs::StdRng;
use rand::Rng;
use vstd::prelude::*;

verus! {

/// `rand`'s standard seedable generator.
#[verifier::external_type_specification]
#[verifier::external_body]
pub struct ExStdRng(StdRng);

/// Calls `rand::Rng::gen_range` on the inclusive range `lo..=hi` (which
/// panics on an empty range). What comes back lies in the range; which value
/// it is depends on the generator's state.
#[verifier::external_body]
pub(crate) fn gen_range_inclusive(rng: &mut StdRng, lo: usize, hi: usize) -> (r: usize)
    requires
        lo <= hi,
    ensures
        lo <= r <= hi,
{
    rng.gen_range(lo..=hi)
}

/// Calls `rand::Rng::gen_ratio(numerator, denominator)`, which returns true
/// with probability `numerator / denominator` and panics when the
/// denominator is zero or below the numerator. Its documentation guarantees
/// false for a zero numerator and true when the numerator equals the
/// denominator; otherwise the outcome is chance.
#[verifier::external_body]
pub(crate) fn gen_ratio(rng: &mut StdRng, numerator: u32, denominator: u32) -> (b: bool)
    requires
        0 < denominator,
        numerator <= denominator,
    ensures
        numerator == 0 ==> !b,
        numerator == denominator ==> b,
{
    rng.gen_ratio(numerator, denominator)
}

} // verus!
