use vstd::prelude::*;
use rand::rngs::StdRng;
use rand::Rng;

verus! {

/// The seeded random generator that drives the simulated users.
#[verifier::external_type_specification]
#[verifier::external_body]
pub struct ExStdRng(StdRng);

/// Calls `Rng::random_range(0..bound)` on a `u8` range of the `rand` crate.
/// Claimed: the value lies in the range; which value comes is left to chance.
/// `random_range` panics on an empty range, which `requires` rules out.
#[verifier::external_body]
pub(crate) fn random_u8_below(rng: &mut StdRng, bound: u8) -> (r: u8)
    requires
        bound > 0,
    ensures
        r < bound,
{
    rng.random_range(0..bound)
}

/// Calls `Rng::random_range(0..bound)` on a `usize` range of the `rand` crate.
/// Claimed: the value lies in the range; which value comes is left to chance.
/// `random_range` panics on an empty range, which `requires` rules out.
#[verifier::external_body]
pub(crate) fn random_usize_below(rng: &mut StdRng, bound: usize) -> (r: usize)
    requires
        bound > 0,
    ensures
        r < bound,
{
    rng.random_range(0..bound)
}

} // verus!
