use vstd::prelude::*;
use rand::Rng;
use rand::SeedableRng;

verus! {

#[verifier::external_type_specification]
#[verifier::external_body]
pub struct ExStdRng(rand::rngs::StdRng);

/// Relies on rand's `SeedableRng::seed_from_u64` for `StdRng`: it builds a
/// generator from the given seed. Nothing is assumed about the values the
/// generator will produce.
#[verifier::external_body]
pub(crate) fn rng_from_seed(seed: u64) -> rand::rngs::StdRng {
    rand::rngs::StdRng::seed_from_u64(seed)
}

/// Relies on rand's `Rng::random_range` on a `lo..hi` range of `u64`: it
/// panics only when the range is empty, and otherwise returns a value drawn
/// from the half-open range `[lo, hi)`. Which value comes back is left open:
/// callers hold only the bounds.
#[verifier::external_body]
pub(crate) fn rng_range_u64(rng: &mut rand::rngs::StdRng, lo: u64, hi: u64) -> (r: u64)
    requires
        lo < hi,
    ensures
        lo <= r < hi,
{
    rng.random_range(lo..hi)
}

} // verus!
