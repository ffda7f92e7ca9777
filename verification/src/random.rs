use rand::rngs::StdRng;
use rand::{Rng, SeedableRng};
use vstd::prelude::*;

verus! {

/// The number below `bound` that the standard generator draws first after
/// it was seeded with `seed`. The generator is an algorithm on the seed
/// alone, so the same seed and bound give the same number in every run.
pub uninterp spec fn seeded_value(seed: u64, bound: u64) -> u64;

/// Seeds the `rand` crate's `StdRng` by `SeedableRng::seed_from_u64` and
/// draws one number from `0..bound` by `Rng::gen_range`.
///
/// Taken on trust: the draw lies below `bound`, as `gen_range` documents for
/// a half-open range, and it is the number that `seeded_value` names.
/// `gen_range` panics on an empty range, which `bound > 0` rules out.
#[verifier::external_body]
pub(crate) fn seeded_below(seed: u64, bound: u64) -> (value: u64)
    requires
        bound > 0,
    ensures
        value == seeded_value(seed, bound),
        value < bound,
{
    StdRng::seed_from_u64(seed).gen_range(0..bound)
}

} // verus!
