//! Random draws, made with the `rand` crate.

use vstd::prelude::*;
use rand::rngs::OsRng;
use rand::rngs::StdRng;
use rand::Rng;
use rand::SeedableRng;

verus! {

/// The `rand` crate's standard generator. Nothing of its state is modelled.
#[verifier::external_type_specification]
#[verifier::external_body]
pub struct ExStdRng(StdRng);

/// Builds a generator with `StdRng::from_seed`, on a seed that `OsRng`
/// supplies. Nothing is claimed of the generator.
#[verifier::external_body]
pub(crate) fn seeded_generator() -> (generator: StdRng) {
    StdRng::from_seed(OsRng::default().gen())
}

/// Calls `Rng::gen_range` on `0 .. bound`, which panics on an empty range:
/// hence the `requires`. The draw is random; all that is claimed is that it
/// lies in the range.
#[verifier::external_body]
pub(crate) fn draw_below(generator: &mut StdRng, bound: u64) -> (drawn: u64)
    requires
        bound > 0,
    ensures
        drawn < bound,
{
    generator.gen_range(0..bound)
}

} // verus!
