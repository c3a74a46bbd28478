//! The random-number generator used to place food.

use rand::rngs::StdRng;
use rand::Rng;

use vstd::prelude::*;

verus! {

/// rand's standard generator, carried through the game as an opaque value.
#[verifier::external_type_specification]
#[verifier::external_body]
pub struct ExStdRng(StdRng);

/// Calls `rand::Rng::gen_range(rng, 0..n)` on rand's standard generator.
///
/// rand documents that `gen_range` returns a value of the half-open range
/// `0..n` and panics when that range is empty, which `requires` rules out.
/// Which value of the range comes back depends on the generator's state, so
/// nothing more is stated of it.
#[verifier::external_body]
pub(crate) fn random_index(rng: &mut StdRng, n: usize) -> (i: usize)
    requires
        n > 0,
    ensures
        i < n,
{
    rng.gen_range(0..n)
}

} // verus!
