//! A re-seedable source of uniformly distributed fixed-point values,
//! backed by rand's standard generator. Re-seeding makes every draw a
//! deterministic function of the seed, which is what the session's tests
//! rely on; the contracts state only the range of each draw, never its
//! value.

use vstd::prelude::*;

verus! {

/// Declares rand's standard seedable generator so that it can stand in a
/// field; Verus treats its values as opaque.
#[verifier::external_type_specification]
#[verifier::external_body]
pub struct ExStdRng(rand::rngs::StdRng);

/// Relies on rand::SeedableRng::seed_from_u64: builds a generator whose
/// stream of draws is determined by the seed.
#[verifier::external_body]
fn generator_from_seed(seed: u64) -> rand::rngs::StdRng {
    <rand::rngs::StdRng as rand::SeedableRng>::seed_from_u64(seed)
}

/// Relies on rand::Rng::gen_range on a half-open `i64` range: the draw is
/// uniform over `[low, high)`. The call panics on an empty range, so a
/// non-empty one is required.
#[verifier::external_body]
fn draw_in_range(generator: &mut rand::rngs::StdRng, low: i64, high: i64) -> (r: i64)
    requires
        low < high,
    ensures
        low <= r < high,
{
    rand::Rng::gen_range(generator, low..high)
}

/// Uniform sampling of fixed-point values in a range; re-seedable for
/// deterministic testing. No side effects beyond the generator's own
/// state advance.
pub struct RandomSource {
    generator: rand::rngs::StdRng,
}

impl RandomSource {
    /// Builds a source whose draws are determined by `seed`.
    pub fn from_seed(seed: u64) -> RandomSource {
        RandomSource { generator: generator_from_seed(seed) }
    }

    /// Draws a value in `[low, high)`; on the empty range `low == high`,
    /// where nothing can be drawn, returns `low`.
    pub fn uniform(&mut self, low: i64, high: i64) -> (r: i64)
        requires
            low <= high,
        ensures
            low <= r,
            low < high ==> r < high,
            low == high ==> r == low,
    {
        if low == high {
            low
        } else {
            draw_in_range(&mut self.generator, low, high)
        }
    }
}

} // verus!
