//! The random source that the spawning systems draw from.

use vstd::prelude::*;

verus! {

/// Declares `rand::rngs::StdRng`, the generator of the `rand` crate, so
/// that a value of it can be held and handed on. Nothing is known of what
/// is inside.
#[verifier::external_type_specification]
#[verifier::external_body]
pub struct ExStdRng(rand::rngs::StdRng);

/// Calls `rand::SeedableRng::seed_from_u64` for `rand::rngs::StdRng`, which
/// builds a generator from the seed. Nothing is claimed of the generator.
#[verifier::external_body]
fn seeded_generator(seed: u64) -> (rng: rand::rngs::StdRng) {
    rand::SeedableRng::seed_from_u64(seed)
}

/// Calls `rand::Rng::gen_range` on the half-open range `low..high`. The
/// call panics on an empty range, which `requires` leaves out; on any other
/// it returns a value of the range. Which one is not claimed.
#[verifier::external_body]
fn generate_in_range(rng: &mut rand::rngs::StdRng, low: i64, high: i64) -> (r: i64)
    requires
        low < high,
    ensures
        low <= r < high,
{
    rand::Rng::gen_range(rng, low..high)
}

/// A seedable source of random integers, owned by whoever runs the systems.
pub struct RandomSource {
    rng: rand::rngs::StdRng,
}

impl RandomSource {
    /// The source that grows from `seed`.
    pub fn new(seed: u64) -> (r: RandomSource) {
        RandomSource { rng: seeded_generator(seed) }
    }

    /// Some integer from `low` up to, but not including, `high`. Where there
    /// is no such integer the result is `low`.
    pub fn between(&mut self, low: i64, high: i64) -> (r: i64)
        ensures
            low < high ==> low <= r < high,
            low >= high ==> r == low,
    {
        if low < high {
            generate_in_range(&mut self.rng, low, high)
        } else {
            low
        }
    }
}

} // verus!
