use vstd::prelude::*;

verus! {

#[verifier::external_type_specification]
#[verifier::external_body]
pub struct ExStdRng(rand::rngs::StdRng);

/// Relies on rand's `SeedableRng::seed_from_u64` for `StdRng`: builds a
/// generator from the given seed.
#[verifier::external_body]
fn std_rng_from_seed(seed: u64) -> rand::rngs::StdRng {
    <rand::rngs::StdRng as rand::SeedableRng>::seed_from_u64(seed)
}

/// Relies on rand's `RngExt::random_range`: a draw from the non-empty range
/// `0..1000` lies below 1000.
#[verifier::external_body]
fn std_rng_draw_milli(rng: &mut rand::rngs::StdRng) -> (r: u64)
    ensures
        r < 1000,
{
    rand::RngExt::random_range(rng, 0u64..1000u64)
}

/// An explicit random source owned by one animation job. Two jobs never
/// share one, so concurrent jobs cannot disturb each other's draws, and an
/// injected seed makes a job's draws reproducible.
pub struct JobRng {
    inner: rand::rngs::StdRng,
}

impl JobRng {
    pub fn from_seed(seed: u64) -> JobRng {
        JobRng { inner: std_rng_from_seed(seed) }
    }

    /// One draw from the uniform unit interval `[0, 1)`, in milli-units.
    pub fn next_unit_milli(&mut self) -> (r: u64)
        ensures
            r < 1000,
    {
        std_rng_draw_milli(&mut self.inner)
    }
}

} // verus!
