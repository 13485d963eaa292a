//! The random source behind the stochastic sampler.
//!
//! The generator itself comes from the `rand` crate and is opaque here:
//! nothing is assumed about the values it produces, only their machine
//! range. Every verified result that depends on a draw is therefore proved
//! for all possible outcomes.

use vstd::prelude::*;
use crate::fx;
use crate::fx::Fx;

verus! {

/// `rand`'s small-state generator, declared so it can sit in a field.
#[verifier::external_type_specification]
#[verifier::external_body]
pub struct ExSmallRng(rand::rngs::SmallRng);

/// An owned stream of random draws.
pub struct Rand {
    pub rng: rand::rngs::SmallRng,
}

impl Rand {
    /// Relies on rand's `SmallRng::seed_from_u64` to build a generator from
    /// a seed; nothing is assumed of the stream it produces.
    #[verifier::external_body]
    pub fn from_seed(seed: u64) -> Rand {
        Rand { rng: rand::SeedableRng::seed_from_u64(seed) }
    }

    /// Relies on rand's `RngCore::next_u32` for one draw; nothing is
    /// assumed of the value.
    #[verifier::external_body]
    fn next_raw(&mut self) -> u32 {
        rand::RngCore::next_u32(&mut self.rng)
    }

    /// One draw from the unit interval `[0, 1)`, in fixed-point units.
    pub fn next_unit(&mut self) -> (r: Fx)
        ensures
            0 <= r < fx::ONE,
    {
        (self.next_raw() % 65536) as i64
    }

    /// One draw from `[-1, 1)`, in fixed-point units.
    pub fn next_signed_unit(&mut self) -> (r: Fx)
        ensures
            -fx::ONE <= r < fx::ONE,
    {
        (self.next_raw() % 131072) as i64 - 65536
    }
}

} // verus!
