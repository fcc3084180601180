//! Seeds for simulations that can be played over again.

use crate::sim::random::WildPitchRng;
use vstd::prelude::*;

verus! {

/// The seed of a run of simulations that can be played over again: each
/// simulation takes the next seed of the run.
#[derive(Debug, Clone, Copy, PartialEq, Eq, Structural)]
pub struct SeededRandom {
    pub seed: u64,
    pub counter: u64,
}

impl SeededRandom {
    /// The seed after `counter` seeds have been taken: the counter is added
    /// to the first seed, wrapping round at the top of the type.
    pub open spec fn seed_at(seed: u64, counter: u64) -> u64 {
        if seed + counter > u64::MAX {
            (seed + counter - u64::MAX - 1) as u64
        } else {
            (seed + counter) as u64
        }
    }

    pub fn new(seed: u64) -> (run: Self)
        ensures
            run.seed == seed,
            run.counter == 0,
    {
        Self { seed, counter: 0 }
    }

    /// Takes the next seed of the run.
    pub fn next_seed(&mut self) -> (seed: u64)
        ensures
            seed == Self::seed_at(old(self).seed, old(self).counter),
            final(self).seed == old(self).seed,
            final(self).counter == if old(self).counter == u64::MAX {
                0
            } else {
                old(self).counter + 1
            },
    {
        let combined = self.seed.wrapping_add(self.counter);
        self.counter = self.counter.wrapping_add(1);
        combined
    }

    /// Takes the next seed of the run and starts a generator from it.
    pub fn next_rng(&mut self) -> (rng: WildPitchRng)
        ensures
            final(self).seed == old(self).seed,
            final(self).counter == if old(self).counter == u64::MAX {
                0
            } else {
                old(self).counter + 1
            },
    {
        let seed = self.next_seed();
        WildPitchRng::with_seed(seed)
    }

    pub fn get_seed(&self) -> (seed: u64)
        ensures
            seed == self.seed,
    {
        self.seed
    }

    /// Starts the run over.
    pub fn reset(&mut self)
        ensures
            final(self).seed == old(self).seed,
            final(self).counter == 0,
    {
        self.counter = 0;
    }
}

} // verus!
