//! The simulation's own random number generator, which can be seeded so that
//! a simulation can be played over again.

use rand::rngs::StdRng;
use rand::seq::SliceRandom;
use rand::{Rng, SeedableRng};
use vstd::prelude::*;

verus! {

/// `rand`'s standard generator. Nothing is said of what is inside it.
#[verifier::external_type_specification]
#[verifier::external_body]
pub struct ExStdRng(rand::rngs::StdRng);

/// Makes a generator from the seed that the operating system hands out
/// (`SeedableRng::from_entropy`). Nothing is promised of it.
#[verifier::external_body]
fn generator_from_entropy() -> StdRng {
    StdRng::from_entropy()
}

/// Makes a generator from a seed (`SeedableRng::seed_from_u64`). Nothing is
/// promised of it.
#[verifier::external_body]
fn generator_from_seed(seed: u64) -> StdRng {
    StdRng::seed_from_u64(seed)
}

/// Draws one integer from `lo..=hi` with a generator (`Rng::gen_range` on an
/// inclusive range). Trusted: the draw lies within the bounds. An empty range
/// makes `gen_range` panic, so the bounds must be ordered.
#[verifier::external_body]
fn draw_between(rng: &mut StdRng, lo: u32, hi: u32) -> (r: u32)
    requires
        lo <= hi,
    ensures
        lo <= r <= hi,
{
    rng.gen_range(lo..=hi)
}

/// Shuffles a list in place with a generator (`SliceRandom::shuffle`).
/// Trusted: shuffling only swaps items, so the list holds the same items as
/// before, each as often as before.
#[verifier::external_body]
fn shuffle_with<T>(rng: &mut StdRng, items: &mut Vec<T>)
    ensures
        final(items)@.to_multiset() == old(items)@.to_multiset(),
        final(items)@.len() == old(items)@.len(),
{
    items.shuffle(rng)
}

pub struct WildPitchRng {
    rng: StdRng,
}

/// The sum of the first `k` weights.
pub open spec fn weight_before(weights: Seq<u32>, k: int) -> int
    decreases k,
{
    if k <= 0 {
        0
    } else {
        weight_before(weights, k - 1) + weights[k - 1]
    }
}

/// The sum of the weights is at least the sum of any of their beginnings.
pub proof fn lemma_weight_before_grows(weights: Seq<u32>, i: int, j: int)
    requires
        0 <= i <= j <= weights.len(),
    ensures
        weight_before(weights, i) <= weight_before(weights, j),
    decreases j - i,
{
    if i < j {
        lemma_weight_before_grows(weights, i, j - 1);
    }
}

/// Whether index `i` is the one that a roll picks from weighted choices: the
/// roll falls among the parts that belong to `i` when the choices are laid
/// end to end, each as long as its weight.
pub open spec fn picks(weights: Seq<u32>, roll: int, i: int) -> bool {
    &&& 0 <= i < weights.len()
    &&& weight_before(weights, i) <= roll < weight_before(weights, i + 1)
}

impl WildPitchRng {
    /// A generator seeded by the operating system.
    pub fn new() -> Self {
        Self { rng: generator_from_entropy() }
    }

    /// A generator that gives the same draws for the same seed.
    pub fn with_seed(seed: u64) -> Self {
        Self { rng: generator_from_seed(seed) }
    }

    /// Draws an integer between two bounds, both included.
    pub fn gen_range(&mut self, lo: u32, hi: u32) -> (r: u32)
        requires
            lo <= hi,
        ensures
            lo <= r <= hi,
    {
        draw_between(&mut self.rng, lo, hi)
    }

    /// True `numerator` times in `denominator`.
    pub fn gen_ratio(&mut self, numerator: u32, denominator: u32) -> (yes: bool)
        requires
            denominator > 0,
        ensures
            numerator == 0 ==> !yes,
            numerator >= denominator ==> yes,
    {
        self.gen_range(1, denominator) <= numerator
    }

    /// Picks one of the items; none from an empty list.
    pub fn pick_one<'a, T>(&mut self, items: &'a Vec<T>) -> (picked: Option<&'a T>)
        ensures
            items@.len() == 0 ==> picked is None,
            items@.len() > 0 ==> (picked matches Some(item) && items@.contains(*item)),
    {
        if items.len() == 0 {
            None
        } else {
            let top: u32 = if items.len() - 1 > u32::MAX as usize {
                u32::MAX
            } else {
                (items.len() - 1) as u32
            };
            let index = self.gen_range(0, top) as usize;
            Some(&items[index])
        }
    }

    /// Shuffles a list in place: it holds the same items afterwards.
    pub fn shuffle<T>(&mut self, items: &mut Vec<T>)
        ensures
            final(items)@.to_multiset() == old(items)@.to_multiset(),
            final(items)@.len() == old(items)@.len(),
    {
        shuffle_with(&mut self.rng, items);
    }

    /// Reads a weighted choice off a roll.
    pub fn choice_for(weights: &Vec<u32>, roll: u32) -> (index: usize)
        requires
            roll < weight_before(weights@, weights@.len() as int),
        ensures
            picks(weights@, roll as int, index as int),
    {
        let count = weights.len();
        let mut sum: u64 = 0;
        let mut i: usize = 0;
        loop
            invariant_except_break
                i < count,
                sum == weight_before(weights@, i as int),
                sum <= roll,
            invariant
                count == weights@.len(),
                roll < weight_before(weights@, weights@.len() as int),
            ensures
                picks(weights@, roll as int, i as int),
            decreases weights@.len() - i,
        {
            proof {
                lemma_weight_before_grows(weights@, i as int + 1, weights@.len() as int);
            }
            sum = sum + weights[i] as u64;
            assert(sum == weight_before(weights@, i as int + 1));
            if sum > roll as u64 {
                break ;
            }
            i = i + 1;
        }
        i
    }

    /// Picks an index with a chance in proportion to its weight. The weights
    /// must add up to more than nothing and to a number that can be rolled.
    pub fn weighted_choice(&mut self, weights: &Vec<u32>) -> (index: usize)
        requires
            0 < weight_before(weights@, weights@.len() as int) <= u32::MAX,
        ensures
            exists|roll: int| #[trigger] picks(weights@, roll, index as int),
            index < weights@.len(),
            weights@[index as int] > 0,
    {
        let mut total: u32 = 0;
        let mut i: usize = 0;
        while i < weights.len()
            invariant
                i <= weights@.len(),
                total == weight_before(weights@, i as int),
                weight_before(weights@, weights@.len() as int) <= u32::MAX,
            decreases weights@.len() - i,
        {
            proof {
                lemma_weight_before_grows(weights@, i as int + 1, weights@.len() as int);
            }
            total = total + weights[i];
            i = i + 1;
        }
        let roll = self.gen_range(0, total - 1);
        let index = Self::choice_for(weights, roll);
        assert(picks(weights@, roll as int, index as int));
        index
    }

    pub fn roll_d6(&mut self) -> (r: u8)
        ensures
            1 <= r <= 6,
    {
        self.gen_range(1, 6) as u8
    }

    pub fn roll_d20(&mut self) -> (r: u8)
        ensures
            1 <= r <= 20,
    {
        self.gen_range(1, 20) as u8
    }

    pub fn roll_d100(&mut self) -> (r: u8)
        ensures
            1 <= r <= 100,
    {
        self.gen_range(1, 100) as u8
    }
}

} // verus!
