use vstd::prelude::*;
use rand::SeedableRng;
use rand::RngExt;
use rand::distr::Distribution;
use rand::distr::weighted::WeightedIndex;

verus! {

/// The randomness handle for event generation: a seedable generator, so a
/// session can be replayed from a fixed seed.
#[verifier::external_type_specification]
#[verifier::external_body]
pub struct ExStdRng(rand::rngs::StdRng);

/// rand's weighted-sampling distribution over item indices. Its type
/// parameters carry bounds Verus cannot declare, so the distribution sits in
/// a field Verus does not look into.
#[verifier::external_body]
pub struct WeightedPicker {
    inner: WeightedIndex<u32>,
}

pub struct GameRng {
    inner: rand::rngs::StdRng,
}

/// The weight table a `WeightedPicker` was built over.
pub uninterp spec fn wi_weights(d: WeightedPicker) -> Seq<u32>;

/// Sum of a weight table, as the overflow checks in rand read it.
pub open spec fn weight_sum(weights: Seq<u32>) -> int
    decreases weights.len(),
{
    if weights.len() == 0 {
        0
    } else {
        weight_sum(weights.drop_last()) + weights.last()
    }
}

impl GameRng {
    /// Relies on rand's StdRng::seed_from_u64: a deterministic generator for
    /// the given seed. Nothing is promised of the values it yields.
    #[verifier::external_body]
    pub fn from_seed(seed: u64) -> GameRng {
        GameRng { inner: rand::rngs::StdRng::seed_from_u64(seed) }
    }

    /// Relies on rand's RngExt::random_range over `0..n`: a uniform draw from
    /// that range, which panics only when the range is empty.
    #[verifier::external_body]
    pub(crate) fn below(&mut self, n: usize) -> (r: usize)
        requires
            n > 0,
        ensures
            r < n,
    {
        self.inner.random_range(0..n)
    }
}

/// Relies on rand's WeightedIndex::new: it succeeds exactly when the table is
/// non-empty and its sum is positive and fits the weight type, and the
/// distribution it returns is over the given table.
#[verifier::external_body]
pub(crate) fn new_weighted_index(weights: &Vec<u32>) -> (r: Option<WeightedPicker>)
    ensures
        r matches Some(d) ==> wi_weights(d) == weights@ && weights@.len() > 0 && 0 < weight_sum(
            weights@,
        ) <= u32::MAX,
        r is None ==> !(weights@.len() > 0 && 0 < weight_sum(weights@) <= u32::MAX),
{
    match WeightedIndex::new(weights.iter()) {
        Ok(inner) => Some(WeightedPicker { inner }),
        Err(_) => None,
    }
}

/// Relies on rand's Distribution::sample for WeightedIndex: every draw is an
/// index into the weight table, and an index of weight zero is never drawn.
#[verifier::external_body]
pub(crate) fn sample_weighted_index(d: &WeightedPicker, rng: &mut GameRng) -> (r: usize)
    ensures
        r < wi_weights(*d).len(),
        wi_weights(*d)[r as int] > 0,
{
    d.inner.sample(&mut rng.inner)
}

} // verus!
