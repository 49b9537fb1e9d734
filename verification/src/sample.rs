//! The random sample source: a seeded generator that draws uniformly
//! distributed fixed-point samples from the full signal range.

use rand::Rng;
use vstd::prelude::*;

use crate::fixed::SCALE;

verus! {

#[verifier::external_type_specification]
#[verifier::external_body]
pub struct ExStdRng(rand::rngs::StdRng);

/// Relies on rand::SeedableRng::seed_from_u64: builds a StdRng whose
/// stream is determined by the 64-bit seed.
#[verifier::external_body]
fn rng_from_seed(seed: u64) -> rand::rngs::StdRng {
    rand::SeedableRng::seed_from_u64(seed)
}

/// Relies on rand::Rng::gen_range on an inclusive i64 range: returns a
/// uniformly distributed value within the given closed bounds, and
/// panics only on an empty range, which the precondition rules out.
#[verifier::external_body]
fn rng_gen_range(rng: &mut rand::rngs::StdRng, lo: i64, hi: i64) -> (r: i64)
    requires
        lo <= hi,
    ensures
        lo <= r <= hi,
{
    rng.gen_range(lo..=hi)
}

/// A source of uniformly random samples. It owns its generator, so a
/// run of the pipeline is reproducible from the seed alone.
pub struct SampleSource {
    rng: rand::rngs::StdRng,
}

impl SampleSource {
    /// A source whose sample stream is determined by `seed`.
    pub fn new(seed: u64) -> SampleSource {
        SampleSource { rng: rng_from_seed(seed) }
    }

    /// Draw one sample; every sample lies in the signal range
    /// `[-SCALE, SCALE]`, that is, in [-1.0, 1.0] of amplitude.
    pub fn next_sample(&mut self) -> (v: i64)
        ensures
            -SCALE <= v <= SCALE,
    {
        rng_gen_range(&mut self.rng, -SCALE, SCALE)
    }

    /// Fill a buffer with `n` samples, in draw order; every entry lies
    /// in the signal range.
    pub fn generate_signal(&mut self, n: usize) -> (v: Vec<i64>)
        ensures
            v@.len() == n,
            forall|i: int| 0 <= i < v@.len() ==> -SCALE <= #[trigger] v@[i] <= SCALE,
    {
        let mut v: Vec<i64> = Vec::new();
        let mut idx: usize = 0;
        while idx < n
            invariant
                idx <= n,
                v@.len() == idx,
                forall|i: int| 0 <= i < v@.len() ==> -SCALE <= #[trigger] v@[i] <= SCALE,
            decreases n - idx,
        {
            let s: i64 = self.next_sample();
            v.push(s);
            idx = idx + 1;
        }
        v
    }
}

} // verus!
