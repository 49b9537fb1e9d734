//! The straight-line pipeline: draw a random input signal, run the
//! low-pass filter over it, and hand back both buffers for rendering.

use vstd::prelude::*;

use crate::filter::{as_ints, filter_out_spec, filter_spec, lowpass_filter, FilterCoeff};
use crate::fixed::SCALE;
use crate::sample::SampleSource;

verus! {

/// Generate `n` random samples and filter them. The input buffer holds
/// `n` samples from the signal range; the output buffer is exactly the
/// filter recurrence applied to it, every entry in `[-SCALE, SCALE]`.
pub fn run_pipeline(source: &mut SampleSource, n: usize, beta: &FilterCoeff) -> (r: (
    Vec<i64>,
    Vec<i64>,
))
    requires
        beta.wf(),
    ensures
        r.0@.len() == n,
        r.1@.len() == n,
        forall|i: int| 0 <= i < r.0@.len() ==> -SCALE <= #[trigger] r.0@[i] <= SCALE,
        forall|i: int| 0 <= i < r.1@.len() ==> -SCALE <= #[trigger] r.1@[i] <= SCALE,
        forall|i: int|
            0 <= i < r.1@.len() ==> #[trigger] r.1@[i] as int == filter_out_spec(
                as_ints(r.0@),
                beta.num as int,
                beta.den as int,
                i,
            ),
        as_ints(r.1@) == filter_spec(as_ints(r.0@), beta.num as int, beta.den as int),
{
    let input: Vec<i64> = source.generate_signal(n);
    let output: Vec<i64> = lowpass_filter(&input, beta);
    (input, output)
}

} // verus!
