//! The single-pole exponential low-pass filter.
//!
//! Each output sample follows the recurrence
//! `out[i] = clamp(out[i-1] - beta * (out[i-1] - in[i]), -SCALE, SCALE)`
//! with `out[-1]` taken to be zero. The coefficient `beta` is a rational
//! `num / den` in `(0, 1)`; the scaled error term is divided out with the
//! machine's truncating division.

use vstd::arithmetic::div_mod::{
    lemma_div_is_ordered, lemma_div_multiples_vanish, lemma_div_nonincreasing, lemma_div_of0,
    lemma_div_pos_is_pos,
};
use vstd::arithmetic::mul::{
    lemma_mul_by_zero_is_zero, lemma_mul_inequality, lemma_mul_nonnegative,
};
use vstd::prelude::*;

use crate::fixed::{clamp_i128, clamp_spec, div_trunc, SCALE};

verus! {

/// The smoothing coefficient `beta = num / den`, a rational in `(0, 1)`:
/// the fraction of the instantaneous error folded into each new output.
#[derive(Clone, Copy, PartialEq, Eq, Structural, Debug)]
pub struct FilterCoeff {
    pub num: i64,
    pub den: i64,
}

impl FilterCoeff {
    /// A valid coefficient is a proper positive fraction with a
    /// denominator no finer than the fixed-point scale.
    pub open spec fn wf(self) -> bool {
        0 < self.num < self.den <= SCALE
    }

    /// Build a coefficient; `None` exactly when `num / den` is not a
    /// proper positive fraction with denominator at most `SCALE`.
    pub fn new(num: i64, den: i64) -> (r: Option<FilterCoeff>)
        ensures
            r is Some <==> 0 < num < den <= SCALE,
            r is Some ==> r.unwrap() == (FilterCoeff { num, den }) && r.unwrap().wf(),
    {
        if 0 < num && num < den && den <= SCALE {
            Some(FilterCoeff { num, den })
        } else {
            None
        }
    }
}

/// The view of a buffer of samples as a mathematical sequence.
pub open spec fn as_ints(s: Seq<i64>) -> Seq<int> {
    s.map(|i: int, v: i64| v as int)
}

/// One step of the recurrence: the previous output moves toward the
/// input by the fraction `num / den` of their difference, truncated,
/// and the result is clamped to the signal range.
pub open spec fn step_spec(prev: int, input: int, num: int, den: int) -> int {
    clamp_spec(prev - div_trunc(num * (prev - input), den), -(SCALE as int), SCALE as int)
}

/// The filter's output at index `i`, for the given input sequence:
/// the recurrence folded from an initial accumulator of zero.
pub open spec fn filter_out_spec(input: Seq<int>, num: int, den: int, i: int) -> int
    decreases i,
{
    if i <= 0 {
        step_spec(0, input[0], num, den)
    } else {
        step_spec(filter_out_spec(input, num, den, i - 1), input[i], num, den)
    }
}

/// The whole output sequence of the filter on `input`.
pub open spec fn filter_spec(input: Seq<int>, num: int, den: int) -> Seq<int> {
    Seq::new(input.len(), |i: int| filter_out_spec(input, num, den, i))
}

/// One filter step on fixed-point samples. The previous output must
/// already lie in the signal range (as every output of this function
/// does); the input sample may be any value at all.
pub fn lowpass_step(prev: i64, input: i64, beta: &FilterCoeff) -> (out: i64)
    requires
        beta.wf(),
        -SCALE <= prev <= SCALE,
    ensures
        out as int == step_spec(prev as int, input as int, beta.num as int, beta.den as int),
        -SCALE <= out <= SCALE,
{
    let diff: i128 = (prev as i128) - (input as i128);
    proof {
        assert(-(SCALE as int) - 0x8000_0000_0000_0000 <= diff as int <= SCALE as int
            + 0x8000_0000_0000_0000);
        assert((beta.num as int) * (diff as int) <= (SCALE as int) * (SCALE as int
            + 0x8000_0000_0000_0000) && (beta.num as int) * (diff as int) >= -((SCALE as int) * (
        SCALE as int + 0x8000_0000_0000_0000))) by (nonlinear_arith)
            requires
                0 < beta.num as int <= SCALE as int,
                -((SCALE as int) + 0x8000_0000_0000_0000) <= diff as int <= (SCALE as int)
                    + 0x8000_0000_0000_0000,
        ;
    }
    let scaled_err: i128 = (beta.num as i128) * diff;
    proof {
        if scaled_err as int >= 0 {
            lemma_div_pos_is_pos(scaled_err as int, beta.den as int);
            lemma_div_nonincreasing(scaled_err as int, beta.den as int);
        } else {
            lemma_div_pos_is_pos(-(scaled_err as int), beta.den as int);
            lemma_div_nonincreasing(-(scaled_err as int), beta.den as int);
        }
    }
    let correction: i128 = scaled_err / (beta.den as i128);
    let raw: i128 = (prev as i128) - correction;
    let clamped: i128 = clamp_i128(raw, -(SCALE as i128), SCALE as i128);
    clamped as i64
}

/// Apply the filter to a whole input buffer, in sample order. The output
/// has the input's length, each entry is exactly the recurrence's value,
/// and every entry lies in `[-SCALE, SCALE]` whatever the input holds.
pub fn lowpass_filter(input: &Vec<i64>, beta: &FilterCoeff) -> (out: Vec<i64>)
    requires
        beta.wf(),
    ensures
        out@.len() == input@.len(),
        forall|i: int|
            0 <= i < out@.len() ==> out@[i] as int == filter_out_spec(
                as_ints(input@),
                beta.num as int,
                beta.den as int,
                i,
            ),
        forall|i: int| 0 <= i < out@.len() ==> -SCALE <= #[trigger] out@[i] <= SCALE,
        as_ints(out@) == filter_spec(as_ints(input@), beta.num as int, beta.den as int),
{
    let n: usize = input.len();
    let mut out: Vec<i64> = Vec::new();
    let mut prev: i64 = 0;
    let mut idx: usize = 0;
    while idx < n
        invariant
            beta.wf(),
            n == input@.len(),
            idx <= n,
            out@.len() == idx,
            -SCALE <= prev <= SCALE,
            idx > 0 ==> prev as int == filter_out_spec(
                as_ints(input@),
                beta.num as int,
                beta.den as int,
                idx - 1,
            ),
            idx == 0 ==> prev == 0,
            forall|i: int|
                0 <= i < idx ==> out@[i] as int == filter_out_spec(
                    as_ints(input@),
                    beta.num as int,
                    beta.den as int,
                    i,
                ),
            forall|i: int| 0 <= i < idx ==> -SCALE <= #[trigger] out@[i] <= SCALE,
        decreases n - idx,
    {
        let x: i64 = input[idx];
        let next: i64 = lowpass_step(prev, x, beta);
        proof {
            assert(as_ints(input@)[idx as int] == input@[idx as int] as int);
            assert(next as int == filter_out_spec(
                as_ints(input@),
                beta.num as int,
                beta.den as int,
                idx as int,
            ));
        }
        out.push(next);
        prev = next;
        idx = idx + 1;
    }
    proof {
        let outs = as_ints(out@);
        let want = filter_spec(as_ints(input@), beta.num as int, beta.den as int);
        assert forall|i: int| 0 <= i < outs.len() implies outs[i] == want[i] by {
            assert(outs[i] == out@[i] as int);
        }
        assert(outs =~= want);
    }
    out
}

/// Whatever the input holds, every output of the recurrence lies in the
/// signal range `[-SCALE, SCALE]`: each step ends in a clamp.
pub proof fn lemma_output_in_range(input: Seq<int>, num: int, den: int, i: int)
    ensures
        -(SCALE as int) <= filter_out_spec(input, num, den, i) <= SCALE as int,
{
}

/// One step toward a full-scale input from an accumulator in `[0, SCALE]`
/// never moves down and never overshoots full scale.
pub proof fn lemma_step_toward_full_scale(prev: int, num: int, den: int)
    requires
        0 < num < den <= SCALE as int,
        0 <= prev <= SCALE as int,
    ensures
        prev <= step_spec(prev, SCALE as int, num, den) <= SCALE as int,
{
    let s = SCALE as int;
    let d = s - prev;
    let q = num * d;
    assert(num * (prev - s) == -(num * (s - prev))) by (nonlinear_arith);
    lemma_mul_nonnegative(num, d);
    if q == 0 {
        lemma_div_of0(den);
    } else {
        lemma_div_pos_is_pos(q, den);
        lemma_mul_inequality(num, den, d);
        lemma_div_is_ordered(q, den * d, den);
        lemma_div_multiples_vanish(d, den);
    }
}

/// On a constant full-scale input the filter rises monotonically from
/// zero: every output lies in `[0, SCALE]`, and each output is at least
/// the one before it.
pub proof fn lemma_full_scale_input_monotone(input: Seq<int>, num: int, den: int, i: int)
    requires
        0 < num < den <= SCALE as int,
        forall|j: int| 0 <= j < input.len() ==> input[j] == SCALE as int,
        0 <= i < input.len(),
    ensures
        0 <= filter_out_spec(input, num, den, i) <= SCALE as int,
        0 < i ==> filter_out_spec(input, num, den, i - 1) <= filter_out_spec(input, num, den, i),
    decreases i,
{
    if i == 0 {
        assert(input[0] == SCALE as int);
        lemma_step_toward_full_scale(0, num, den);
    } else {
        lemma_full_scale_input_monotone(input, num, den, i - 1);
        lemma_step_toward_full_scale(filter_out_spec(input, num, den, i - 1), num, den);
    }
}

/// On an all-zero input the filter's output stays at zero for every
/// index: the accumulator starts at zero and the error term is zero.
pub proof fn lemma_zero_input_stays_zero(input: Seq<int>, num: int, den: int, i: int)
    requires
        0 < num < den <= SCALE as int,
        forall|j: int| 0 <= j < input.len() ==> input[j] == 0,
        0 <= i < input.len(),
    ensures
        filter_out_spec(input, num, den, i) == 0,
    decreases i,
{
    lemma_div_of0(den);
    lemma_mul_by_zero_is_zero(num);
    if i == 0 {
        assert(input[0] == 0);
        assert(num * (0 - input[0]) == num * 0);
    } else {
        lemma_zero_input_stays_zero(input, num, den, i - 1);
        assert(input[i] == 0);
        assert(num * (0 - input[i]) == num * 0);
    }
}

/// Running the filter twice on the same input with the same coefficient
/// yields identical output sequences: the output is a function of the
/// input and the coefficient alone, with no hidden state.
pub proof fn lemma_filter_deterministic(
    input: Seq<int>,
    num: int,
    den: int,
    first: Seq<int>,
    second: Seq<int>,
)
    requires
        first == filter_spec(input, num, den),
        second == filter_spec(input, num, den),
    ensures
        first == second,
{
}

} // verus!
