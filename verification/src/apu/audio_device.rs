use vstd::prelude::*;
use super::NUMBER_OF_CHANNELS;

verus! {

pub type Sample = i16;

pub const DEFAULT_SAPMPLE: Sample = 0;

const MAX_MASTER_VOLUME: Sample = 8;

/// The largest sample a channel produces, so that mixing all channels at the largest
/// master volume cannot overflow.
pub const SAMPLE_MAX: Sample = 1023;

pub const BUFFER_SIZE: usize = 0x2000;

#[derive(Clone, Copy)]
pub struct StereoSample {
    pub left_sample: Sample,
    pub right_sample: Sample,
}

/// The sum of the left samples.
pub open spec fn left_sum(samples: Seq<StereoSample>) -> int
    decreases samples.len(),
{
    if samples.len() == 0 {
        0
    } else {
        left_sum(samples.drop_last()) + samples.last().left_sample
    }
}

/// The sum of the right samples.
pub open spec fn right_sum(samples: Seq<StereoSample>) -> int
    decreases samples.len(),
{
    if samples.len() == 0 {
        0
    } else {
        right_sum(samples.drop_last()) + samples.last().right_sample
    }
}

/// Integer division rounding toward zero, as Rust's `/` does.
pub open spec fn div_toward_zero(a: int, b: int) -> int {
    if a >= 0 {
        a / b
    } else {
        -((-a) / b)
    }
}

impl StereoSample {
    /// The silent sample.
    pub fn const_defualt() -> (r: Self)
        ensures
            r.left_sample == DEFAULT_SAPMPLE,
            r.right_sample == DEFAULT_SAPMPLE,
    {
        Self { left_sample: DEFAULT_SAPMPLE, right_sample: DEFAULT_SAPMPLE }
    }

    /// The average of the samples on each side, rounded toward zero.
    pub fn interpolate(samples: &[StereoSample]) -> (r: StereoSample)
        requires
            samples@.len() > 0,
        ensures
            r.left_sample == div_toward_zero(left_sum(samples@), samples@.len() as int),
            r.right_sample == div_toward_zero(right_sum(samples@), samples@.len() as int),
    {
        let n = samples.len();
        let mut left: i128 = 0;
        let mut right: i128 = 0;
        let mut i: usize = 0;
        while i < n
            invariant
                n == samples@.len(),
                i <= n,
                left == left_sum(samples@.subrange(0, i as int)),
                right == right_sum(samples@.subrange(0, i as int)),
                -32768 * i <= left <= 32767 * i,
                -32768 * i <= right <= 32767 * i,
            decreases n - i,
        {
            assert(samples@.subrange(0, i as int) =~= samples@.subrange(0, i + 1).drop_last());
            left = left + samples[i].left_sample as i128;
            right = right + samples[i].right_sample as i128;
            i = i + 1;
        }
        assert(samples@.subrange(0, n as int) =~= samples@);
        let left_sample = Self::average(left, n);
        let right_sample = Self::average(right, n);
        StereoSample { left_sample, right_sample }
    }

    fn average(sum: i128, n: usize) -> (r: Sample)
        requires
            n > 0,
            -32768 * n <= sum <= 32767 * n,
        ensures
            r == div_toward_zero(sum as int, n as int),
    {
        let count = n as i128;
        if sum >= 0 {
            let q = sum / count;
            assert(q <= 32767) by (nonlinear_arith)
                requires
                    count > 0,
                    0 <= sum <= 32767 * count,
                    q == sum / count,
            ;
            q as i16
        } else {
            let neg = -sum;
            let q = neg / count;
            assert(q <= 32768) by (nonlinear_arith)
                requires
                    count > 0,
                    0 < neg <= 32768 * count,
                    q == neg / count,
            ;
            (-q) as i16
        }
    }
}

/// Plays the samples the APU produced.
pub trait AudioDevice {
    fn push_buffer(&mut self, buffer: &[StereoSample; BUFFER_SIZE]);
}

/// The average of equal samples is that sample.
pub proof fn lemma_interpolate_constant(samples: Seq<StereoSample>, value: StereoSample)
    requires
        samples.len() > 0,
        forall|i: int| 0 <= i < samples.len() ==> samples[i] == value,
    ensures
        div_toward_zero(left_sum(samples), samples.len() as int) == value.left_sample,
        div_toward_zero(right_sum(samples), samples.len() as int) == value.right_sample,
{
    lemma_sums_of_constant(samples, value);
    let n = samples.len() as int;
    let l = value.left_sample as int;
    let r = value.right_sample as int;
    assert(div_toward_zero(n * l, n) == l) by {
        if l >= 0 {
            vstd::arithmetic::div_mod::lemma_div_multiples_vanish(l, n);
            assert(n * l == l * n) by (nonlinear_arith);
        } else {
            vstd::arithmetic::div_mod::lemma_div_multiples_vanish(-l, n);
            assert(-(n * l) == (-l) * n) by (nonlinear_arith);
            assert(n * l < 0) by (nonlinear_arith)
                requires
                    n > 0,
                    l < 0,
            ;
        }
    }
    assert(div_toward_zero(n * r, n) == r) by {
        if r >= 0 {
            vstd::arithmetic::div_mod::lemma_div_multiples_vanish(r, n);
            assert(n * r == r * n) by (nonlinear_arith);
        } else {
            vstd::arithmetic::div_mod::lemma_div_multiples_vanish(-r, n);
            assert(-(n * r) == (-r) * n) by (nonlinear_arith);
            assert(n * r < 0) by (nonlinear_arith)
                requires
                    n > 0,
                    r < 0,
            ;
        }
    }
}

proof fn lemma_sums_of_constant(samples: Seq<StereoSample>, value: StereoSample)
    requires
        forall|i: int| 0 <= i < samples.len() ==> samples[i] == value,
    ensures
        left_sum(samples) == samples.len() * value.left_sample,
        right_sum(samples) == samples.len() * value.right_sample,
    decreases samples.len(),
{
    if samples.len() > 0 {
        lemma_sums_of_constant(samples.drop_last(), value);
        assert(left_sum(samples) == (samples.len() - 1) * value.left_sample + value.left_sample);
        assert((samples.len() - 1) * value.left_sample + value.left_sample == samples.len() * value.left_sample)
            by (nonlinear_arith);
        assert((samples.len() - 1) * value.right_sample + value.right_sample == samples.len() * value.right_sample)
            by (nonlinear_arith);
    }
}

} // verus!
