//! Sample normalization: native integer encodings to fixed-point mono values.
//!
//! A normalized sample is held as an integer numerator over a fixed positive
//! denominator: `32767` (`i16::MAX`) for 16-bit sources and `2147483647`
//! (`i32::MAX`) for 32-bit sources. The real-valued sample is the numerator
//! divided by the denominator, so a numerator whose magnitude is at most the
//! denominator stands for a value in `[-1.0, 1.0]`, and a numerator equal to
//! the negated denominator stands for exactly `-1.0`. The signed minimum of
//! each width, which has no positive counterpart, is clamped to the negated
//! denominator instead of overflowing.

use vstd::prelude::*;
use vstd::arithmetic::div_mod::lemma_div_is_ordered;
use vstd::arithmetic::div_mod::lemma_div_multiples_vanish;
use crate::error::AudioError;

verus! {

/// Denominator for normalized 16-bit samples.
pub const I16_DENOMINATOR: i32 = 32767;

/// Denominator for normalized 32-bit samples.
pub const I32_DENOMINATOR: i32 = 2147483647;

/// Numerator of the normalized value of a signed 16-bit sample,
/// over the denominator `32767`.
pub open spec fn normalized_i16(sample: i16) -> int {
    if sample == i16::MIN {
        -32767
    } else {
        sample as int
    }
}

/// Numerator of the normalized value of a signed 32-bit sample,
/// over the denominator `2147483647`.
pub open spec fn normalized_i32(sample: i32) -> int {
    if sample == i32::MIN {
        -2147483647
    } else {
        sample as int
    }
}

/// Normalize one signed 16-bit sample to its fixed-point numerator.
pub fn normalize_i16(sample: i16) -> (r: i16)
    ensures
        r as int == normalized_i16(sample),
{
    if sample == i16::MIN {
        -32767
    } else {
        sample
    }
}

/// Normalize one signed 32-bit sample to its fixed-point numerator.
pub fn normalize_i32(sample: i32) -> (r: i32)
    ensures
        r as int == normalized_i32(sample),
{
    if sample == i32::MIN {
        -2147483647
    } else {
        sample
    }
}

/// Every normalized 16-bit sample stands for a value in `[-1.0, 1.0]`:
/// its numerator's magnitude never exceeds the denominator. The negative
/// extremum maps to the negated denominator, exactly `-1.0`.
pub proof fn lemma_normalized_i16_in_range(sample: i16)
    ensures
        -(I16_DENOMINATOR as int) <= normalized_i16(sample) <= I16_DENOMINATOR as int,
        normalized_i16(i16::MIN) == -(I16_DENOMINATOR as int),
{
}

/// Every normalized 32-bit sample stands for a value in `[-1.0, 1.0]`:
/// its numerator's magnitude never exceeds the denominator. The negative
/// extremum maps to the negated denominator, exactly `-1.0`.
pub proof fn lemma_normalized_i32_in_range(sample: i32)
    ensures
        -(I32_DENOMINATOR as int) <= normalized_i32(sample) <= I32_DENOMINATOR as int,
        normalized_i32(i32::MIN) == -(I32_DENOMINATOR as int),
{
}

/// Normalize a whole buffer of signed 16-bit samples.
pub fn normalize_i16_samples(data: &Vec<i16>) -> (r: Vec<i16>)
    ensures
        r@.len() == data@.len(),
        forall|i: int| 0 <= i < data@.len() ==> r@[i] as int == normalized_i16(data@[i]),
{
    let mut out: Vec<i16> = Vec::new();
    let mut i: usize = 0;
    while i < data.len()
        invariant
            i <= data@.len(),
            out@.len() == i,
            forall|k: int| 0 <= k < i ==> out@[k] as int == normalized_i16(data@[k]),
        decreases data@.len() - i,
    {
        out.push(normalize_i16(data[i]));
        i = i + 1;
    }
    out
}

/// Normalize a whole buffer of signed 32-bit samples.
pub fn normalize_i32_samples(data: &Vec<i32>) -> (r: Vec<i32>)
    ensures
        r@.len() == data@.len(),
        forall|i: int| 0 <= i < data@.len() ==> r@[i] as int == normalized_i32(data@[i]),
{
    let mut out: Vec<i32> = Vec::new();
    let mut i: usize = 0;
    while i < data.len()
        invariant
            i <= data@.len(),
            out@.len() == i,
            forall|k: int| 0 <= k < i ==> out@[k] as int == normalized_i32(data@[k]),
        decreases data@.len() - i,
    {
        out.push(normalize_i32(data[i]));
        i = i + 1;
    }
    out
}

/// The native sample encodings a device can deliver, as a closed set of
/// variants chosen once at session-activation time.
#[derive(Debug, Clone, Copy, PartialEq, Eq, Structural)]
pub enum SampleFormat {
    F32,
    I16,
    I32,
    F64,
    Other,
}

/// Whether the microphone capture path can decode a negotiated format: it
/// handles 32-bit float and 16- and 32-bit integer samples, and rejects
/// everything else as unsupported rather than guessing.
pub fn mic_format_supported(format: SampleFormat) -> (r: Result<(), AudioError>)
    ensures
        r is Ok <==> (format == SampleFormat::F32 || format == SampleFormat::I16 || format
            == SampleFormat::I32),
        r is Err ==> r matches Err(AudioError::UnsupportedFormat),
{
    match format {
        SampleFormat::F32 => Ok(()),
        SampleFormat::I16 => Ok(()),
        SampleFormat::I32 => Ok(()),
        _ => Err(AudioError::UnsupportedFormat),
    }
}

/// Sum of a sequence of 32-bit samples, as an unbounded integer.
pub open spec fn sample_sum(s: Seq<i32>) -> int
    decreases s.len(),
{
    if s.len() == 0 {
        0
    } else {
        s[0] + sample_sum(s.drop_first())
    }
}

/// Integer division rounding toward zero, the rounding of a hardware divide.
pub open spec fn div_toward_zero(a: int, b: int) -> int
    recommends
        b > 0,
{
    if a >= 0 {
        a / b
    } else {
        -((-a) / b)
    }
}

/// The mono value of one frame: the mean of its channel samples, always
/// taken over the full channel count even if the frame is short.
pub open spec fn frame_mean(frame: Seq<i32>, channels: int) -> int
    recommends
        channels > 0,
{
    div_toward_zero(sample_sum(frame), channels)
}

/// The frame of `data` starting at channel index `channels * j`; the last
/// frame of a buffer whose length is not a multiple of the channel count
/// is short.
pub open spec fn frame_of(data: Seq<i32>, channels: int, j: int) -> Seq<i32>
    recommends
        channels > 0,
        0 <= j,
{
    data.subrange(
        channels * j,
        if channels * (j + 1) <= data.len() { channels * (j + 1) } else { data.len() as int },
    )
}

proof fn lemma_sample_sum_bounds(s: Seq<i32>)
    ensures
        s.len() * (i32::MIN as int) <= sample_sum(s) <= s.len() * (i32::MAX as int),
    decreases s.len(),
{
    if s.len() == 0 {
    } else {
        lemma_sample_sum_bounds(s.drop_first());
        assert(s.drop_first().len() == s.len() - 1);
        assert((s.len() - 1) * (i32::MIN as int) + i32::MIN == s.len() * (i32::MIN as int))
            by (nonlinear_arith);
        assert((s.len() - 1) * (i32::MAX as int) + i32::MAX == s.len() * (i32::MAX as int))
            by (nonlinear_arith);
    }
}

proof fn lemma_sample_sum_push(s: Seq<i32>, x: i32)
    ensures
        sample_sum(s.push(x)) == sample_sum(s) + x,
    decreases s.len(),
{
    reveal_with_fuel(sample_sum, 3);
    if s.len() == 0 {
        assert(s.push(x).drop_first() =~= Seq::<i32>::empty());
        assert(s.push(x)[0] == x);
    } else {
        assert(s.push(x).drop_first() =~= s.drop_first().push(x));
        assert(s.push(x)[0] == s[0]);
        lemma_sample_sum_push(s.drop_first(), x);
    }
}

/// The mean of a frame fits in `i32` again, given the frame is no longer
/// than the channel count it is divided by.
proof fn lemma_frame_mean_fits(frame: Seq<i32>, channels: int)
    requires
        0 < channels,
        frame.len() <= channels,
    ensures
        i32::MIN as int <= frame_mean(frame, channels) <= i32::MAX as int,
{
    lemma_sample_sum_bounds(frame);
    let s = sample_sum(frame);
    if s >= 0 {
        assert(frame.len() * (i32::MAX as int) <= channels * (i32::MAX as int))
            by (nonlinear_arith)
            requires frame.len() <= channels, 0 < channels;
        lemma_div_is_ordered(s, channels * (i32::MAX as int), channels);
        lemma_div_multiples_vanish(i32::MAX as int, channels);
        assert(s / channels >= 0) by (nonlinear_arith) requires s >= 0, channels > 0;
    } else {
        assert(frame.len() * (i32::MIN as int) >= channels * (i32::MIN as int))
            by (nonlinear_arith)
            requires frame.len() <= channels, 0 < channels;
        assert(-s <= channels * (-(i32::MIN as int))) by (nonlinear_arith)
            requires s >= channels * (i32::MIN as int);
        lemma_div_is_ordered(-s, channels * (-(i32::MIN as int)), channels);
        lemma_div_multiples_vanish(-(i32::MIN as int), channels);
        assert((-s) / channels >= 0) by (nonlinear_arith) requires -s >= 0, channels > 0;
    }
}

/// Reduce interleaved multi-channel samples to mono by averaging each frame's
/// channels. A single-channel input passes through unchanged, since each
/// frame's mean is then the frame's one sample.
pub fn mono_mean(data: &Vec<i32>, channels: usize) -> (r: Vec<i32>)
    requires
        1 <= channels <= 0x8000_0000,
    ensures
        r@.len() == (data@.len() + channels - 1) / (channels as int),
        forall|j: int| 0 <= j < r@.len()
            ==> r@[j] as int == frame_mean(frame_of(data@, channels as int, j), channels as int),
{
    let ghost ch = channels as int;
    let mut out: Vec<i32> = Vec::new();
    let mut start: usize = 0;
    proof {
        assert(ch * 0 == 0) by (nonlinear_arith);
        vstd::arithmetic::div_mod::lemma_basic_div_specific_divisor(ch);
        assert((0 + channels - 1) / ch == 0);
    }
    while start < data.len()
        invariant
            1 <= channels <= 0x8000_0000,
            ch == channels as int,
            start <= data@.len(),
            (start == channels * out@.len() && out@.len() == (start + channels - 1) / ch)
                || (start == data@.len()
                    && out@.len() == (data@.len() + channels - 1) / ch),
            forall|j: int| 0 <= j < out@.len()
                ==> out@[j] as int == frame_mean(frame_of(data@, ch, j), ch),
        decreases data@.len() - start,
    {
        let ghost j = out@.len() as int;
        let end = if data.len() - start < channels {
            data.len()
        } else {
            start + channels
        };
        let mut sum: i64 = 0;
        let mut i: usize = start;
        proof {
            assert(data@.subrange(start as int, start as int) =~= Seq::<i32>::empty());
        }
        while i < end
            invariant
                start <= i <= end <= data@.len(),
                end - start <= channels <= 0x8000_0000,
                sum == sample_sum(data@.subrange(start as int, i as int)),
                (i - start) * (i32::MIN as int) <= sum <= (i - start) * (i32::MAX as int),
            decreases end - i,
        {
            proof {
                assert(data@.subrange(start as int, i as int + 1)
                    =~= data@.subrange(start as int, i as int).push(data@[i as int]));
                lemma_sample_sum_push(data@.subrange(start as int, i as int), data@[i as int]);
                assert((i - start) * (i32::MIN as int) + i32::MIN
                    == (i + 1 - start) * (i32::MIN as int)) by (nonlinear_arith);
                assert((i - start) * (i32::MAX as int) + i32::MAX
                    == (i + 1 - start) * (i32::MAX as int)) by (nonlinear_arith);
                assert((i + 1 - start) * (i32::MIN as int) >= -0x8000_0000 * 0x80000000i64)
                    by (nonlinear_arith)
                    requires 0 <= i + 1 - start <= 0x8000_0000;
                assert((i + 1 - start) * (i32::MAX as int) <= 0x8000_0000 * 0x80000000i64)
                    by (nonlinear_arith)
                    requires 0 <= i + 1 - start <= 0x8000_0000;
            }
            sum = sum + (data[i] as i64);
            i = i + 1;
        }
        let ghost frame = data@.subrange(start as int, end as int);
        proof {
            assert(ch * j == start);
            assert(ch * (j + 1) == start + channels) by (nonlinear_arith)
                requires ch * j == start, ch == channels as int;
            assert(frame_of(data@, ch, j) =~= frame);
            lemma_frame_mean_fits(frame, ch);
        }
        let mean: i32;
        if sum >= 0 {
            let q = sum / (channels as i64);
            proof {
                assert(q == div_toward_zero(sum as int, ch));
            }
            mean = q as i32;
        } else {
            let q = (-sum) / (channels as i64);
            proof {
                assert(-q == div_toward_zero(sum as int, ch));
            }
            mean = (-q) as i32;
        }
        out.push(mean);
        proof {
            assert((start + channels + channels - 1) / ch == (start + channels - 1) / ch + 1) by {
                assert(ch * (j + 1) + (ch - 1) == (start + channels + channels - 1))
                    by (nonlinear_arith)
                    requires ch * j == start, ch == channels as int;
                assert(ch * j + (ch - 1) == start + channels - 1);
                vstd::arithmetic::div_mod::lemma_div_multiples_vanish_fancy(j + 1, ch - 1, ch);
                vstd::arithmetic::div_mod::lemma_div_multiples_vanish_fancy(j, ch - 1, ch);
            }
            if end < data@.len() {
            } else {
                assert(end == data@.len());
                if end == start + channels {
                } else {
                    assert(start < data@.len() < start + channels);
                    assert((data@.len() + channels - 1) / ch == (start + channels + channels - 1) / ch)
                        by {
                        assert(ch * (j + 1) <= data@.len() + channels - 1 < ch * (j + 2)) by (nonlinear_arith)
                            requires ch * j == start, start < data@.len(), data@.len() < start + channels, ch == channels as int, 1 <= ch;
                        vstd::arithmetic::div_mod::lemma_fundamental_div_mod_converse(
                            data@.len() + channels - 1, ch, j + 1, data@.len() + channels - 1 - ch * (j + 1));
                        assert(ch * (j + 1) + (ch - 1) == start + channels + channels - 1);
                        vstd::arithmetic::div_mod::lemma_div_multiples_vanish_fancy(j + 1, ch - 1, ch);
                    }
                }
            }
        }
        start = end;
    }
    proof {
        if data@.len() == 0 {
            assert(out@.len() == 0);
        }
    }
    out
}

/// The mean of any number of identical channel values is that value
/// unchanged: reducing a frame of `n` copies of `v` to mono yields `v`.
pub proof fn lemma_mono_mean_identical(v: i32, n: int)
    requires
        1 <= n,
    ensures
        frame_mean(Seq::new(n as nat, |i: int| v), n) == v as int,
{
    let frame = Seq::new(n as nat, |i: int| v);
    lemma_sample_sum_constant(frame, v);
    assert(sample_sum(frame) == n * (v as int));
    if v >= 0 {
        lemma_div_multiples_vanish(v as int, n);
        assert(n * (v as int) >= 0) by (nonlinear_arith) requires n >= 1, v >= 0;
    } else {
        lemma_div_multiples_vanish(-(v as int), n);
        assert(n * (v as int) < 0) by (nonlinear_arith) requires n >= 1, v < 0;
        assert(-(n * (v as int)) == n * (-(v as int))) by (nonlinear_arith);
    }
}

proof fn lemma_sample_sum_constant(s: Seq<i32>, v: i32)
    requires
        forall|i: int| 0 <= i < s.len() ==> s[i] == v,
    ensures
        sample_sum(s) == s.len() * (v as int),
    decreases s.len(),
{
    if s.len() == 0 {
    } else {
        lemma_sample_sum_constant(s.drop_first(), v);
        assert((s.len() - 1) * (v as int) + v == s.len() * (v as int)) by (nonlinear_arith);
    }
}

} // verus!
