//! Sample-rate conversion by linear interpolation, and channel mixdown.
//!
//! The conversion ratio is the rational number `target_rate / source_rate`.
//! Every position and weight is computed on integers, so the result is the
//! exact interpolation, rounded toward zero to a sample.

use crate::audio::buffer::with_headroom;
use crate::audio::chunks::{
    chunk_at, chunk_count, lemma_chunk_step, lemma_no_samples_no_chunks,
};
use vstd::prelude::*;
use vstd::slice::slice_to_vec;

verus! {

/// Distance between two integers.
pub open spec fn distance(a: int, b: int) -> int {
    if a <= b {
        b - a
    } else {
        a - b
    }
}

/// Quotient rounded toward zero, for a positive divisor.
pub open spec fn div_toward_zero(a: int, b: int) -> int {
    if a >= 0 {
        a / b
    } else {
        -((-a) / b)
    }
}

/// The ratio `target_rate / source_rate` lies within one thousandth of 1.
pub open spec fn rates_match(source_rate: u32, target_rate: u32) -> bool {
    1000 * distance(source_rate as int, target_rate as int) < source_rate
}

/// Number of samples that `len` input samples become: `len * ratio`, rounded down.
pub open spec fn resampled_len(len: nat, source_rate: u32, target_rate: u32) -> nat {
    if rates_match(source_rate, target_rate) {
        len
    } else {
        (len * target_rate / (source_rate as int)) as nat
    }
}

/// Index of the input sample at or just before output position `i`.
pub open spec fn source_floor(i: int, source_rate: u32, target_rate: u32) -> int {
    i * source_rate / (target_rate as int)
}

/// How far output position `i` lies past `source_floor`, in units of `1 / target_rate`.
pub open spec fn source_offset(i: int, source_rate: u32, target_rate: u32) -> int {
    i * source_rate % (target_rate as int)
}

/// Index of the input sample just after output position `i`, held inside the input.
pub open spec fn source_ceil(len: int, i: int, source_rate: u32, target_rate: u32) -> int {
    if source_floor(i, source_rate, target_rate) + 1 <= len - 1 {
        source_floor(i, source_rate, target_rate) + 1
    } else {
        len - 1
    }
}

/// `unit` times the point `offset / unit` of the way from `s0` to `s1`,
/// which is `s0 * (1 - f) + s1 * f` for the fraction `f = offset / unit`.
pub open spec fn weighted_sum(s0: i16, s1: i16, offset: int, unit: int) -> int {
    s0 * (unit - offset) + s1 * offset
}

/// The point `offset / unit` of the way from `s0` to `s1`, rounded toward zero.
pub open spec fn interpolate(s0: i16, s1: i16, offset: int, unit: int) -> int {
    div_toward_zero(weighted_sum(s0, s1, offset, unit), unit)
}

/// Output sample `i` of a conversion that is not the identity.
pub open spec fn interpolated_sample(
    samples: Seq<i16>,
    i: int,
    source_rate: u32,
    target_rate: u32,
) -> i16 {
    interpolate(
        samples[source_floor(i, source_rate, target_rate)],
        samples[source_ceil(samples.len() as int, i, source_rate, target_rate)],
        source_offset(i, source_rate, target_rate),
        target_rate as int,
    ) as i16
}

/// What `resample` returns.
pub open spec fn resample_spec(samples: Seq<i16>, source_rate: u32, target_rate: u32) -> Seq<i16> {
    if rates_match(source_rate, target_rate) {
        samples
    } else {
        Seq::new(
            resampled_len(samples.len(), source_rate, target_rate),
            |i: int| interpolated_sample(samples, i, source_rate, target_rate),
        )
    }
}

/// `value` lies between `a` and `b`, in either order.
pub open spec fn between(value: int, a: int, b: int) -> bool {
    (a <= value <= b) || (b <= value <= a)
}

/// Every output position of a conversion reads inside the input.
pub proof fn lemma_source_floor_in_bounds(len: nat, i: int, source_rate: u32, target_rate: u32)
    requires
        source_rate > 0,
        0 <= i < len * target_rate / (source_rate as int),
    ensures
        target_rate > 0,
        0 <= source_floor(i, source_rate, target_rate) < len,
        0 <= source_offset(i, source_rate, target_rate) < target_rate,
        source_floor(i, source_rate, target_rate) <= source_ceil(
            len as int,
            i,
            source_rate,
            target_rate,
        ) < len,
{
    let s = source_rate as int;
    let t = target_rate as int;
    let n = len as int;
    assert(t > 0) by (nonlinear_arith)
        requires
            s > 0,
            n >= 0,
            t >= 0,
            0 <= i < n * t / s,
    {
        if t == 0 {
            assert(n * t == 0);
        }
    }
    assert((i + 1) * s <= n * t) by (nonlinear_arith)
        requires
            s > 0,
            i + 1 <= n * t / s,
    {
        assert((n * t / s) * s <= n * t);
        assert((i + 1) * s <= (n * t / s) * s);
    }
    assert(i * s < n * t) by (nonlinear_arith)
        requires
            (i + 1) * s <= n * t,
            s > 0,
    ;
    assert(0 <= i * s / t < n) by (nonlinear_arith)
        requires
            0 <= i,
            s > 0,
            t > 0,
            i * s < n * t,
    ;
    assert(0 <= (i * s) % t < t) by (nonlinear_arith)
        requires
            t > 0,
    ;
}

/// An interpolated value never leaves the span of the two samples it is taken from.
pub proof fn lemma_interpolate_between(s0: i16, s1: i16, offset: int, unit: int)
    requires
        0 <= offset < unit,
    ensures
        between(interpolate(s0, s1, offset, unit), s0 as int, s1 as int),
        i16::MIN <= interpolate(s0, s1, offset, unit) <= i16::MAX,
{
    let a = s0 as int;
    let b = s1 as int;
    let lo = if a <= b { a } else { b };
    let hi = if a <= b { b } else { a };
    let num = a * (unit - offset) + b * offset;
    assert(lo * unit <= num <= hi * unit) by (nonlinear_arith)
        requires
            0 <= offset < unit,
            lo <= a <= hi,
            lo <= b <= hi,
            num == a * (unit - offset) + b * offset,
    ;
    if num >= 0 {
        assert(num / unit <= hi && (lo >= 0 ==> num / unit >= lo) && num / unit >= 0)
            by (nonlinear_arith)
            requires
                unit > 0,
                num >= 0,
                lo * unit <= num <= hi * unit,
        ;
    } else {
        assert((-num) / unit <= -lo && (hi <= 0 ==> (-num) / unit >= -hi) && (-num) / unit >= 0)
            by (nonlinear_arith)
            requires
                unit > 0,
                num < 0,
                lo * unit <= num <= hi * unit,
        ;
    }
}

/// Rounding toward zero moves an interpolated value by less than one unit
/// of a sample.
pub proof fn lemma_interpolate_within_one(s0: i16, s1: i16, offset: int, unit: int)
    requires
        0 <= offset < unit,
    ensures
        distance(
            interpolate(s0, s1, offset, unit) * unit,
            weighted_sum(s0, s1, offset, unit),
        ) < unit,
{
    let num = weighted_sum(s0, s1, offset, unit);
    if num >= 0 {
        assert(0 <= num - (num / unit) * unit < unit) by (nonlinear_arith)
            requires
                unit > 0,
                num >= 0,
        ;
    } else {
        assert(0 <= (-num) - ((-num) / unit) * unit < unit) by (nonlinear_arith)
            requires
                unit > 0,
                num < 0,
        ;
        assert((-((-num) / unit)) * unit == -(((-num) / unit) * unit)) by (nonlinear_arith);
    }
}

/// `len * ratio` rounded to the nearest integer, halves upward.
pub open spec fn rounded_product(len: nat, source_rate: u32, target_rate: u32) -> int {
    (2 * len * target_rate + source_rate) / (2 * source_rate)
}

/// Rates within one thousandth of each other give the input back, sample for sample.
pub proof fn law_matching_rates_keep_input(samples: Seq<i16>, source_rate: u32, target_rate: u32)
    requires
        rates_match(source_rate, target_rate),
    ensures
        resample_spec(samples, source_rate, target_rate) == samples,
{
}

/// Equal rates always match.
pub proof fn law_equal_rates_match(rate: u32)
    requires
        rate > 0,
    ensures
        rates_match(rate, rate),
{
}

/// The output of a conversion is at most one sample shorter than `len * ratio`
/// rounded to the nearest integer, and never longer.
pub proof fn law_length_within_one_of_rounded(samples: Seq<i16>, source_rate: u32, target_rate: u32)
    requires
        source_rate > 0,
        !rates_match(source_rate, target_rate),
    ensures
        resample_spec(samples, source_rate, target_rate).len() <= rounded_product(
            samples.len(),
            source_rate,
            target_rate,
        ) <= resample_spec(samples, source_rate, target_rate).len() + 1,
{
    let n = samples.len() as int;
    let s = source_rate as int;
    let t = target_rate as int;
    let p = n * t;
    assert(p >= 0) by (nonlinear_arith)
        requires
            n >= 0,
            t >= 0,
            p == n * t,
    ;
    assert(2 * n * t == 2 * p) by (nonlinear_arith)
        requires
            p == n * t,
    ;
    assert(p / s <= (2 * p + s) / (2 * s) <= p / s + 1) by (nonlinear_arith)
        requires
            s > 0,
            p >= 0,
    {
        let q = p / s;
        assert(q * s <= p < (q + 1) * s);
        assert(q * (2 * s) <= 2 * p + s);
        assert(2 * p + s < (q + 2) * (2 * s));
    }
}

/// Converting to another rate and back loses fewer than `source / target + 1`
/// samples and gains none, as long as both conversions interpolate or neither does.
pub proof fn law_round_trip_length(len: nat, source_rate: u32, target_rate: u32)
    requires
        source_rate > 0,
        target_rate > 0,
        rates_match(source_rate, target_rate) == rates_match(target_rate, source_rate),
    ensures
        resampled_len(resampled_len(len, source_rate, target_rate), target_rate, source_rate)
            <= len,
        (len - resampled_len(
            resampled_len(len, source_rate, target_rate),
            target_rate,
            source_rate,
        )) * target_rate < source_rate + target_rate,
{
    if !rates_match(source_rate, target_rate) {
        let n = len as int;
        let s = source_rate as int;
        let t = target_rate as int;
        let m = n * t / s;
        let back = m * s / t;
        assert(0 <= m && m * s <= n * t && n * t < (m + 1) * s) by (nonlinear_arith)
            requires
                s > 0,
                t > 0,
                n >= 0,
                m == n * t / s,
        {
            assert(n * t >= 0);
        }
        assert(0 <= back && back * t <= m * s && m * s < (back + 1) * t) by (nonlinear_arith)
            requires
                s > 0,
                t > 0,
                m >= 0,
                back == m * s / t,
        {
            assert(m * s >= 0);
        }
        assert(back <= n && (n - back) * t < s + t) by (nonlinear_arith)
            requires
                s > 0,
                t > 0,
                m * s <= n * t,
                n * t < (m + 1) * s,
                back * t <= m * s,
                m * s < (back + 1) * t,
        ;
        assert(resampled_len(len, source_rate, target_rate) == m);
        assert(resampled_len(m as nat, target_rate, source_rate) == back);
    } else {
        assert((len - len) * target_rate == 0) by (nonlinear_arith);
    }
}

/// Every sample of a conversion is read inside the input, lies within one
/// unit of the exact interpolation between the two neighbouring input
/// samples around its position, and never outside the span of those two.
pub proof fn law_output_is_interpolation(
    samples: Seq<i16>,
    source_rate: u32,
    target_rate: u32,
    i: int,
)
    requires
        source_rate > 0,
        !rates_match(source_rate, target_rate),
        0 <= i < resample_spec(samples, source_rate, target_rate).len(),
    ensures
        0 <= source_floor(i, source_rate, target_rate) < samples.len(),
        source_floor(i, source_rate, target_rate) <= source_ceil(
            samples.len() as int,
            i,
            source_rate,
            target_rate,
        ) <= source_floor(i, source_rate, target_rate) + 1,
        source_ceil(samples.len() as int, i, source_rate, target_rate) < samples.len(),
        0 <= source_offset(i, source_rate, target_rate) < target_rate,
        distance(
            resample_spec(samples, source_rate, target_rate)[i] * target_rate,
            weighted_sum(
                samples[source_floor(i, source_rate, target_rate)],
                samples[source_ceil(samples.len() as int, i, source_rate, target_rate)],
                source_offset(i, source_rate, target_rate),
                target_rate as int,
            ),
        ) < target_rate,
        between(
            resample_spec(samples, source_rate, target_rate)[i] as int,
            samples[source_floor(i, source_rate, target_rate)] as int,
            samples[source_ceil(samples.len() as int, i, source_rate, target_rate)] as int,
        ),
{
    lemma_source_floor_in_bounds(samples.len(), i, source_rate, target_rate);
    let s0 = samples[source_floor(i, source_rate, target_rate)];
    let s1 = samples[source_ceil(samples.len() as int, i, source_rate, target_rate)];
    let offset = source_offset(i, source_rate, target_rate);
    lemma_interpolate_between(s0, s1, offset, target_rate as int);
    lemma_interpolate_within_one(s0, s1, offset, target_rate as int);
    assert(resample_spec(samples, source_rate, target_rate)[i] as int == interpolate(
        s0,
        s1,
        offset,
        target_rate as int,
    ));
}

// ---------------------------------------------------------------------------
// Mixdown
// ---------------------------------------------------------------------------

/// Sum of the samples of a frame.
pub open spec fn frame_sum(frame: Seq<i16>) -> int
    decreases frame.len(),
{
    if frame.len() == 0 {
        0
    } else {
        frame_sum(frame.drop_last()) + frame.last()
    }
}

/// The mono sample of frame `k`, a frame being a chunk of one sample per
/// channel: its sum over the channel count, rounded toward zero.
pub open spec fn mixed_sample(data: Seq<i16>, channels: u16, k: int) -> i16 {
    div_toward_zero(frame_sum(chunk_at(data, channels as nat, k)), channels as int) as i16
}

/// What `mixdown_i16` returns: one sample for each frame, the partial frame
/// that may end the data included.
pub open spec fn mixdown_spec(data: Seq<i16>, channels: u16) -> Seq<i16> {
    Seq::new(
        chunk_count(data.len(), channels as nat),
        |k: int| mixed_sample(data, channels, k),
    )
}

/// The sum of a frame is bounded by its length times the sample range.
pub proof fn lemma_frame_sum_bounds(frame: Seq<i16>)
    ensures
        -0x8000 * frame.len() <= frame_sum(frame) <= 0x7fff * frame.len(),
    decreases frame.len(),
{
    if frame.len() > 0 {
        lemma_frame_sum_bounds(frame.drop_last());
    }
}

/// With one channel there is nothing to mix: every sample is its own frame.
pub proof fn law_mono_mixdown_keeps_input(data: Seq<i16>)
    ensures
        mixdown_spec(data, 1) == data,
{
    let mixed = mixdown_spec(data, 1);
    assert(mixed.len() == data.len());
    assert forall|k: int| 0 <= k < data.len() implies mixed[k] == data[k] by {
        let frame = chunk_at(data, 1, k);
        assert(frame =~= seq![data[k]]);
        assert(frame.drop_last() =~= Seq::<i16>::empty());
        assert(frame_sum(frame) == frame_sum(frame.drop_last()) + frame.last());
        assert(frame_sum(frame.drop_last()) == 0);
    }
    assert(mixed =~= data);
}

/// Mixing interleaved frames down to mono by their arithmetic mean.
pub fn mixdown_i16(data: &[i16], channels: u16) -> (mono: Vec<i16>)
    requires
        channels > 0,
    ensures
        mono@ == mixdown_spec(data@, channels),
{
    let len: usize = data.len();
    let width: usize = channels as usize;
    let frames: u128 = (len as u128 + width as u128 - 1) / (width as u128);
    let mut mono: Vec<i16> = with_headroom(frames);
    let mut start: usize = 0;
    proof {
        assert(0 * width == 0) by (nonlinear_arith);
        lemma_no_samples_no_chunks(channels as nat);
    }
    while start < len
        invariant
            channels > 0,
            width == channels,
            len == data@.len(),
            start <= len,
            start < len ==> start == mono@.len() * width,
            start == len ==> mono@.len() == chunk_count(len as nat, channels as nat),
            mono@.len() <= chunk_count(len as nat, channels as nat),
            forall|k: int| 0 <= k < mono@.len() ==> mono@[k] == mixed_sample(data@, channels, k),
        decreases len - start,
    {
        let ghost k = mono@.len() as int;
        let end: usize = if len - start >= width {
            start + width
        } else {
            len
        };
        proof {
            assert((k + 1) * width == k * width + width) by (nonlinear_arith);
            assert(chunk_at(data@, channels as nat, k) == data@.subrange(start as int, end as int));
        }
        let mut sum: i32 = 0;
        let mut j: usize = start;
        while j < end
            invariant
                start <= j <= end <= len,
                end - start <= width,
                width <= 0xffff,
                len == data@.len(),
                sum == frame_sum(data@.subrange(start as int, j as int)),
                -0x8000 * (j - start) <= sum <= 0x7fff * (j - start),
            decreases end - j,
        {
            proof {
                let next = data@.subrange(start as int, j as int + 1);
                assert(next.drop_last() == data@.subrange(start as int, j as int));
                assert(next.last() == data@[j as int]);
            }
            sum = sum + data[j] as i32;
            j += 1;
        }
        proof {
            lemma_frame_sum_bounds(data@.subrange(start as int, end as int));
            lemma_mean_fits(sum as int, (end - start) as int, width as int);
        }
        let mean: i64 = divide_toward_zero(sum as i64, channels as u32);
        mono.push(mean as i16);
        proof {
            lemma_chunk_step(len as nat, channels as nat, k, end as int);
        }
        start = end;
    }
    proof {
        assert(mono@ =~= mixdown_spec(data@, channels));
    }
    mono
}

/// The mean of at most `width` samples is a sample.
proof fn lemma_mean_fits(sum: int, count: int, width: int)
    requires
        0 <= count <= width,
        width > 0,
        -0x8000 * count <= sum <= 0x7fff * count,
    ensures
        i16::MIN <= div_toward_zero(sum, width) <= i16::MAX,
{
    if sum >= 0 {
        assert(0 <= sum / width <= 0x7fff) by (nonlinear_arith)
            requires
                0 <= sum <= 0x7fff * count,
                0 <= count <= width,
                width > 0,
        ;
    } else {
        assert(0 <= (-sum) / width <= 0x8000) by (nonlinear_arith)
            requires
                0 < -sum <= 0x8000 * count,
                0 <= count <= width,
                width > 0,
        ;
    }
}

/// Exec form of `div_toward_zero` for the magnitudes that interpolation and
/// mixdown produce.
fn divide_toward_zero(num: i64, unit: u32) -> (q: i64)
    requires
        unit > 0,
        -0x1_0000_0000_0000 <= num <= 0x1_0000_0000_0000,
    ensures
        q == div_toward_zero(num as int, unit as int),
{
    if num >= 0 {
        let q: u64 = (num as u64) / (unit as u64);
        q as i64
    } else {
        let q: u64 = ((-num) as u64) / (unit as u64);
        -(q as i64)
    }
}

/// Converts `samples` from `source_rate` to `target_rate` by linear
/// interpolation between the two input samples around each output position.
///
/// Rates within one thousandth of each other leave the input unchanged.
pub fn resample(samples: &[i16], source_rate: u32, target_rate: u32) -> (output: Vec<i16>)
    requires
        source_rate > 0,
        resampled_len(samples@.len(), source_rate, target_rate) <= usize::MAX,
    ensures
        output@ == resample_spec(samples@, source_rate, target_rate),
{
    let diff: u32 = if source_rate <= target_rate {
        target_rate - source_rate
    } else {
        source_rate - target_rate
    };
    if (diff as u64) * 1000 < source_rate as u64 {
        return slice_to_vec(samples);
    }
    let len: usize = samples.len();
    assert((len as int) * (target_rate as int) <= 0xffff_ffff_ffff_ffff * 0xffff_ffff)
        by (nonlinear_arith)
        requires
            0 <= len as int <= 0xffff_ffff_ffff_ffff,
            0 <= target_rate as int <= 0xffff_ffff,
    ;
    let output_len_wide: u128 = (len as u128) * (target_rate as u128) / (source_rate as u128);
    let output_len: usize = output_len_wide as usize;
    let mut output: Vec<i16> = with_headroom(output_len_wide);
    let mut i: usize = 0;
    while i < output_len
        invariant
            source_rate > 0,
            !rates_match(source_rate, target_rate),
            len == samples@.len(),
            output_len == len * target_rate / (source_rate as int),
            i <= output_len,
            output@.len() == i,
            forall|k: int|
                0 <= k < i ==> output@[k] == interpolated_sample(
                    samples@,
                    k,
                    source_rate,
                    target_rate,
                ),
        decreases output_len - i,
    {
        proof {
            lemma_source_floor_in_bounds(len as nat, i as int, source_rate, target_rate);
        }
        assert((i as int) * (source_rate as int) <= 0xffff_ffff_ffff_ffff * 0xffff_ffff)
            by (nonlinear_arith)
            requires
                0 <= i as int <= 0xffff_ffff_ffff_ffff,
                0 <= source_rate as int <= 0xffff_ffff,
        ;
        let position: u128 = (i as u128) * (source_rate as u128);
        let floor: usize = (position / (target_rate as u128)) as usize;
        let offset: u32 = (position % (target_rate as u128)) as u32;
        let ceil: usize = if floor + 1 <= len - 1 {
            floor + 1
        } else {
            len - 1
        };
        let s0: i16 = samples[floor];
        let s1: i16 = samples[ceil];
        proof {
            lemma_interpolate_between(s0, s1, offset as int, target_rate as int);
        }
        let sample: i16 = interpolate_exec(s0, s1, offset, target_rate);
        output.push(sample);
        i += 1;
    }
    proof {
        assert(output@ =~= resample_spec(samples@, source_rate, target_rate));
    }
    output
}

/// Exec form of `interpolate`.
fn interpolate_exec(s0: i16, s1: i16, offset: u32, unit: u32) -> (sample: i16)
    requires
        offset < unit,
    ensures
        sample == interpolate(s0, s1, offset as int, unit as int),
{
    let w1: i64 = offset as i64;
    let w0: i64 = unit as i64 - w1;
    assert(-0x8000 * 0x1_0000_0000 <= (s0 as int) * (w0 as int) <= 0x8000 * 0x1_0000_0000)
        by (nonlinear_arith)
        requires
            -0x8000 <= s0 as int <= 0x7fff,
            0 <= w0 as int <= 0x1_0000_0000,
    ;
    assert(-0x8000 * 0x1_0000_0000 <= (s1 as int) * (w1 as int) <= 0x8000 * 0x1_0000_0000)
        by (nonlinear_arith)
        requires
            -0x8000 <= s1 as int <= 0x7fff,
            0 <= w1 as int <= 0x1_0000_0000,
    ;
    let num: i64 = (s0 as i64) * w0 + (s1 as i64) * w1;
    let q: i64 = divide_toward_zero(num, unit);
    proof {
        lemma_interpolate_between(s0, s1, offset as int, unit as int);
    }
    q as i16
}

} // verus!
