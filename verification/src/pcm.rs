//! Sample-level stages of the transcoding pipeline: splitting an interleaved
//! stereo stream into its channels and quantizing samples to 16 bits.

use vstd::arithmetic::div_mod::{
    lemma_basic_div, lemma_div_denominator, lemma_div_is_ordered,
    lemma_div_is_ordered_by_denominator, lemma_div_pos_is_pos,
};
use vstd::arithmetic::mul::lemma_mul_inequality;
use vstd::arithmetic::power2::{
    lemma2_to64, lemma_pow2_pos, lemma_pow2_strictly_increases, lemma_pow2_unfold, pow2,
};
use vstd::bits::lemma_u64_shl_is_mul;
use vstd::prelude::*;

verus! {

/// The left channel of an interleaved stereo stream: every sample at an even
/// position that has a partner after it.
pub open spec fn left_channel<T>(samples: Seq<T>) -> Seq<T> {
    Seq::new((samples.len() / 2) as nat, |i: int| samples[2 * i])
}

/// The right channel of an interleaved stereo stream: every sample at an odd
/// position.
pub open spec fn right_channel<T>(samples: Seq<T>) -> Seq<T> {
    Seq::new((samples.len() / 2) as nat, |i: int| samples[2 * i + 1])
}

/// Splits an interleaved stereo stream into its left and right channels.
///
/// Samples are consumed in pairs. A stream of odd length ends in a sample
/// without a partner; that sample is dropped.
pub fn deinterleave<T: Copy>(samples: &[T]) -> (channels: (Vec<T>, Vec<T>))
    ensures
        channels.0@ == left_channel(samples@),
        channels.1@ == right_channel(samples@),
{
    let pairs: usize = samples.len() / 2;
    let mut left: Vec<T> = Vec::with_capacity(pairs);
    let mut right: Vec<T> = Vec::with_capacity(pairs);
    let mut i: usize = 0;
    while i < pairs
        invariant
            pairs == samples@.len() / 2,
            2 * pairs <= samples.len(),
            i <= pairs,
            left@ == Seq::new(i as nat, |k: int| samples@[2 * k]),
            right@ == Seq::new(i as nat, |k: int| samples@[2 * k + 1]),
        decreases pairs - i,
    {
        left.push(samples[2 * i]);
        right.push(samples[2 * i + 1]);
        i += 1;
    }
    (left, right)
}

/// An unpaired trailing sample changes neither channel: a stream of `2n + 1`
/// samples splits into the same two channels of length `n` as its first `2n`
/// samples do.
pub proof fn lemma_unpaired_sample_dropped<T>(samples: Seq<T>, n: nat)
    requires
        samples.len() == 2 * n + 1,
    ensures
        left_channel(samples).len() == n,
        right_channel(samples).len() == n,
        left_channel(samples) == left_channel(samples.drop_last()),
        right_channel(samples) == right_channel(samples.drop_last()),
{
    assert(left_channel(samples) =~= left_channel(samples.drop_last()));
    assert(right_channel(samples) =~= right_channel(samples.drop_last()));
}

/// The largest magnitude a quantized sample is scaled to.
pub const FULL_SCALE: u32 = 32767;

/// The sign bit of an IEEE 754 single given by its bit pattern: 1 for a
/// negative value.
pub open spec fn sign_bit(bits: u32) -> int {
    bits as int / 0x8000_0000
}

/// The biased exponent (8 bits) of a single given by its bit pattern.
pub open spec fn exponent_field(bits: u32) -> int {
    (bits as int / 0x80_0000) % 0x100
}

/// The fraction (23 bits) of a single given by its bit pattern.
pub open spec fn fraction_field(bits: u32) -> int {
    bits as int % 0x80_0000
}

/// Whether the bit pattern is a NaN.
pub open spec fn is_nan(bits: u32) -> bool {
    exponent_field(bits) == 255 && fraction_field(bits) != 0
}

/// Whether the bit pattern is an infinity.
pub open spec fn is_infinite(bits: u32) -> bool {
    exponent_field(bits) == 255 && fraction_field(bits) == 0
}

/// Whether the bit pattern is a normal number, of absolute value
/// `(2^23 + fraction) * 2^(exponent - 150)`.
pub open spec fn is_normal(bits: u32) -> bool {
    1 <= exponent_field(bits) <= 254
}

/// `value / unit` rounded to the nearest integer, a tie going to the even one.
pub open spec fn round_half_even(value: int, unit: int) -> int {
    let quotient = value / unit;
    let rest = value % unit;
    if 2 * rest > unit || (2 * rest == unit && quotient % 2 == 1) {
        quotient + 1
    } else {
        quotient
    }
}

/// The exact product of the significand of a normal single and 32767. It
/// has 38 or 39 bits.
pub open spec fn significand_product(bits: u32) -> int {
    (0x80_0000 + fraction_field(bits)) * FULL_SCALE
}

/// The number of bits of the exact product beyond the 24 that a single
/// keeps.
pub open spec fn excess_bits(bits: u32) -> int {
    if significand_product(bits) < 0x40_0000_0000 {
        14
    } else {
        15
    }
}

/// The significand of the product as single-precision multiplication gives
/// it: the exact product rounded to 24 significant bits, ties to even.
pub open spec fn rounded_significand(bits: u32) -> int {
    round_half_even(significand_product(bits), pow2(excess_bits(bits) as nat) as int)
}

/// The scale of the rounded product of a normal single `s` and 32767:
/// `|s * 32767|` is `rounded_significand * 2^product_scale`.
pub open spec fn product_scale(bits: u32) -> int {
    excess_bits(bits) + exponent_field(bits) - 150
}

/// The integer part of `|s * 32767|` for a normal single `s`, the product
/// taken as single-precision multiplication gives it.
pub open spec fn scaled_magnitude(bits: u32) -> int {
    let rounded = rounded_significand(bits);
    let scale = product_scale(bits);
    if scale >= 0 {
        rounded * pow2(scale as nat)
    } else {
        rounded / (pow2((-scale) as nat) as int)
    }
}

/// The 16-bit sample for the single `s` given by its bit pattern:
/// `s * 32767` in single precision, truncated toward zero and saturated to
/// the range of `i16`.
///
/// A NaN gives 0. Zeros and subnormal numbers give 0: their product with
/// 32767 is below 1. An infinity saturates. The scale is 32767 on both sides,
/// so -1.0 gives -32767; -32768 is reached only by saturation.
pub open spec fn quantized(bits: u32) -> int {
    if is_nan(bits) || exponent_field(bits) == 0 {
        0
    } else {
        let magnitude = if is_infinite(bits) { 32768 } else { scaled_magnitude(bits) };
        if sign_bit(bits) == 1 {
            if magnitude < 32768 { -magnitude } else { -32768 }
        } else {
            if magnitude < 32767 { magnitude } else { 32767 }
        }
    }
}

/// Quantizes one sample, given as the bit pattern of an IEEE 754 single, to
/// 16 bits: the sample times 32767, truncated toward zero.
pub fn quantize(bits: u32) -> (q: i16)
    ensures
        q == quantized(bits),
{
    let negative: bool = bits >= 0x8000_0000;
    let exponent: u32 = (bits / 0x80_0000) % 0x100;
    let fraction: u32 = bits % 0x80_0000;
    if exponent == 0 || (exponent == 255 && fraction != 0) {
        return 0;
    }
    let capped: u64 = if exponent == 255 {
        32768
    } else {
        assert((0x80_0000 + fraction) * FULL_SCALE == (0x80_0000 + fraction) * 32767);
        let product: u64 = (0x80_0000 + fraction as u64) * (FULL_SCALE as u64);
        let excess: u32 = if product < 0x40_0000_0000 { 14 } else { 15 };
        let unit: u64 = if excess == 14 { 0x4000 } else { 0x8000 };
        let quotient: u64 = product / unit;
        let rest: u64 = product % unit;
        let rounded: u64 = if 2 * rest > unit || (2 * rest == unit && quotient % 2 == 1) {
            quotient + 1
        } else {
            quotient
        };
        proof {
            lemma2_to64();
            assert(unit == pow2(excess as nat));
            assert(rounded == round_half_even(product as int, pow2(excess as nat) as int));
            assert(0x80_0000 <= rounded <= 0x100_0000);
        }
        if excess + exponent >= 142 {
            proof {
                lemma_magnitude_saturates(bits);
            }
            32768
        } else if excess + exponent <= 125 {
            proof {
                lemma_magnitude_vanishes(bits);
            }
            0
        } else {
            let shift: u64 = (150 - excess - exponent) as u64;
            proof {
                lemma_pow2_strictly_increases(shift as nat, 25);
                lemma_u64_shl_is_mul(1, shift);
            }
            let divisor: u64 = 1u64 << shift;
            rounded / divisor
        }
    };
    if negative {
        if capped < 32768 {
            -(capped as i16)
        } else {
            -32768
        }
    } else {
        if capped < 32767 {
            capped as i16
        } else {
            32767
        }
    }
}

/// A channel of singles, quantized sample by sample.
pub open spec fn quantized_channel(channel: Seq<u32>) -> Seq<i16> {
    Seq::new(channel.len(), |i: int| quantized(channel[i]) as i16)
}

/// Quantizes a channel of samples, each given as the bit pattern of a single.
pub fn quantize_channel(channel: &[u32]) -> (pcm: Vec<i16>)
    ensures
        pcm@ == quantized_channel(channel@),
{
    let mut pcm: Vec<i16> = Vec::with_capacity(channel.len());
    let mut i: usize = 0;
    while i < channel.len()
        invariant
            i <= channel.len(),
            pcm@ == Seq::new(i as nat, |k: int| quantized(channel@[k]) as i16),
        decreases channel.len() - i,
    {
        pcm.push(quantize(channel[i]));
        i += 1;
    }
    pcm
}

/// The two 16-bit channels of an interleaved stereo stream of singles: the
/// stream split into its channels, each sample quantized.
pub fn prepare_channels(samples: &[u32]) -> (channels: (Vec<i16>, Vec<i16>))
    ensures
        channels.0@ == quantized_channel(left_channel(samples@)),
        channels.1@ == quantized_channel(right_channel(samples@)),
{
    let (left, right) = deinterleave(samples);
    (quantize_channel(left.as_slice()), quantize_channel(right.as_slice()))
}

/// Whether the single given by its bit pattern is in the nominal domain of a
/// sample, from -1 to 1.
pub open spec fn is_nominal(bits: u32) -> bool {
    exponent_field(bits) < 127 || (exponent_field(bits) == 127 && fraction_field(bits) == 0)
}

/// A sample in the nominal domain is quantized to at most 32767 on either
/// side: -32768 is never reached, and a sample and its negative give
/// opposite values.
pub proof fn lemma_nominal_samples_stay_in_scale(bits: u32)
    requires
        is_nominal(bits),
        bits < 0x8000_0000,
    ensures
        0 <= quantized(bits) <= FULL_SCALE,
        quantized((bits + 0x8000_0000) as u32) == -quantized(bits),
{
    let negative = (bits + 0x8000_0000) as u32;
    assert(exponent_field(negative) == exponent_field(bits));
    assert(fraction_field(negative) == fraction_field(bits));
    assert(sign_bit(bits) == 0 && sign_bit(negative) == 1);
    if exponent_field(bits) > 0 {
        lemma2_to64();
        lemma_rounded_bounds(bits);
        let product = significand_product(bits);
        let excess = excess_bits(bits);
        let rounded = rounded_significand(bits);
        let scale = product_scale(bits);
        let k = (-scale) as nat;
        assert(scaled_magnitude(bits) == rounded / (pow2(k) as int));
        assert(scaled_magnitude(negative) == scaled_magnitude(bits));
        lemma_pow2_pos(k);
        lemma_div_pos_is_pos(rounded, pow2(k) as int);
        assert(product == (0x80_0000 + fraction_field(bits)) * 32767);
        if excess == 15 || exponent_field(bits) == 127 {
            assert(rounded <= 512 * 32767);
            if k > 9 {
                lemma_pow2_strictly_increases(9, k);
            }
            lemma_div_is_ordered_by_denominator(rounded, 512, pow2(k) as int);
            assert(rounded / 512 <= 32767);
        } else {
            if k > 10 {
                lemma_pow2_strictly_increases(10, k);
            }
            lemma_div_is_ordered_by_denominator(rounded, 1024, pow2(k) as int);
            assert(rounded / 1024 <= 32767);
        }
    }
}

/// The magnitude of the quantized sample before the sign is applied, capped
/// at 32768.
spec fn capped_magnitude(bits: u32) -> int {
    if exponent_field(bits) == 0 {
        0
    } else if is_infinite(bits) || scaled_magnitude(bits) >= 32768 {
        32768
    } else {
        scaled_magnitude(bits)
    }
}

/// Of two normal samples of the same sign, the one with the larger bit
/// pattern has the larger scale, or the same scale and the larger rounded
/// significand.
proof fn lemma_rounded_order(a: u32, b: u32)
    requires
        a <= b < 0x8000_0000,
        is_normal(a),
        is_normal(b),
    ensures
        product_scale(a) <= product_scale(b),
        product_scale(a) == product_scale(b) ==> rounded_significand(a) <= rounded_significand(
            b,
        ),
        0x80_0000 <= rounded_significand(a) <= 0x100_0000,
        0x80_0000 <= rounded_significand(b) <= 0x100_0000,
{
    lemma2_to64();
    lemma_rounded_bounds(a);
    lemma_rounded_bounds(b);
    let pa = (0x80_0000 + fraction_field(a)) * 32767;
    let pb = (0x80_0000 + fraction_field(b)) * 32767;
    assert(significand_product(a) == pa);
    assert(significand_product(b) == pb);
    if exponent_field(a) == exponent_field(b) {
        assert(fraction_field(a) <= fraction_field(b));
        assert(pa <= pb);
    } else if product_scale(a) == product_scale(b) {
        assert(excess_bits(a) == 15 && excess_bits(b) == 14);
        assert(rounded_significand(a) <= 0x100_0000 - 0x200);
        assert(rounded_significand(b) >= 0x100_0000 - 0x200);
    }
}

/// The capped magnitude of a normal sample, by its scale.
proof fn lemma_capped_by_scale(bits: u32)
    requires
        is_normal(bits),
    ensures
        product_scale(bits) >= -8 ==> capped_magnitude(bits) == 32768,
        product_scale(bits) <= -25 ==> capped_magnitude(bits) == 0,
        -24 <= product_scale(bits) <= -9 ==> {
            &&& scaled_magnitude(bits) == rounded_significand(bits) / (pow2(
                (-product_scale(bits)) as nat,
            ) as int)
            &&& 0 <= scaled_magnitude(bits) <= 32768
        },
{
    lemma2_to64();
    lemma_rounded_bounds(bits);
    if product_scale(bits) >= -8 {
        lemma_magnitude_saturates(bits);
    } else if product_scale(bits) <= -25 {
        lemma_magnitude_vanishes(bits);
    } else {
        let k = (-product_scale(bits)) as nat;
        lemma_pow2_pos(k);
        if k > 9 {
            lemma_pow2_strictly_increases(9, k);
        }
        lemma_div_pos_is_pos(rounded_significand(bits), pow2(k) as int);
        lemma_div_is_ordered_by_denominator(rounded_significand(bits), 512, pow2(k) as int);
        assert(rounded_significand(bits) / 512 <= 32768);
    }
}

/// Quantization keeps the order of samples: of two samples that are no NaN,
/// the larger one is quantized to the larger value, or to the same.
pub proof fn lemma_quantized_monotonic(a: u32, b: u32)
    requires
        a <= b < 0x8000_0000,
        !is_nan(a),
        !is_nan(b),
    ensures
        quantized(a) <= quantized(b),
        quantized((b + 0x8000_0000) as u32) <= quantized((a + 0x8000_0000) as u32),
{
    let na = (a + 0x8000_0000) as u32;
    let nb = (b + 0x8000_0000) as u32;
    assert(exponent_field(na) == exponent_field(a) && fraction_field(na) == fraction_field(a));
    assert(exponent_field(nb) == exponent_field(b) && fraction_field(nb) == fraction_field(b));
    assert(sign_bit(a) == 0 && sign_bit(b) == 0 && sign_bit(na) == 1 && sign_bit(nb) == 1);
    assert(scaled_magnitude(na) == scaled_magnitude(a));
    assert(scaled_magnitude(nb) == scaled_magnitude(b));
    lemma_capped_monotonic(a, b);
}

/// The capped magnitude keeps the order of samples of one sign.
proof fn lemma_capped_monotonic(a: u32, b: u32)
    requires
        a <= b < 0x8000_0000,
        !is_nan(a),
        !is_nan(b),
    ensures
        0 <= capped_magnitude(a) <= capped_magnitude(b) <= 32768,
{
    assert(exponent_field(a) <= exponent_field(b));
    if is_normal(a) {
        lemma_capped_by_scale(a);
    }
    if is_normal(b) {
        lemma_capped_by_scale(b);
    }
    if is_normal(a) && is_normal(b) {
        lemma_rounded_order(a, b);
        let ta = product_scale(a);
        let tb = product_scale(b);
        if -24 <= ta && tb <= -9 {
            let ka = (-ta) as nat;
            let kb = (-tb) as nat;
            let ra = rounded_significand(a);
            let rb = rounded_significand(b);
            lemma_pow2_pos(ka);
            lemma_pow2_pos(kb);
            if ka == kb {
                lemma_div_is_ordered(ra, rb, pow2(kb) as int);
            } else {
                // ra / 2^ka <= 2^24 / 2^ka <= 2^24 / 2^(kb + 1) == 2^23 / 2^kb <= rb / 2^kb
                lemma_div_is_ordered(ra, 0x100_0000, pow2(ka) as int);
                lemma_pow2_pos(kb + 1);
                if ka > kb + 1 {
                    lemma_pow2_strictly_increases(kb + 1, ka);
                }
                lemma_div_is_ordered_by_denominator(
                    0x100_0000,
                    pow2(kb + 1) as int,
                    pow2(ka) as int,
                );
                lemma_pow2_unfold(kb + 1);
                lemma_div_denominator(0x100_0000, 2, pow2(kb) as int);
                lemma_div_is_ordered(0x80_0000, rb, pow2(kb) as int);
            }
        }
    }
}

/// The rounded product of a normal sample keeps 24 significant bits: its
/// significand lies from 2^23 to 2^24, the upper end reached only by
/// rounding up.
pub proof fn lemma_rounded_bounds(bits: u32)
    requires
        is_normal(bits),
    ensures
        0x80_0000 <= rounded_significand(bits) <= 0x100_0000,
{
    lemma2_to64();
}

/// From a scale of -8 on, the magnitude is at least 32768.
proof fn lemma_magnitude_saturates(bits: u32)
    requires
        is_normal(bits),
        product_scale(bits) >= -8,
    ensures
        scaled_magnitude(bits) >= 32768,
{
    lemma2_to64();
    lemma_rounded_bounds(bits);
    let rounded = rounded_significand(bits);
    let scale = product_scale(bits);
    if scale >= 0 {
        lemma_pow2_pos(scale as nat);
        lemma_mul_inequality(1, pow2(scale as nat) as int, rounded);
    } else {
        let k = (-scale) as nat;
        lemma_pow2_pos(k);
        if k < 8 {
            lemma_pow2_strictly_increases(k, 8);
        }
        lemma_div_is_ordered_by_denominator(rounded, pow2(k) as int, 256);
    }
}

/// Up to a scale of -25, the magnitude is 0.
proof fn lemma_magnitude_vanishes(bits: u32)
    requires
        is_normal(bits),
        product_scale(bits) <= -25,
    ensures
        scaled_magnitude(bits) == 0,
{
    lemma2_to64();
    lemma_rounded_bounds(bits);
    let rounded = rounded_significand(bits);
    let scale = product_scale(bits);
    let k = (-scale) as nat;
    if k > 25 {
        lemma_pow2_strictly_increases(25, k);
    }
    lemma_basic_div(rounded, pow2(k) as int);
}

} // verus!
