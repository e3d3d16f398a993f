//! Browser audio frames: 32-bit floating-point samples in, 16-bit PCM out.
//!
//! Samples are handled by their IEEE 754 bit patterns, so every conversion is
//! exact integer arithmetic.

use vstd::arithmetic::power2::lemma2_to64;
use vstd::arithmetic::power2::lemma_pow2_adds;
use vstd::arithmetic::power2::lemma_pow2_pos;
use vstd::arithmetic::power2::lemma_pow2_strictly_increases;
use vstd::arithmetic::power2::pow2;
use vstd::prelude::*;

verus! {

/// The largest PCM magnitude a sample is scaled to.
pub const PCM_PEAK: u32 = 32767;

/// `value` in units of `unit`, rounded to the nearest integer; a tie goes to
/// the even neighbour.
pub open spec fn round_half_even(value: nat, unit: nat) -> nat {
    let quotient = value / unit;
    let rest = value % unit;
    if 2 * rest < unit || (2 * rest == unit && quotient % 2 == 0) {
        quotient
    } else {
        quotient + 1
    }
}

/// `value` rounded to 24 significant bits, the precision of a 32-bit float,
/// for a `value` of 38 or 39 bits.
pub open spec fn round_to_single(value: nat) -> nat {
    let unit: nat = if value < pow2(38) {
        pow2(14)
    } else {
        pow2(15)
    };
    round_half_even(value, unit) * unit
}

/// The PCM magnitude of a float whose bit pattern, without the sign bit, is
/// `magnitude`.
///
/// A not-a-number pattern is silent and everything from 1.0 up is the peak. A
/// smaller normal number is `m * 2^(e - 150)` for a 24-bit `m`: it is scaled by
/// the peak with single-precision rounding and cut off after the integer part.
/// Subnormal numbers are far below one PCM step.
pub open spec fn pcm_magnitude(magnitude: nat) -> nat {
    let exponent = magnitude / pow2(23);
    let fraction = magnitude % pow2(23);
    if exponent == 255 && fraction != 0 {
        0
    } else if exponent >= 127 {
        PCM_PEAK as nat
    } else if exponent == 0 {
        0
    } else {
        round_to_single((pow2(23) + fraction) * PCM_PEAK as nat) / pow2((150 - exponent) as nat)
    }
}

/// The PCM sample of the float with bit pattern `bits`.
pub open spec fn pcm_sample(bits: u32) -> int {
    if bits < 0x8000_0000 {
        pcm_magnitude(bits as nat) as int
    } else {
        -(pcm_magnitude((bits - 0x8000_0000) as nat) as int)
    }
}

/// The little-endian 32-bit word at byte `at`.
pub open spec fn word_at(bytes: Seq<u8>, at: int) -> u32 {
    (bytes[at] + 0x100 * bytes[at + 1] + 0x1_0000 * bytes[at + 2] + 0x100_0000 * bytes[at + 3])
        as u32
}

/// The low byte of the two's complement form of a 16-bit `sample`.
pub open spec fn low_byte(sample: int) -> u8 {
    (sample % 0x1_0000 % 0x100) as u8
}

/// The high byte of the two's complement form of a 16-bit `sample`.
pub open spec fn high_byte(sample: int) -> u8 {
    (sample % 0x1_0000 / 0x100) as u8
}

/// The PCM bytes of a frame of little-endian floats. Bytes beyond the last
/// whole float are left out.
pub open spec fn pcm_bytes(bytes: Seq<u8>) -> Seq<u8> {
    Seq::new(
        (bytes.len() / 4) * 2,
        |i: int|
            {
                let sample = pcm_sample(word_at(bytes, (i / 2) * 4));
                if i % 2 == 0 {
                    low_byte(sample)
                } else {
                    high_byte(sample)
                }
            },
    )
}

proof fn lemma_powers()
    ensures
        pow2(14) == 0x4000,
        pow2(15) == 0x8000,
        pow2(23) == 0x80_0000,
        pow2(24) == 0x100_0000,
        pow2(38) == 0x40_0000_0000,
        pow2(39) == 0x80_0000_0000,
        pow2(40) == 0x100_0000_0000,
{
    lemma2_to64();
    lemma_pow2_adds(23, 15);
    lemma_pow2_adds(24, 15);
    lemma_pow2_adds(24, 16);
}

/// Rounding the scaled magnitude of a number below 1.0 does not carry past the
/// peak.
proof fn lemma_rounded_bounds(product: nat)
    requires
        product <= 0xff_ffff * 32767,
    ensures
        round_to_single(product) <= 0x100_0000 * 32767,
{
    lemma_powers();
    if product < pow2(38) {
        assert(round_half_even(product, 0x4000) <= 0x100_0000);
        assert(round_to_single(product) == round_half_even(product, 0x4000) * 0x4000);
    } else {
        assert(round_half_even(product, 0x8000) <= 512 * 32767);
        assert(round_to_single(product) == round_half_even(product, 0x8000) * 0x8000);
    }
}

proof fn lemma_magnitude_bound(magnitude: nat)
    ensures
        pcm_magnitude(magnitude) <= PCM_PEAK,
{
    lemma_powers();
    let exponent = magnitude / pow2(23);
    let fraction = magnitude % pow2(23);
    if 0 < exponent < 127 {
        let product = (pow2(23) + fraction) * PCM_PEAK as nat;
        lemma_rounded_bounds(product);
        let places = (150 - exponent) as nat;
        if places > 24 {
            lemma_pow2_strictly_increases(24, places);
        }
        let rounded = round_to_single(product);
        let divisor = pow2(places);
        assert(rounded / divisor <= 32767) by (nonlinear_arith)
            requires
                divisor >= 0x100_0000,
                rounded <= 0x100_0000 * 32767,
        ;
    }
}

/// No sample, whatever its bit pattern, leaves the symmetric 16-bit range, and
/// flipping the sign of a sample flips the sign of its PCM value.
pub proof fn pcm_is_bounded_and_odd(bits: u32)
    ensures
        -(PCM_PEAK as int) <= pcm_sample(bits) <= PCM_PEAK,
        bits < 0x8000_0000 ==> pcm_sample((bits + 0x8000_0000) as u32) == -pcm_sample(bits),
        bits >= 0x8000_0000 ==> pcm_sample((bits - 0x8000_0000) as u32) == -pcm_sample(bits),
{
    if bits < 0x8000_0000 {
        lemma_magnitude_bound(bits as nat);
    } else {
        lemma_magnitude_bound((bits - 0x8000_0000) as nat);
    }
}

/// Whether a float bit pattern is not a number.
pub open spec fn is_nan(bits: u32) -> bool {
    bits % 0x8000_0000 > 0x7f80_0000
}

/// Where the number with bit pattern `bits` stands in the order of numbers: of
/// two patterns that are numbers, the one that stands lower is the smaller
/// number. Both zeros stand at 0.
pub open spec fn rank(bits: u32) -> int {
    if bits < 0x8000_0000 {
        bits as int
    } else {
        -(bits - 0x8000_0000)
    }
}

/// Scaling keeps the order of two numbers with one exponent.
proof fn lemma_rounding_keeps_order(smaller: nat, larger: nat)
    requires
        smaller <= larger <= 0xff_ffff * 32767,
    ensures
        round_to_single(smaller) <= round_to_single(larger),
{
    lemma_powers();
    let fine_small: nat = round_half_even(smaller, 0x4000);
    let fine_large: nat = round_half_even(larger, 0x4000);
    let coarse_small: nat = round_half_even(smaller, 0x8000);
    let coarse_large: nat = round_half_even(larger, 0x8000);
    if larger < pow2(38) {
        assert(fine_small <= fine_large);
        assert(round_to_single(smaller) == fine_small * 0x4000);
        assert(round_to_single(larger) == fine_large * 0x4000);
        assert(fine_small * 0x4000 <= fine_large * 0x4000);
    } else if smaller < pow2(38) {
        assert(fine_small <= 0x100_0000);
        assert(coarse_large >= 0x80_0000);
        assert(round_to_single(smaller) == fine_small * 0x4000);
        assert(round_to_single(larger) == coarse_large * 0x8000);
        assert(fine_small * 0x4000 <= coarse_large * 0x8000);
    } else {
        assert(coarse_small <= coarse_large);
        assert(round_to_single(smaller) == coarse_small * 0x8000);
        assert(round_to_single(larger) == coarse_large * 0x8000);
        assert(coarse_small * 0x8000 <= coarse_large * 0x8000);
    }
}

/// Of two magnitudes that are numbers the larger has no smaller PCM magnitude.
proof fn lemma_magnitude_keeps_order(smaller: nat, larger: nat)
    requires
        smaller <= larger <= 0x7f80_0000,
    ensures
        pcm_magnitude(smaller) <= pcm_magnitude(larger),
{
    lemma_powers();
    lemma_magnitude_bound(smaller);
    let low = smaller / pow2(23);
    let high = larger / pow2(23);
    assert(low <= high);
    if 0 < low && high < 127 {
        let small_product = (pow2(23) + smaller % pow2(23)) * PCM_PEAK as nat;
        let large_product = (pow2(23) + larger % pow2(23)) * PCM_PEAK as nat;
        let small_rounded = round_to_single(small_product);
        let large_rounded = round_to_single(large_product);
        let small_divisor = pow2((150 - low) as nat);
        let large_divisor = pow2((150 - high) as nat);
        lemma_pow2_pos((150 - high) as nat);
        if low == high {
            lemma_rounding_keeps_order(small_product, large_product);
            vstd::arithmetic::div_mod::lemma_div_is_ordered(
                small_rounded as int,
                large_rounded as int,
                large_divisor as int,
            );
        } else {
            let least = 0x80_0000 * PCM_PEAK as nat;
            lemma_rounded_bounds(small_product);
            lemma_rounding_keeps_order(least, large_product);
            assert(least == 0x80_0000 * 32767);
            assert(round_half_even(least, 0x4000) == 512 * 32767);
            assert(round_to_single(least) == round_half_even(least, 0x4000) * 0x4000);
            assert(round_to_single(least) == least);
            lemma_pow2_adds((150 - high) as nat, 1);
            if low + 1 < high {
                lemma_pow2_strictly_increases((151 - high) as nat, (150 - low) as nat);
            }
            assert(pow2(1) == 2) by {
                lemma2_to64();
            }
            assert(small_divisor >= 2 * large_divisor);
            assert(small_rounded <= 2 * large_rounded);
            let doubled: int = 2 * large_rounded as int;
            vstd::arithmetic::div_mod::lemma_div_is_ordered(
                small_rounded as int,
                doubled,
                small_divisor as int,
            );
            vstd::arithmetic::div_mod::lemma_div_is_ordered_by_denominator(
                doubled,
                2 * large_divisor as int,
                small_divisor as int,
            );
            vstd::arithmetic::div_mod::lemma_div_denominator(doubled, 2, large_divisor as int);
        }
    }
}

/// Conversion keeps the order of samples: of two samples that are numbers, the
/// larger never has the smaller PCM value.
pub proof fn pcm_keeps_order(x: u32, y: u32)
    requires
        !is_nan(x),
        !is_nan(y),
        rank(x) <= rank(y),
    ensures
        pcm_sample(x) <= pcm_sample(y),
{
    if x < 0x8000_0000 {
        if y < 0x8000_0000 {
            lemma_magnitude_keeps_order(x as nat, y as nat);
        } else {
            lemma_powers();
        }
    } else if y >= 0x8000_0000 {
        lemma_magnitude_keeps_order((y - 0x8000_0000) as nat, (x - 0x8000_0000) as nat);
    }
}

/// Frames convert independently: splitting a stream between two floats does
/// not change the PCM bytes it gives.
pub proof fn pcm_of_joined_frames(first: Seq<u8>, second: Seq<u8>)
    requires
        first.len() % 4 == 0,
    ensures
        pcm_bytes(first + second) == pcm_bytes(first) + pcm_bytes(second),
{
    let joined = first + second;
    let split = pcm_bytes(first).len();
    assert(split == first.len() / 2);
    assert forall|i: int| 0 <= i < pcm_bytes(joined).len() implies #[trigger] pcm_bytes(joined)[i]
        == (pcm_bytes(first) + pcm_bytes(second))[i] by {
        if i < split {
            assert(word_at(joined, (i / 2) * 4) == word_at(first, (i / 2) * 4));
        } else {
            let j = i - split;
            assert((i / 2) * 4 == first.len() + (j / 2) * 4);
            assert(word_at(joined, (i / 2) * 4) == word_at(second, (j / 2) * 4));
        }
    }
    assert(pcm_bytes(joined) =~= pcm_bytes(first) + pcm_bytes(second));
}

/// The PCM magnitude of a sign-less float bit pattern.
fn scale_magnitude(magnitude: u32) -> (pcm: u32)
    requires
        magnitude < 0x8000_0000,
    ensures
        pcm == pcm_magnitude(magnitude as nat),
        pcm <= PCM_PEAK,
{
    proof {
        lemma_powers();
    }
    let exponent: u32 = magnitude / 0x80_0000;
    let fraction: u32 = magnitude % 0x80_0000;
    if exponent == 255 && fraction != 0 {
        return 0;
    }
    if exponent >= 127 {
        return PCM_PEAK;
    }
    if exponent == 0 {
        return 0;
    }
    let product: u64 = (0x80_0000 + fraction as u64) * 32767;
    let unit: u64 = if product < 0x40_0000_0000 {
        0x4000
    } else {
        0x8000
    };
    let quotient: u64 = product / unit;
    let rest: u64 = product % unit;
    let steps: u64 = if 2 * rest < unit || (2 * rest == unit && quotient % 2 == 0) {
        quotient
    } else {
        quotient + 1
    };
    let ghost places = (150 - exponent) as nat;
    proof {
        lemma_rounded_bounds(product as nat);
        assert(steps == round_half_even(product as nat, unit as nat));
        assert(steps * unit == round_to_single(product as nat));
    }
    let rounded: u64 = steps * unit;
    if exponent <= 110 {
        proof {
            if places > 40 {
                lemma_pow2_strictly_increases(40, places);
            }
            lemma_pow2_pos(places);
            vstd::arithmetic::div_mod::lemma_basic_div(rounded as int, pow2(places) as int);
        }
        return 0;
    }
    let divisor: u64 = power_of_two(150 - exponent);
    proof {
        if places > 24 {
            lemma_pow2_strictly_increases(24, places);
        }
    }
    let pcm: u64 = rounded / divisor;
    proof {
        assert(pcm <= 32767) by (nonlinear_arith)
            requires
                pcm == rounded / divisor,
                divisor >= 0x100_0000,
                rounded <= 0x100_0000 * 32767,
        ;
    }
    pcm as u32
}

/// `2^exponent` for the divisors that leave a whole PCM step.
fn power_of_two(exponent: u32) -> (power: u64)
    requires
        exponent < 64,
    ensures
        power == pow2(exponent as nat),
{
    let mut power: u64 = 1;
    let mut done: u32 = 0;
    proof {
        lemma2_to64();
    }
    while done < exponent
        invariant
            done <= exponent < 64,
            power == pow2(done as nat),
        decreases exponent - done,
    {
        proof {
            lemma_pow2_adds(done as nat, 1);
            lemma2_to64();
            if done + 1 < 64 {
                lemma_pow2_strictly_increases((done + 1) as nat, 64);
            }
        }
        power = power * 2;
        done = done + 1;
    }
    power
}

/// The PCM sample of the float with bit pattern `bits`.
fn convert_sample(bits: u32) -> (sample: i16)
    ensures
        sample == pcm_sample(bits),
{
    if bits < 0x8000_0000 {
        scale_magnitude(bits) as i16
    } else {
        -(scale_magnitude(bits - 0x8000_0000) as i16)
    }
}

/// Converts a frame of little-endian 32-bit floats to little-endian 16-bit PCM.
///
/// Each sample is limited to the range from -1.0 to 1.0 and scaled to the peak;
/// a trailing partial float is dropped.
pub fn float32_to_pcm16(float32_bytes: &[u8]) -> (pcm: Vec<u8>)
    ensures
        pcm@ == pcm_bytes(float32_bytes@),
{
    let length: usize = float32_bytes.len();
    let num_floats: usize = length / 4;
    let mut pcm: Vec<u8> = Vec::with_capacity(num_floats * 2);
    for i in 0..num_floats
        invariant
            length == float32_bytes@.len(),
            num_floats == length / 4,
            pcm@.len() == 2 * i,
            pcm@ == pcm_bytes(float32_bytes@).take(2 * i),
    {
        let offset: usize = i * 4;
        let bits: u32 = float32_bytes[offset] as u32 + 0x100 * (float32_bytes[offset + 1] as u32)
            + 0x1_0000 * (float32_bytes[offset + 2] as u32) + 0x100_0000 * (float32_bytes[offset
            + 3] as u32);
        let sample: i16 = convert_sample(bits);
        let word: u16 = if sample < 0 {
            (sample as i32 + 0x1_0000) as u16
        } else {
            sample as u16
        };
        proof {
            assert(bits == word_at(float32_bytes@, (2 * i / 2) * 4));
            assert(bits == word_at(float32_bytes@, ((2 * i + 1) / 2) * 4));
            assert(word == pcm_sample(bits) % 0x1_0000);
        }
        pcm.push((word % 0x100) as u8);
        pcm.push((word / 0x100) as u8);
        assert(pcm@ == pcm_bytes(float32_bytes@).take(2 * (i + 1)));
    }
    assert(pcm_bytes(float32_bytes@).take(2 * num_floats as int) == pcm_bytes(float32_bytes@));
    pcm
}

/// A number below 1.0 is `m * 2^(e - 150)` for its 24-bit `m`. Its PCM magnitude is
/// the whole part of that times the peak, up to a thousandth of one PCM step.
pub proof fn pcm_is_the_scaled_sample(exponent: nat, fraction: nat)
    requires
        0 < exponent < 127,
        fraction < 0x80_0000,
    ensures
        ({
            let scaled = (0x80_0000 + fraction) * 32767;
            let step = pow2((150 - exponent) as nat);
            let pcm = pcm_magnitude(exponent * 0x80_0000 + fraction);
            &&& pcm * step <= scaled + 0x4000
            &&& scaled < (pcm + 1) * step + 0x4000
            &&& step >= 1024 * 0x4000
        }),
{
    lemma_powers();
    let magnitude: nat = exponent * 0x80_0000 + fraction;
    assert(magnitude / 0x80_0000 == exponent && magnitude % 0x80_0000 == fraction);
    let scaled: nat = (0x80_0000 + fraction) * 32767;
    let places: nat = (150 - exponent) as nat;
    let step: nat = pow2(places);
    let rounded: nat = round_to_single(scaled);
    let fine: nat = round_half_even(scaled, 0x4000);
    let coarse: nat = round_half_even(scaled, 0x8000);
    if scaled < pow2(38) {
        assert(rounded == fine * 0x4000);
        assert(scaled - 0x2000 <= fine * 0x4000 <= scaled + 0x2000);
    } else {
        assert(rounded == coarse * 0x8000);
        assert(scaled - 0x4000 <= coarse * 0x8000 <= scaled + 0x4000);
    }
    if places > 24 {
        lemma_pow2_strictly_increases(24, places);
    }
    let pcm: nat = pcm_magnitude(magnitude);
    assert(pcm == rounded / step);
    vstd::arithmetic::div_mod::lemma_fundamental_div_mod(rounded as int, step as int);
    vstd::arithmetic::div_mod::lemma_mod_bound(rounded as int, step as int);
    assert(pcm * step <= rounded < (pcm + 1) * step) by (nonlinear_arith)
        requires
            rounded == step * pcm + rounded % step,
            0 <= rounded % step < step,
    ;
}

/// What is no such number has a fixed PCM magnitude: the peak from 1.0 up, and
/// silence for zero, subnormal numbers and patterns that are not numbers.
pub proof fn pcm_beyond_the_scale(magnitude: nat)
    requires
        magnitude < 0x8000_0000,
    ensures
        0x3f80_0000 <= magnitude <= 0x7f80_0000 ==> pcm_magnitude(magnitude) == 32767,
        magnitude > 0x7f80_0000 ==> pcm_magnitude(magnitude) == 0,
        magnitude < 0x80_0000 ==> pcm_magnitude(magnitude) == 0,
{
    lemma_powers();
}

/// The PCM bytes hold, in order and little-endian, the sample of each whole float
/// of the frame, and nothing else.
pub proof fn pcm_bytes_hold_the_samples(bytes: Seq<u8>, k: int)
    requires
        0 <= k < bytes.len() / 4,
    ensures
        pcm_bytes(bytes).len() == 2 * (bytes.len() / 4),
        ({
            let bits = bytes[4 * k] + 0x100 * bytes[4 * k + 1] + 0x1_0000 * bytes[4 * k + 2]
                + 0x100_0000 * bytes[4 * k + 3];
            let sample = pcm_sample(bits as u32);
            pcm_bytes(bytes)[2 * k] + 0x100 * pcm_bytes(bytes)[2 * k + 1] == if sample >= 0 {
                sample
            } else {
                sample + 0x1_0000
            }
        }),
{
    let bits = word_at(bytes, 4 * k);
    let sample = pcm_sample(bits);
    pcm_is_bounded_and_odd(bits);
    assert((2 * k / 2) * 4 == 4 * k && ((2 * k + 1) / 2) * 4 == 4 * k);
    assert(pcm_bytes(bytes)[2 * k] == low_byte(sample));
    assert(pcm_bytes(bytes)[2 * k + 1] == high_byte(sample));
}

} // verus!
