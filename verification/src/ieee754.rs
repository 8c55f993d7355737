//! Bit-level model of the two binary floating-point formats that decoded samples
//! come in, and the two conversions that normalisation needs.
//!
//! A sample is held by its bit pattern: 32 bits for single precision, 16 bits for
//! half precision. A finite pattern stands for the number
//! `significand * 2^scale`, negated where the sign bit is set.

use vstd::arithmetic::div_mod::{
    lemma_basic_div, lemma_div_denominator, lemma_div_is_ordered,
    lemma_div_is_ordered_by_denominator, lemma_fundamental_div_mod,
};
use vstd::arithmetic::power2::{
    lemma2_to64, lemma_pow2_adds, lemma_pow2_pos, lemma_pow2_strictly_increases,
    lemma_pow2_unfold, pow2,
};
use vstd::bits::lemma_u64_shr_is_div;
use vstd::prelude::*;

verus! {

/// Whether the sign bit of the single-precision pattern is set.
pub open spec fn single_sign(bits: u32) -> bool {
    bits >= 0x8000_0000
}

/// The eight-bit exponent field of the single-precision pattern.
pub open spec fn single_exponent_field(bits: u32) -> int {
    (bits as int / 0x80_0000) % 0x100
}

/// The 23-bit fraction field of the single-precision pattern.
pub open spec fn single_fraction(bits: u32) -> int {
    bits as int % 0x80_0000
}

/// Whether the single-precision pattern is a NaN.
pub open spec fn single_is_nan(bits: u32) -> bool {
    single_exponent_field(bits) == 0xff && single_fraction(bits) != 0
}

/// Whether the single-precision pattern is an infinity.
pub open spec fn single_is_infinite(bits: u32) -> bool {
    single_exponent_field(bits) == 0xff && single_fraction(bits) == 0
}

/// The significand of a finite single-precision pattern.
pub open spec fn single_significand(bits: u32) -> nat {
    if single_exponent_field(bits) == 0 {
        single_fraction(bits) as nat
    } else {
        (0x80_0000 + single_fraction(bits)) as nat
    }
}

/// The power of two that the significand of a finite single-precision pattern is
/// multiplied with.
pub open spec fn single_scale(bits: u32) -> int {
    if single_exponent_field(bits) == 0 {
        -149
    } else {
        single_exponent_field(bits) - 150
    }
}

/// The magnitude of a finite single-precision pattern, counted in units of `2^-149`.
pub open spec fn single_units(bits: u32) -> nat {
    single_significand(bits) * pow2((single_scale(bits) + 149) as nat)
}

/// Whether the sign bit of the half-precision pattern is set.
pub open spec fn half_sign(bits: u16) -> bool {
    bits >= 0x8000
}

/// The five-bit exponent field of the half-precision pattern.
pub open spec fn half_exponent_field(bits: u16) -> int {
    (bits as int / 0x400) % 0x20
}

/// The ten-bit fraction field of the half-precision pattern.
pub open spec fn half_fraction(bits: u16) -> int {
    bits as int % 0x400
}

/// Whether the half-precision pattern is a NaN.
pub open spec fn half_is_nan(bits: u16) -> bool {
    half_exponent_field(bits) == 0x1f && half_fraction(bits) != 0
}

/// Whether the half-precision pattern is an infinity.
pub open spec fn half_is_infinite(bits: u16) -> bool {
    half_exponent_field(bits) == 0x1f && half_fraction(bits) == 0
}

/// The significand of a finite half-precision pattern.
pub open spec fn half_significand(bits: u16) -> nat {
    if half_exponent_field(bits) == 0 {
        half_fraction(bits) as nat
    } else {
        (0x400 + half_fraction(bits)) as nat
    }
}

/// The power of two that the significand of a finite half-precision pattern is
/// multiplied with.
pub open spec fn half_scale(bits: u16) -> int {
    if half_exponent_field(bits) == 0 {
        -24
    } else {
        half_exponent_field(bits) - 25
    }
}

/// The magnitude of a finite half-precision pattern, counted in units of `2^-149`.
pub open spec fn half_units(bits: u16) -> nat {
    half_significand(bits) * pow2((half_scale(bits) + 149) as nat)
}

/// The position of the highest set bit of `n`; 0 for `n` below 2.
pub open spec fn floor_log2(n: nat) -> nat
    decreases n,
{
    if n <= 1 {
        0
    } else {
        1 + floor_log2(n / 2)
    }
}

/// The single-precision pattern of the number that the half-precision pattern `bits`
/// stands for.
///
/// Zeros and infinities keep their sign. A NaN keeps its sign and its payload, moved
/// to the top of the wider fraction, and comes out quiet. A subnormal half-precision
/// number is a normal single-precision one.
pub open spec fn widen_half(bits: u16) -> u32 {
    let sign: int = if half_sign(bits) {
        0x8000_0000
    } else {
        0
    };
    let exponent = half_exponent_field(bits);
    let fraction = half_fraction(bits);
    let rest: int = if exponent == 0x1f {
        if fraction == 0 {
            0x7f80_0000
        } else if fraction >= 0x200 {
            0x7f80_0000 + fraction * 0x2000
        } else {
            0x7fc0_0000 + fraction * 0x2000
        }
    } else if exponent != 0 {
        (exponent + 112) * 0x80_0000 + fraction * 0x2000
    } else if fraction == 0 {
        0
    } else {
        let top = floor_log2(fraction as nat);
        (103 + top) * 0x80_0000 + (fraction * pow2((23 - top) as nat) - 0x80_0000)
    };
    (sign + rest) as u32
}

/// Doubling a positive number moves its highest set bit up by one.
proof fn lemma_floor_log2_double(n: nat)
    requires
        n >= 1,
    ensures
        floor_log2(2 * n) == floor_log2(n) + 1,
{
    assert((2 * n) / 2 == n);
}

/// A number of eleven bits has its highest set bit at position 10.
proof fn lemma_floor_log2_eleven_bits(n: nat)
    requires
        0x400 <= n < 0x800,
    ensures
        floor_log2(n) == 10,
{
    reveal_with_fuel(floor_log2, 12);
}

/// Widens a half-precision sample to single precision.
pub fn half_to_single(bits: u16) -> (wide: u32)
    ensures
        wide == widen_half(bits),
{
    let sign: u32 = if bits >= 0x8000 {
        0x8000_0000
    } else {
        0
    };
    let exponent: u32 = (bits as u32 / 0x400) % 0x20;
    let fraction: u32 = bits as u32 % 0x400;
    if exponent == 0x1f {
        if fraction == 0 {
            sign + 0x7f80_0000
        } else if fraction >= 0x200 {
            sign + 0x7f80_0000 + fraction * 0x2000
        } else {
            sign + 0x7fc0_0000 + fraction * 0x2000
        }
    } else if exponent != 0 {
        sign + (exponent + 112) * 0x80_0000 + fraction * 0x2000
    } else if fraction == 0 {
        sign
    } else {
        let mut significand: u32 = fraction;
        let mut shift: u32 = 0;
        proof {
            lemma2_to64();
            assert(fraction * 1 == fraction);
        }
        while significand < 0x400
            invariant
                1 <= fraction < 0x400,
                fraction <= significand < 0x800,
                shift <= 10,
                significand == fraction * pow2(shift as nat),
                floor_log2(significand as nat) == floor_log2(fraction as nat) + shift,
            decreases 0x800 - significand,
        {
            proof {
                lemma2_to64();
                lemma_floor_log2_double(significand as nat);
                lemma_pow2_unfold((shift + 1) as nat);
                assert(fraction * (2 * pow2(shift as nat)) == 2 * (fraction * pow2(shift as nat)))
                    by (nonlinear_arith);
                if shift == 10 {
                    assert(fraction * pow2(10) >= 0x400) by (nonlinear_arith)
                        requires
                            fraction >= 1,
                            pow2(10) == 0x400,
                    ;
                }
            }
            significand = significand * 2;
            shift = shift + 1;
        }
        proof {
            lemma2_to64();
            lemma_floor_log2_eleven_bits(significand as nat);
            let top = floor_log2(fraction as nat);
            lemma_pow2_adds(shift as nat, 13);
            assert(fraction * pow2((23 - top) as nat) == significand * 0x2000) by (nonlinear_arith)
                requires
                    significand == fraction * pow2(shift as nat),
                    pow2((23 - top) as nat) == pow2(shift as nat) * 0x2000,
            ;
        }
        sign + (113 - shift) * 0x80_0000 + (significand - 0x400) * 0x2000
    }
}

/// The fields of a single-precision pattern that is put together from its parts.
proof fn lemma_single_fields(sign: int, exponent: int, fraction: int)
    requires
        sign == 0 || sign == 0x8000_0000,
        0 <= exponent < 0x100,
        0 <= fraction < 0x80_0000,
    ensures
        0 <= sign + exponent * 0x80_0000 + fraction <= u32::MAX,
        single_sign((sign + exponent * 0x80_0000 + fraction) as u32) == (sign != 0),
        single_exponent_field((sign + exponent * 0x80_0000 + fraction) as u32) == exponent,
        single_fraction((sign + exponent * 0x80_0000 + fraction) as u32) == fraction,
{
}

/// The highest set bit of a positive number below 1024 lies below position 10, and
/// the number lies between the power of two at that position and the next one.
proof fn lemma_floor_log2_bounds(n: nat)
    requires
        1 <= n < 0x400,
    ensures
        floor_log2(n) <= 9,
        pow2(floor_log2(n)) <= n < 2 * pow2(floor_log2(n)),
    decreases n,
{
    lemma2_to64();
    if n > 1 {
        lemma_floor_log2_bounds(n / 2);
        lemma_pow2_unfold(floor_log2(n));
    }
}

/// Widening keeps the sign, the class and the magnitude of a half-precision pattern.
pub proof fn widen_half_keeps_value(bits: u16)
    ensures
        single_sign(widen_half(bits)) == half_sign(bits),
        single_is_nan(widen_half(bits)) == half_is_nan(bits),
        single_is_infinite(widen_half(bits)) == half_is_infinite(bits),
        !half_is_nan(bits) && !half_is_infinite(bits) ==> single_units(widen_half(bits))
            == half_units(bits),
{
    lemma2_to64();
    let sign: int = if half_sign(bits) {
        0x8000_0000
    } else {
        0
    };
    let exponent = half_exponent_field(bits);
    let fraction = half_fraction(bits);
    if exponent == 0x1f {
        if fraction == 0 {
            lemma_single_fields(sign, 0xff, 0);
        } else if fraction >= 0x200 {
            lemma_single_fields(sign, 0xff, fraction * 0x2000);
        } else {
            lemma_single_fields(sign, 0xff, 0x40_0000 + fraction * 0x2000);
        }
    } else if exponent != 0 {
        lemma_single_fields(sign, exponent + 112, fraction * 0x2000);
        let wide = widen_half(bits);
        assert(single_significand(wide) == half_significand(bits) * 0x2000);
        assert(single_scale(wide) + 149 == exponent + 111);
        lemma_pow2_adds(13, (exponent + 111) as nat);
        assert(half_significand(bits) * 0x2000 * pow2((exponent + 111) as nat)
            == half_significand(bits) * (0x2000 * pow2((exponent + 111) as nat)))
            by (nonlinear_arith);
    } else if fraction == 0 {
        lemma_single_fields(sign, 0, 0);
        assert(0 * pow2(0) == 0);
        assert(0 * pow2(125) == 0);
    } else {
        let top = floor_log2(fraction as nat);
        lemma_floor_log2_bounds(fraction as nat);
        let lift = pow2((23 - top) as nat);
        lemma_pow2_adds(top, (23 - top) as nat);
        assert(pow2(top) * lift == 0x80_0000);
        assert(0x80_0000 <= fraction * lift < 0x100_0000) by (nonlinear_arith)
            requires
                pow2(top) <= fraction < 2 * pow2(top),
                pow2(top) * lift == 0x80_0000,
                lift > 0,
        ;
        lemma_single_fields(sign, (103 + top) as int, fraction * lift - 0x80_0000);
        let wide = widen_half(bits);
        assert(wide == sign + (103 + top) * 0x80_0000 + (fraction * lift - 0x80_0000));
        assert(single_significand(wide) == fraction * lift);
        assert(single_scale(wide) + 149 == 102 + top);
        lemma_pow2_adds((23 - top) as nat, (102 + top) as nat);
        assert(fraction * lift * pow2((102 + top) as nat) == fraction * (lift * pow2(
            (102 + top) as nat,
        ))) by (nonlinear_arith);
    }
}

/// The number of low bits that a product must give up to fit a significand of 24 bits.
pub open spec fn excess_bits(n: nat) -> nat
    decreases n,
{
    if n < 0x100_0000 {
        0
    } else {
        1 + excess_bits(n / 2)
    }
}

/// `n / 2^shift`, rounded to the nearest whole number, and to the even one where two
/// are equally near.
pub open spec fn round_half_even(n: nat, shift: nat) -> nat {
    let unit = pow2(shift);
    let quotient = n / unit;
    let rest = n % unit;
    if 2 * rest > unit || (2 * rest == unit && quotient % 2 == 1) {
        quotient + 1
    } else {
        quotient
    }
}

/// The whole part of the single-precision product of 255 and the number
/// `significand * 2^scale`.
///
/// The exact product is rounded to a significand of 24 bits, to nearest and ties to
/// even, as a single-precision multiplication rounds it. What lies behind the binary
/// point of the rounded product is dropped.
pub open spec fn scaled_whole(significand: nat, scale: int) -> nat {
    let product = 255 * significand;
    let shift = excess_bits(product);
    let rounded = round_half_even(product, shift);
    let exponent = scale + shift;
    if exponent >= 0 {
        rounded * pow2(exponent as nat)
    } else {
        rounded / pow2((-exponent) as nat)
    }
}

/// A whole number, limited to the range of a byte.
pub open spec fn limited(whole: nat) -> u8 {
    if whole >= 255 {
        255
    } else {
        whole as u8
    }
}

/// The byte that a single-precision sample is cast down to: the sample times 255 in
/// single precision, without what lies behind the binary point, and limited to the
/// range of a byte. A NaN and a negative sample give 0.
pub open spec fn scaled_byte(bits: u32) -> u8 {
    if single_sign(bits) || single_is_nan(bits) {
        0
    } else if single_is_infinite(bits) {
        255
    } else {
        limited(scaled_whole(single_significand(bits), single_scale(bits)))
    }
}

/// Casts a single-precision sample down to a byte.
pub fn scale_to_byte(bits: u32) -> (byte: u8)
    ensures
        byte == scaled_byte(bits),
{
    if bits >= 0x8000_0000 {
        return 0;
    }
    let exponent: u32 = bits / 0x80_0000;
    let fraction: u32 = bits % 0x80_0000;
    if exponent == 0xff {
        return if fraction == 0 {
            255
        } else {
            0
        };
    }
    let significand: u32 = if exponent == 0 {
        fraction
    } else {
        0x80_0000 + fraction
    };
    let lifted_scale: u32 = if exponent == 0 {
        1
    } else {
        exponent
    };
    let product: u64 = 255 * (significand as u64);
    let mut quotient: u64 = product;
    let mut unit: u64 = 1;
    let mut shift: u32 = 0;
    proof {
        lemma2_to64();
    }
    while quotient >= 0x100_0000
        invariant
            product < 0x1_0000_0000,
            shift <= 8,
            unit == pow2(shift as nat),
            1 <= unit <= 256,
            quotient == product / unit,
            unit * quotient <= product,
            product >= 0x80_0000 ==> quotient >= 0x80_0000,
            excess_bits(product as nat) == shift + excess_bits(quotient as nat),
        decreases quotient,
    {
        proof {
            lemma2_to64();
            lemma_pow2_unfold((shift + 1) as nat);
            lemma_div_denominator(product as int, unit as int, 2);
            assert(unit * 2 * (quotient / 2) <= unit * quotient) by (nonlinear_arith)
                requires
                    unit >= 0,
                    quotient >= 0,
            ;
            if shift == 8 {
                assert(unit * quotient >= 0x1_0000_0000) by (nonlinear_arith)
                    requires
                        unit == 256,
                        quotient >= 0x100_0000,
                ;
            }
        }
        quotient = quotient / 2;
        unit = unit * 2;
        shift = shift + 1;
    }
    let rest: u64 = product - unit * quotient;
    let rounded: u64 = if 2 * rest > unit || (2 * rest == unit && quotient % 2 == 1) {
        quotient + 1
    } else {
        quotient
    };
    proof {
        lemma_fundamental_div_mod(product as int, unit as int);
    }
    if lifted_scale + shift >= 150 {
        proof {
            let up = (lifted_scale + shift - 150) as nat;
            lemma_pow2_pos(up);
            assert(rounded * pow2(up) >= 255) by (nonlinear_arith)
                requires
                    rounded >= 255,
                    pow2(up) >= 1,
            ;
        }
        return 255;
    }
    let down: u32 = 150 - (lifted_scale + shift);
    if down >= 25 {
        proof {
            lemma2_to64();
            if down > 25 {
                lemma_pow2_strictly_increases(25, down as nat);
            }
            lemma_basic_div(rounded as int, pow2(down as nat) as int);
        }
        return 0;
    }
    let mut whole: u64 = rounded;
    let mut done: u32 = 0;
    while done < down
        invariant
            done <= down,
            whole == rounded as nat / pow2(done as nat),
        decreases down - done,
    {
        proof {
            lemma_pow2_pos(done as nat);
            lemma_pow2_unfold((done + 1) as nat);
            lemma_div_denominator(rounded as int, pow2(done as nat) as int, 2);
        }
        whole = whole / 2;
        done = done + 1;
    }
    if whole >= 255 {
        255
    } else {
        whole as u8
    }
}

/// For a product of 31 bits, rounding it to 24 bits does not change its whole part
/// below 255.
proof fn lemma_rounding_is_idle_31(sig: u64, t: u64)
    by (bit_vector)
    requires
        0x80_0000 <= sig < 0x100_0000,
        255 * sig < 0x8000_0000,
        16 <= t <= 24,
    ensures
        ({
            let n: u64 = (255 * sig) as u64;
            let q: u64 = n / 128;
            let r: u64 = n % 128;
            let m: u64 = if r > 64 || (r == 64 && q % 2 == 1) {
                (q + 1) as u64
            } else {
                q
            };
            (m >> t >= 255 && n >> ((t + 7) as u64) >= 255) || m >> t == n >> ((t + 7) as u64)
        }),
{
}

/// For a product of 32 bits, rounding it to 24 bits does not change its whole part
/// below 255.
proof fn lemma_rounding_is_idle_32(sig: u64, t: u64)
    by (bit_vector)
    requires
        0x80_0000 <= sig < 0x100_0000,
        255 * sig >= 0x8000_0000,
        16 <= t <= 24,
    ensures
        ({
            let n: u64 = (255 * sig) as u64;
            let q: u64 = n / 256;
            let r: u64 = n % 256;
            let m: u64 = if r > 128 || (r == 128 && q % 2 == 1) {
                (q + 1) as u64
            } else {
                q
            };
            (m >> t >= 255 && n >> ((t + 8) as u64) >= 255) || m >> t == n >> ((t + 8) as u64)
        }),
{
}

/// A number of `24 + k` bits has `k` bits too many for a significand.
proof fn lemma_excess_bits_of_range(n: nat, k: nat)
    requires
        pow2(23 + k) <= n < pow2(24 + k),
    ensures
        excess_bits(n) == k,
    decreases k,
{
    lemma2_to64();
    if k == 0 {
    } else {
        lemma_pow2_unfold(23 + k);
        lemma_pow2_unfold(24 + k);
        if k > 1 {
            lemma_pow2_strictly_increases(24, 23 + k);
        }
        lemma_excess_bits_of_range(n / 2, (k - 1) as nat);
    }
}

/// A product of fewer than 32 bits has at most seven bits too many.
proof fn lemma_small_excess(n: nat)
    requires
        0x100_0000 <= n < 0x8000_0000,
    ensures
        1 <= excess_bits(n) <= 7,
{
    reveal_with_fuel(excess_bits, 9);
}

/// The whole part of the exact product of 255 and the number `significand * 2^scale`.
pub open spec fn exact_whole(significand: nat, scale: int) -> nat {
    if scale >= 0 {
        255 * significand * pow2(scale as nat)
    } else {
        (255 * significand) / pow2((-scale) as nat)
    }
}

/// The byte of a sample that is neither negative nor a NaN nor an infinity is the
/// whole part of 255 times the sample, limited to 255: the rounding of the
/// single-precision product never reaches the next whole number.
pub proof fn scaled_byte_cuts_exact_product(bits: u32)
    requires
        !single_sign(bits),
        !single_is_nan(bits),
        !single_is_infinite(bits),
    ensures
        scaled_byte(bits) == limited(exact_whole(single_significand(bits), single_scale(bits))),
{
    lemma2_to64();
    let sig = single_significand(bits);
    let scale = single_scale(bits);
    let n: nat = 255 * sig;
    let s = excess_bits(n);
    if single_exponent_field(bits) == 0 {
        // A subnormal sample: both products lie far below 1.
        assert(s <= 7) by {
            if n >= 0x100_0000 {
                lemma_small_excess(n);
            }
        }
        let m = round_half_even(n, s);
        lemma_pow2_pos(s);
        assert(m <= n + 1) by {
            lemma_div_is_ordered_by_denominator(n as int, 1, pow2(s) as int);
        }
        lemma_pow2_strictly_increases(32, (149 - s) as nat);
        lemma_pow2_strictly_increases(32, 149);
        lemma_basic_div(m as int, pow2((149 - s) as nat) as int);
        lemma_basic_div(n as int, pow2(149) as int);
    } else {
        if n < 0x8000_0000 {
            lemma_excess_bits_of_range(n, 7);
        } else {
            lemma_excess_bits_of_range(n, 8);
        }
        let unit = pow2(s);
        let q = n / unit;
        let m = round_half_even(n, s);
        let e = scale + s;
        if e >= 0 {
            lemma_pow2_pos(e as nat);
            assert(m * pow2(e as nat) >= 255) by (nonlinear_arith)
                requires
                    m >= 255,
                    pow2(e as nat) >= 1,
            ;
            if scale >= 0 {
                lemma_pow2_pos(scale as nat);
                assert(n * pow2(scale as nat) >= 255) by (nonlinear_arith)
                    requires
                        n >= 255,
                        pow2(scale as nat) >= 1,
                ;
            } else {
                let down = (-scale) as nat;
                lemma_pow2_pos(down);
                if down < 8 {
                    lemma_pow2_strictly_increases(down, 8);
                }
                lemma_div_is_ordered_by_denominator(n as int, pow2(down) as int, 256);
            }
        } else {
            let t = (-e) as nat;
            let down = (t + s) as nat;
            lemma_pow2_pos(t);
            lemma_pow2_pos(down);
            if t <= 15 {
                if t < 15 {
                    lemma_pow2_strictly_increases(t, 15);
                }
                lemma_div_is_ordered_by_denominator(m as int, pow2(t) as int, 0x8000);
                lemma_div_is_ordered(0x80_0000, m as int, 0x8000);
                if down < 23 {
                    lemma_pow2_strictly_increases(down, 23);
                }
                lemma_div_is_ordered_by_denominator(n as int, pow2(down) as int, 0x80_0000);
                lemma_div_is_ordered(0x7f80_0000, n as int, 0x80_0000);
            } else if t >= 25 {
                if t > 25 {
                    lemma_pow2_strictly_increases(25, t);
                }
                lemma_basic_div(m as int, pow2(t) as int);
                if down > 32 {
                    lemma_pow2_strictly_increases(32, down);
                }
                lemma_basic_div(n as int, pow2(down) as int);
            } else {
                // The one range in which the whole part can lie below 255 and above 0.
                lemma_u64_shr_is_div(m as u64, t as u64);
                lemma_u64_shr_is_div(n as u64, down as u64);
                if n < 0x8000_0000 {
                    lemma_rounding_is_idle_31(sig as u64, t as u64);
                } else {
                    lemma_rounding_is_idle_32(sig as u64, t as u64);
                }
            }
        }
    }
}

} // verus!
