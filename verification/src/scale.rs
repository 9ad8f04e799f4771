//! Display scale factors. A scale factor is held as the 32 bits of its single-precision
//! number, so that what is done with it can be stated over integers.

use vstd::arithmetic::power2::pow2;
use vstd::prelude::*;

verus! {

/// The bits of a number's exponent.
pub open spec fn exponent_bits(bits: u32) -> u32 {
    ((bits / 0x80_0000) % 0x100) as u32
}

/// The bits of a number's fraction.
pub open spec fn fraction_bits(bits: u32) -> u32 {
    (bits % 0x80_0000) as u32
}

/// Whether the sign bit is set.
pub open spec fn sign_bit(bits: u32) -> bool {
    bits >= 0x8000_0000
}

/// Whether the bits stand for no number.
pub open spec fn not_a_number(bits: u32) -> bool {
    exponent_bits(bits) == 0xff && fraction_bits(bits) != 0
}

/// Whether the bits stand for a finite number above zero.
pub open spec fn finite_and_positive(bits: u32) -> bool {
    0 < bits < 0x7f80_0000
}

/// Whether two numbers are equal: what is no number equals nothing, and the two zeros are
/// equal.
pub open spec fn equal_numbers(left: u32, right: u32) -> bool {
    &&& !not_a_number(left)
    &&& !not_a_number(right)
    &&& left == right || (left % 0x8000_0000 == 0 && right % 0x8000_0000 == 0)
}

/// The place of a number among all numbers: the two zeros stand at the same place.
pub open spec fn place(bits: u32) -> int {
    if sign_bit(bits) {
        0x8000_0000 - bits
    } else {
        bits as int
    }
}

/// Whether a number is below another: what is no number is below nothing, and nothing is
/// below it.
pub open spec fn below(left: u32, right: u32) -> bool {
    &&& !not_a_number(left)
    &&& !not_a_number(right)
    &&& place(left) < place(right)
}

/// Whether a number is below another.
pub fn is_below(left: u32, right: u32) -> (yes: bool)
    ensures
        yes == below(left, right),
{
    let left_is_none = (left / 0x80_0000) % 0x100 == 0xff && left % 0x80_0000 != 0;
    let right_is_none = (right / 0x80_0000) % 0x100 == 0xff && right % 0x80_0000 != 0;
    let left_place: i64 = if left >= 0x8000_0000 {
        0x8000_0000i64 - left as i64
    } else {
        left as i64
    };
    let right_place: i64 = if right >= 0x8000_0000 {
        0x8000_0000i64 - right as i64
    } else {
        right as i64
    };
    !left_is_none && !right_is_none && left_place < right_place
}

/// Whether the bits stand for no number.
pub fn is_no_number(bits: u32) -> (yes: bool)
    ensures
        yes == not_a_number(bits),
{
    (bits / 0x80_0000) % 0x100 == 0xff && bits % 0x80_0000 != 0
}

/// Whether the bits stand for a finite number.
pub open spec fn finite(bits: u32) -> bool {
    exponent_bits(bits) != 0xff
}

/// Whether the bits stand for a finite number.
pub fn is_finite(bits: u32) -> (yes: bool)
    ensures
        yes == finite(bits),
{
    (bits / 0x80_0000) % 0x100 != 0xff
}

/// Whether the bits stand for a finite number above zero.
pub fn is_finite_and_positive(bits: u32) -> (yes: bool)
    ensures
        yes == finite_and_positive(bits),
{
    0 < bits && bits < 0x7f80_0000
}

/// Whether two numbers are equal.
pub fn numbers_equal(left: u32, right: u32) -> (yes: bool)
    ensures
        yes == equal_numbers(left, right),
{
    let left_is_none = (left / 0x80_0000) % 0x100 == 0xff && left % 0x80_0000 != 0;
    let right_is_none = (right / 0x80_0000) % 0x100 == 0xff && right % 0x80_0000 != 0;
    !left_is_none && !right_is_none && (left == right || (left % 0x8000_0000 == 0 && right
        % 0x8000_0000 == 0))
}

/// A number is a significand times a power of two: the significand.
pub open spec fn significand(bits: u32) -> nat {
    if exponent_bits(bits) == 0 {
        fraction_bits(bits) as nat
    } else {
        (0x80_0000 + fraction_bits(bits)) as nat
    }
}

/// A number is a significand times a power of two: the power's exponent.
pub open spec fn binary_exponent(bits: u32) -> int {
    if exponent_bits(bits) == 0 {
        -149
    } else {
        exponent_bits(bits) - 150
    }
}

/// The multiple of `unit` nearest to `n`; of two that are as near, the even one.
pub open spec fn nearest_multiple(n: nat, unit: nat) -> nat {
    let quotient = n / unit;
    let rest = n % unit;
    if 2 * rest > unit || (2 * rest == unit && quotient % 2 == 1) {
        (quotient + 1) * unit
    } else {
        quotient * unit
    }
}

/// `n` rounded to the 53 significant bits of a double-precision number, for `n` of up to
/// 56 bits.
pub open spec fn double_precision(n: nat) -> nat {
    if n < 0x20_0000_0000_0000 {
        n
    } else if n < 0x40_0000_0000_0000 {
        nearest_multiple(n, 2)
    } else if n < 0x80_0000_0000_0000 {
        nearest_multiple(n, 4)
    } else {
        nearest_multiple(n, 8)
    }
}

/// `n` times two to the power `exponent`, rounded to a whole number, halves upward.
pub open spec fn scaled_whole(n: nat, exponent: int) -> nat {
    if exponent >= 0 {
        n * pow2(exponent as nat)
    } else {
        let unit = pow2((-exponent) as nat);
        (2 * n + unit) / (2 * unit)
    }
}

/// A length times a scale factor in double precision, rounded to a whole number of pixels
/// and held to what 32 bits hold. What is below zero, or is no number, gives none.
pub open spec fn scaled_length(length: u32, scale: u32) -> u32 {
    if sign_bit(scale) || not_a_number(scale) {
        0
    } else if exponent_bits(scale) == 0xff {
        if length == 0 {
            0
        } else {
            u32::MAX
        }
    } else {
        let whole = scaled_whole(
            double_precision((length * significand(scale)) as nat),
            binary_exponent(scale),
        );
        if whole > u32::MAX {
            u32::MAX
        } else {
            whole as u32
        }
    }
}

/// Whether a length times a scale factor is no number.
pub open spec fn scales_to_no_number(length: u32, scale: u32) -> bool {
    not_a_number(scale) || (exponent_bits(scale) == 0xff && length == 0)
}

fn to_nearest_multiple(n: u64, unit: u64) -> (multiple: u64)
    requires
        1 <= unit <= 8,
        n < 0x100_0000_0000_0000,
    ensures
        multiple == nearest_multiple(n as nat, unit as nat),
        multiple <= n + 8,
{
    let quotient: u64 = n / unit;
    let rest: u64 = n % unit;
    assert(quotient * unit + rest == n) by {
        vstd::arithmetic::div_mod::lemma_fundamental_div_mod(n as int, unit as int);
        assert(unit * quotient == quotient * unit) by (nonlinear_arith);
    }
    assert((quotient + 1) * unit == quotient * unit + unit) by (nonlinear_arith);
    if 2 * rest > unit || (2 * rest == unit && quotient % 2 == 1) {
        (quotient + 1) * unit
    } else {
        quotient * unit
    }
}

fn to_double_precision(n: u64) -> (rounded: u64)
    requires
        n < 0x100_0000_0000_0000,
    ensures
        rounded == double_precision(n as nat),
        rounded <= n + 8,
{
    if n < 0x20_0000_0000_0000 {
        n
    } else if n < 0x40_0000_0000_0000 {
        to_nearest_multiple(n, 2)
    } else if n < 0x80_0000_0000_0000 {
        to_nearest_multiple(n, 4)
    } else {
        to_nearest_multiple(n, 8)
    }
}

/// Two to the power `exponent`.
fn power_of_two(exponent: u32) -> (power: u128)
    requires
        exponent <= 64,
    ensures
        power == pow2(exponent as nat),
        1 <= power <= 0x1_0000_0000_0000_0000,
{
    let mut power: u128 = 1;
    let mut i: u32 = 0;
    proof {
        vstd::arithmetic::power2::lemma2_to64();
        vstd::arithmetic::power2::lemma2_to64_rest();
    }
    while i < exponent
        invariant
            i <= exponent <= 64,
            power == pow2(i as nat),
            1 <= power,
            pow2(64) == 0x1_0000_0000_0000_0000,
        decreases exponent - i,
    {
        proof {
            vstd::arithmetic::power2::lemma_pow2_unfold((i + 1) as nat);
            if i + 1 < 64 {
                vstd::arithmetic::power2::lemma_pow2_strictly_increases((i + 1) as nat, 64);
            }
        }
        power = power * 2;
        i = i + 1;
    }
    proof {
        if exponent < 64 {
            vstd::arithmetic::power2::lemma_pow2_strictly_increases(exponent as nat, 64);
        }
    }
    power
}

/// `scaled_whole`, held to what 32 bits hold.
fn to_scaled_whole(n: u64, exponent: i32) -> (whole: u32)
    requires
        n < 0x200_0000_0000_0000,
        -149 <= exponent <= 104,
    ensures
        whole == if scaled_whole(n as nat, exponent as int) > u32::MAX {
            u32::MAX
        } else {
            scaled_whole(n as nat, exponent as int) as u32
        },
{
    proof {
        vstd::arithmetic::power2::lemma2_to64();
        vstd::arithmetic::power2::lemma2_to64_rest();
    }
    if exponent >= 0 {
        if n == 0 {
            assert(0 * pow2(exponent as nat) == 0) by (nonlinear_arith);
            return 0;
        }
        if exponent >= 33 {
            proof {
                if exponent > 33 {
                    vstd::arithmetic::power2::lemma_pow2_strictly_increases(33, exponent as nat);
                }
                let power = pow2(exponent as nat);
                assert(n * power >= power) by (nonlinear_arith)
                    requires
                        n >= 1,
                        power >= 0,
                ;
            }
            return u32::MAX;
        }
        let power: u128 = power_of_two(exponent as u32);
        proof {
            if exponent < 33 {
                vstd::arithmetic::power2::lemma_pow2_strictly_increases(exponent as nat, 33);
            }
            assert(n as int * power as int <= 0x200_0000_0000_0000 * 0x2_0000_0000) by (nonlinear_arith)
                requires
                    0 <= n < 0x200_0000_0000_0000,
                    0 <= power <= 0x2_0000_0000,
            ;
        }
        let whole: u128 = n as u128 * power;
        if whole > u32::MAX as u128 {
            u32::MAX
        } else {
            whole as u32
        }
    } else {
        if exponent < -64 {
            proof {
                vstd::arithmetic::power2::lemma_pow2_strictly_increases(64, (-exponent) as nat);
                let unit = pow2((-exponent) as nat) as int;
                let twice = 2 * n as int;
                assert((twice + unit) / (2 * unit) == 0) by (nonlinear_arith)
                    requires
                        0 <= twice < unit,
                ;
            }
            return 0;
        }
        let unit: u128 = power_of_two((-exponent) as u32);
        let whole: u128 = (2 * n as u128 + unit) / (2 * unit);
        if whole > u32::MAX as u128 {
            u32::MAX
        } else {
            whole as u32
        }
    }
}

/// A length times a scale factor in double precision, rounded to a whole number of pixels
/// and held to what 32 bits hold.
pub fn scale_length(length: u32, scale: u32) -> (scaled: u32)
    ensures
        scaled == scaled_length(length, scale),
{
    let exponent: u32 = (scale / 0x80_0000) % 0x100;
    let fraction: u32 = scale % 0x80_0000;
    if scale >= 0x8000_0000 {
        return 0;
    }
    if exponent == 0xff {
        return if fraction != 0 || length == 0 {
            0
        } else {
            u32::MAX
        };
    }
    let significand: u64 = if exponent == 0 {
        fraction as u64
    } else {
        0x80_0000 + fraction as u64
    };
    let power: i32 = if exponent == 0 {
        -149
    } else {
        exponent as i32 - 150
    };
    proof {
        assert(length as int * significand as int <= 0xffff_ffff * 0xff_ffff) by (nonlinear_arith)
            requires
                0 <= length <= 0xffff_ffff,
                0 <= significand <= 0xff_ffff,
        ;
    }
    let product: u64 = length as u64 * significand;
    let rounded: u64 = to_double_precision(product);
    to_scaled_whole(rounded, power)
}

} // verus!
