//! Double-precision numbers, given by their bits.

use vstd::arithmetic::power2::pow2;
use vstd::prelude::*;

verus! {

/// The eleven exponent bits.
pub open spec fn exponent_field(bits: u64) -> int {
    bits as int / 0x10_0000_0000_0000 % 0x800
}

/// The fifty-two fraction bits.
pub open spec fn fraction_field(bits: u64) -> int {
    bits as int % 0x10_0000_0000_0000
}

/// The sign bit.
pub open spec fn is_negative(bits: u64) -> bool {
    bits >= 0x8000_0000_0000_0000
}

/// The number with these bits, cut off to a whole number and kept between 0 and 2^64 - 1. A
/// negative number and a not-a-number give 0, infinity gives the largest value. A number of
/// magnitude 1 or more is `(2^52 + fraction) * 2^(exponent - 1023) / 2^52`.
pub open spec fn whole_part(bits: u64) -> int {
    if is_negative(bits) || exponent_field(bits) < 1023 {
        0
    } else if exponent_field(bits) == 2047 {
        if fraction_field(bits) == 0 {
            u64::MAX as int
        } else {
            0
        }
    } else {
        let value = (0x10_0000_0000_0000 + fraction_field(bits)) * pow2(
            (exponent_field(bits) - 1023) as nat,
        ) / 0x10_0000_0000_0000;
        if value <= u64::MAX {
            value
        } else {
            u64::MAX as int
        }
    }
}

/// Cuts a double-precision number off to a whole number, as a cast to `u64` does.
pub fn truncate(bits: u64) -> (r: u64)
    ensures
        r == whole_part(bits),
{
    let exponent: u64 = bits / 0x10_0000_0000_0000 % 0x800;
    let fraction: u64 = bits % 0x10_0000_0000_0000;
    if bits >= 0x8000_0000_0000_0000 || exponent < 1023 {
        return 0;
    }
    if exponent == 2047 {
        return if fraction == 0 {
            u64::MAX
        } else {
            0
        };
    }
    let mantissa: u64 = 0x10_0000_0000_0000 + fraction;
    let power: u64 = exponent - 1023;
    if power <= 52 {
        let divisor: u64 = two_to(52 - power);
        proof {
            lemma_shift_right(mantissa as int, power as nat);
        }
        mantissa / divisor
    } else if power <= 63 {
        let factor: u64 = two_to(power - 52);
        proof {
            lemma_shift_left(mantissa as int, power as nat);
            vstd::arithmetic::power2::lemma2_to64();
            lemma_pow2_monotonic((power - 52) as nat, 11);
            assert(mantissa * factor <= 0x1f_ffff_ffff_ffff * 2048) by (nonlinear_arith)
                requires
                    0 <= mantissa <= 0x1f_ffff_ffff_ffff,
                    0 <= factor <= 2048,
            ;
        }
        mantissa * factor
    } else {
        proof {
            lemma_shift_left(mantissa as int, power as nat);
            vstd::arithmetic::power2::lemma2_to64();
            lemma_pow2_monotonic(12, (power - 52) as nat);
            let p = pow2((power - 52) as nat);
            assert(mantissa * p >= 0x10_0000_0000_0000 * 4096) by (nonlinear_arith)
                requires
                    mantissa >= 0x10_0000_0000_0000,
                    p >= 4096,
            ;
        }
        u64::MAX
    }
}

/// Two to a small power.
fn two_to(n: u64) -> (r: u64)
    requires
        n <= 52,
    ensures
        r == pow2(n as nat),
{
    let mut r: u64 = 1;
    let mut i: u64 = 0;
    proof {
        lemma_pow2_of_52();
    }
    while i < n
        invariant
            i <= n <= 52,
            r == pow2(i as nat),
            r <= pow2(52),
            pow2(52) == 0x10_0000_0000_0000,
        decreases n - i,
    {
        proof {
            vstd::arithmetic::power2::lemma_pow2_unfold((i + 1) as nat);
            lemma_pow2_monotonic((i + 1) as nat, 52);
        }
        r = r * 2;
        i = i + 1;
    }
    r
}

/// The weight of the lowest bit above the fraction.
proof fn lemma_pow2_of_52()
    ensures
        pow2(0) == 1,
        pow2(52) == 0x10_0000_0000_0000,
{
    vstd::arithmetic::power2::lemma2_to64();
    vstd::arithmetic::power2::lemma_pow2_adds(20, 32);
}

/// Powers of two grow with the exponent.
pub proof fn lemma_pow2_monotonic(a: nat, b: nat)
    requires
        a <= b,
    ensures
        pow2(a) <= pow2(b),
    decreases b - a,
{
    if a < b {
        lemma_pow2_monotonic(a, (b - 1) as nat);
        vstd::arithmetic::power2::lemma_pow2_unfold(b);
    }
}

/// For a small exponent the scaling is a division.
proof fn lemma_shift_right(mantissa: int, power: nat)
    requires
        0 <= mantissa,
        power <= 52,
    ensures
        pow2((52 - power) as nat) > 0,
        mantissa * pow2(power) / 0x10_0000_0000_0000 == mantissa / pow2((52 - power) as nat) as int,
{
    lemma_pow2_of_52();
    let p = pow2(power) as int;
    let q = pow2((52 - power) as nat) as int;
    vstd::arithmetic::power2::lemma_pow2_pos(power);
    vstd::arithmetic::power2::lemma_pow2_pos((52 - power) as nat);
    vstd::arithmetic::power2::lemma_pow2_adds((52 - power) as nat, power);
    assert(q * p == 0x10_0000_0000_0000);
    vstd::arithmetic::div_mod::lemma_div_denominator(mantissa * p, p, q);
    vstd::arithmetic::div_mod::lemma_div_by_multiple(mantissa, p);
    assert(p * q == q * p) by (nonlinear_arith);
}

/// For a large exponent the scaling is a multiplication.
proof fn lemma_shift_left(mantissa: int, power: nat)
    requires
        0 <= mantissa,
        power >= 52,
    ensures
        mantissa * pow2(power) / 0x10_0000_0000_0000 == mantissa * pow2((power - 52) as nat),
{
    lemma_pow2_of_52();
    let p = pow2((power - 52) as nat) as int;
    vstd::arithmetic::power2::lemma_pow2_pos((power - 52) as nat);
    assert(0 <= mantissa * p) by (nonlinear_arith)
        requires
            0 <= mantissa,
            0 <= p,
    ;
    vstd::arithmetic::power2::lemma_pow2_adds((power - 52) as nat, 52);
    assert(mantissa * (p * 0x10_0000_0000_0000) == (mantissa * p) * 0x10_0000_0000_0000)
        by (nonlinear_arith);
    vstd::arithmetic::div_mod::lemma_div_by_multiple(mantissa * p, 0x10_0000_0000_0000);
}

/// The whole part of a number fits 64 bits. For a number of magnitude 1 or more that fits, it is the
/// largest whole number that is not above it.
pub proof fn law_whole_part_is_the_floor(bits: u64)
    ensures
        0 <= whole_part(bits) <= u64::MAX,
        !is_negative(bits) && 1023 <= exponent_field(bits) < 1087 ==> {
            let scaled = (0x10_0000_0000_0000 + fraction_field(bits)) * pow2(
                (exponent_field(bits) - 1023) as nat,
            );
            whole_part(bits) * 0x10_0000_0000_0000 <= scaled < (whole_part(bits) + 1)
                * 0x10_0000_0000_0000
        },
{
    let power = (exponent_field(bits) - 1023) as nat;
    let mantissa = 0x10_0000_0000_0000 + fraction_field(bits);
    let p = pow2(power) as int;
    assert(0 <= mantissa * p) by (nonlinear_arith)
        requires
            0 <= mantissa,
            0 <= p,
    ;
    if 1023 <= exponent_field(bits) < 1087 {
        vstd::arithmetic::power2::lemma2_to64();
        lemma_pow2_monotonic(power, 63);
        vstd::arithmetic::power2::lemma_pow2_unfold(64);
        assert(mantissa * p <= 0x1f_ffff_ffff_ffff * 0x8000_0000_0000_0000) by (nonlinear_arith)
            requires
                0 <= mantissa <= 0x1f_ffff_ffff_ffff,
                0 <= p <= 0x8000_0000_0000_0000,
        ;
    }
}

} // verus!
