//! What the encodings of numbers and the search in texts mean, whatever they are used for.

use vstd::arithmetic::power2::pow2;
use vstd::prelude::*;

use crate::bytes::{law_u64_bytes_round_trip, u32_bytes, u64_bytes, u64_of_bytes};
use crate::float64::{law_whole_part_is_the_floor, whole_part};
use crate::text::{
    decimal, digit_char, digits_value, duration_text, is_digit, lemma_decimal_is_digits, occurs,
    occurs_at, padded_to_two, parsed_u64, without_plus,
};

verus! {

/// The eight bytes of a number, weighted by the powers of 256 from the lowest up, add up to it. As
/// each is below 256, there is only one such encoding.
pub proof fn law_u64_bytes_add_up(n: u64)
    ensures
        u64_bytes(n).len() == 8,
        n == u64_bytes(n)[0] + 256 * u64_bytes(n)[1] + 65536 * u64_bytes(n)[2] + 16777216
            * u64_bytes(n)[3] + 4294967296 * u64_bytes(n)[4] + 1099511627776 * u64_bytes(n)[5]
            + 281474976710656 * u64_bytes(n)[6] + 72057594037927936 * u64_bytes(n)[7],
{
    law_u64_bytes_round_trip(n);
}

/// A number split into its lowest byte and the rest.
proof fn lemma_split(low: u8, rest: int)
    requires
        rest >= 0,
    ensures
        (low + 256 * rest) % 256 == low,
        (low + 256 * rest) / 256 == rest,
{
}

/// Encoding the number that eight bytes spell gives those bytes back, so that every eight bytes
/// spell a number of their own.
pub proof fn law_bytes_are_those_of_their_number(b: Seq<u8>)
    requires
        b.len() == 8,
    ensures
        0 <= u64_of_bytes(b) <= u64::MAX,
        u64_bytes(u64_of_bytes(b) as u64) == b,
{
    let n = u64_of_bytes(b);
    let r7 = b[7] as int;
    let r6 = b[6] + 256 * r7;
    let r5 = b[5] + 256 * r6;
    let r4 = b[4] + 256 * r5;
    let r3 = b[3] + 256 * r4;
    let r2 = b[2] + 256 * r3;
    let r1 = b[1] + 256 * r2;
    assert(n == b[0] + 256 * r1);
    lemma_split(b[0], r1);
    lemma_split(b[1], r2);
    lemma_split(b[2], r3);
    lemma_split(b[3], r4);
    lemma_split(b[4], r5);
    lemma_split(b[5], r6);
    lemma_split(b[6], r7);
    assert(n / 0x100 == r1);
    assert(n / 0x1_0000 == r2) by {
        vstd::arithmetic::div_mod::lemma_div_denominator(n, 0x100, 256);
    }
    assert(n / 0x100_0000 == r3) by {
        vstd::arithmetic::div_mod::lemma_div_denominator(n, 0x1_0000, 256);
    }
    assert(n / 0x1_0000_0000 == r4) by {
        vstd::arithmetic::div_mod::lemma_div_denominator(n, 0x100_0000, 256);
    }
    assert(n / 0x100_0000_0000 == r5) by {
        vstd::arithmetic::div_mod::lemma_div_denominator(n, 0x1_0000_0000, 256);
    }
    assert(n / 0x1_0000_0000_0000 == r6) by {
        vstd::arithmetic::div_mod::lemma_div_denominator(n, 0x100_0000_0000, 256);
    }
    assert(n / 0x100_0000_0000_0000 == r7) by {
        vstd::arithmetic::div_mod::lemma_div_denominator(n, 0x1_0000_0000_0000, 256);
    }
    let e = u64_bytes(n as u64);
    assert(e[0] == b[0] && e[1] == b[1] && e[2] == b[2] && e[3] == b[3]);
    assert(e[4] == b[4] && e[5] == b[5] && e[6] == b[6] && e[7] == b[7]);
    assert(e =~= b);
}

/// The four bytes of a number, weighted by the powers of 256 from the lowest up, add up to it.
pub proof fn law_u32_bytes_add_up(n: u32)
    ensures
        u32_bytes(n).len() == 4,
        n == u32_bytes(n)[0] + 256 * u32_bytes(n)[1] + 65536 * u32_bytes(n)[2] + 16777216
            * u32_bytes(n)[3],
{
}

/// One more digit makes ten times the number, plus the digit; no digits spell zero.
pub proof fn law_digits_are_decimal(digits: Seq<char>, d: int)
    requires
        0 <= d < 10,
    ensures
        digits_value(Seq::empty()) == 0,
        digits_value(digits.push((48 + d) as char)) == 10 * digits_value(digits) + d,
{
    assert(digits.push((48 + d) as char).drop_last() =~= digits);
}

/// The decimal notation of a number consists of digits from '0' to '9', spells the number, and does
/// not begin with a zero unless it is a single digit.
pub proof fn law_decimal_is_shortest(n: nat)
    ensures
        decimal(n).len() >= 1,
        forall|i: int| 0 <= i < decimal(n).len() ==> '0' <= #[trigger] decimal(n)[i] <= '9',
        digits_value(decimal(n)) == n,
        decimal(n).len() > 1 ==> decimal(n)[0] != '0',
    decreases n,
{
    lemma_decimal_is_digits(n);
    assert forall|i: int| 0 <= i < decimal(n).len() implies '0' <= #[trigger] decimal(n)[i] <= '9' by {
        assert(is_digit(decimal(n)[i]));
    }
    if n >= 10 {
        law_decimal_is_shortest(n / 10);
        assert(decimal(n)[0] == decimal(n / 10)[0]);
        if n / 10 < 10 {
            assert(decimal(n / 10)[0] == digit_char((n / 10) as int));
        } else {
            lemma_decimal_is_digits(n / 10 / 10);
        }
    }
}

/// Digits are read as the number that they spell, with or without a plus sign in front, as long as
/// that fits 64 bits; beyond that they are refused.
pub proof fn law_digits_are_read(digits: Seq<char>)
    requires
        digits.len() > 0,
        forall|i: int| 0 <= i < digits.len() ==> '0' <= #[trigger] digits[i] <= '9',
    ensures
        digits_value(digits) < 0x1_0000_0000_0000_0000 ==> {
            &&& parsed_u64(digits) == Some(digits_value(digits) as u64)
            &&& parsed_u64(seq!['+'] + digits) == Some(digits_value(digits) as u64)
        },
        digits_value(digits) >= 0x1_0000_0000_0000_0000 ==> {
            &&& parsed_u64(digits) is None
            &&& parsed_u64(seq!['+'] + digits) is None
        },
{
    assert('0' <= digits[0]);
    assert(without_plus(digits) == digits);
    assert((seq!['+'] + digits).skip(1) =~= digits);
    assert forall|i: int| 0 <= i < digits.len() implies is_digit(#[trigger] digits[i]) by {}
}

/// Nothing else is read: a text that spells a number has at least one digit, and no character that
/// is none, but for a plus sign that it may begin with.
pub proof fn law_only_digits_are_read(text: Seq<char>)
    requires
        parsed_u64(text) is Some,
    ensures
        text.len() > 0,
        text[0] == '+' ==> text.len() > 1,
        forall|i: int|
            0 <= i < text.len() && !(i == 0 && text[0] == '+') ==> '0' <= #[trigger] text[i] <= '9',
{
    let digits = without_plus(text);
    assert forall|i: int|
        0 <= i < text.len() && !(i == 0 && text[0] == '+') implies '0' <= #[trigger] text[i]
        <= '9' by {
        if text[0] == '+' {
            assert(digits[i - 1] == text[i]);
            assert(is_digit(digits[i - 1]));
        } else {
            assert(is_digit(digits[i]));
        }
    }
}

/// A duration reads as minutes, a colon and seconds: both are digits, at least two of them, without
/// more zeros in front than that takes, and the seconds are less than sixty. Sixty times the minutes
/// and the seconds are the duration.
pub proof fn law_duration_reads_back(seconds: nat) -> (parts: (Seq<char>, Seq<char>))
    ensures
        duration_text(seconds) == parts.0 + seq![':'] + parts.1,
        parts.0.len() >= 2,
        parts.0.len() > 2 ==> parts.0[0] != '0',
        parts.1.len() == 2,
        forall|i: int| 0 <= i < parts.0.len() ==> '0' <= #[trigger] parts.0[i] <= '9',
        forall|i: int| 0 <= i < parts.1.len() ==> '0' <= #[trigger] parts.1[i] <= '9',
        digits_value(parts.1) < 60,
        60 * digits_value(parts.0) + digits_value(parts.1) == seconds,
{
    let m = padded_to_two(decimal(seconds / 60));
    let s = padded_to_two(decimal(seconds % 60));
    lemma_padded(seconds / 60);
    lemma_padded(seconds % 60);
    assert(duration_text(seconds) =~= m + seq![':'] + s);
    (m, s)
}

/// A number of at least two digits.
proof fn lemma_padded(n: nat)
    ensures
        ({
            let text = padded_to_two(decimal(n));
            &&& text.len() >= 2
            &&& n < 100 ==> text.len() == 2
            &&& text.len() > 2 ==> text[0] != '0'
            &&& forall|i: int| 0 <= i < text.len() ==> '0' <= #[trigger] text[i] <= '9'
            &&& digits_value(text) == n
        }),
{
    law_decimal_is_shortest(n);
    let text = padded_to_two(decimal(n));
    if n < 10 {
        assert(text =~= seq!['0', digit_char(n as int)]);
        assert(text.drop_last() =~= seq!['0']);
        assert(text.drop_last().drop_last() =~= Seq::<char>::empty());
        reveal_with_fuel(digits_value, 3);
    } else {
        law_decimal_is_shortest(n / 10);
        assert(decimal(n).len() == decimal(n / 10).len() + 1);
        if n < 100 {
            assert(decimal(n / 10).len() == 1);
        }
    }
}

/// A text occurs in whatever it stands in the middle of.
pub proof fn law_middle_occurs(before: Seq<char>, needle: Seq<char>, after: Seq<char>)
    ensures
        occurs(before + needle + after, needle),
{
    let haystack = before + needle + after;
    let at = before.len() as int;
    assert(haystack.subrange(at, at + needle.len()) =~= needle);
    assert(occurs_at(haystack, needle, at));
}

/// What a text occurs in has it in the middle of something.
pub proof fn law_what_occurs_is_in_the_middle(haystack: Seq<char>, needle: Seq<char>) -> (around: (
    Seq<char>,
    Seq<char>,
))
    requires
        occurs(haystack, needle),
    ensures
        haystack == around.0 + needle + around.1,
{
    let at = choose|at: int| occurs_at(haystack, needle, at);
    let before = haystack.take(at);
    let after = haystack.skip(at + needle.len());
    assert(haystack =~= before + haystack.subrange(at, at + needle.len()) + after);
    (before, after)
}

/// The number with the exponent bits `e` and the fraction bits `f` is `1.f * 2^(e - 1023)`; its whole
/// part is the largest whole number that is not above it, where that fits 64 bits. A smaller number
/// than 1 has the whole part 0, a larger one than fits, infinity included, the largest that fits, and
/// what is no number has 0.
pub proof fn law_whole_part_by_exponent(e: int, f: int)
    requires
        0 <= e < 2048,
        0 <= f < 0x10_0000_0000_0000,
    ensures
        ({
            let w = whole_part((e * 0x10_0000_0000_0000 + f) as u64);
            &&& e < 1023 ==> w == 0
            &&& 1023 <= e < 1087 ==> w * 0x10_0000_0000_0000 <= (0x10_0000_0000_0000 + f) * pow2(
                (e - 1023) as nat,
            ) < (w + 1) * 0x10_0000_0000_0000
            &&& 1087 <= e < 2047 ==> w == 0xffff_ffff_ffff_ffff
            &&& e == 2047 && f == 0 ==> w == 0xffff_ffff_ffff_ffff
            &&& e == 2047 && f > 0 ==> w == 0
        }),
{
    let bits = (e * 0x10_0000_0000_0000 + f) as u64;
    law_whole_part_is_the_floor(bits);
    if 1087 <= e < 2047 {
        let p = (e - 1023) as nat;
        vstd::arithmetic::power2::lemma2_to64();
        vstd::arithmetic::power2::lemma_pow2_unfold(64);
        crate::float64::lemma_pow2_monotonic(64, p);
        let q = pow2(p) as int;
        assert((0x10_0000_0000_0000 + f) * q >= 0x10_0000_0000_0000 * 0x1_0000_0000_0000_0000)
            by (nonlinear_arith)
            requires
                f >= 0,
                q >= 0x1_0000_0000_0000_0000,
        ;
    }
}

/// A negative number has the whole part 0.
pub proof fn law_negative_numbers_have_no_whole_part(magnitude: u64)
    requires
        magnitude < 0x8000_0000_0000_0000,
    ensures
        whole_part((0x8000_0000_0000_0000 + magnitude) as u64) == 0,
{
}

} // verus!
