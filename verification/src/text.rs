//! Numbers as text, and the search for a piece of text in another.

use vstd::prelude::*;

verus! {

/// The character of a decimal digit.
pub open spec fn digit_char(d: int) -> char {
    (('0' as int) + d) as char
}

/// The shortest decimal notation of `n`.
pub open spec fn decimal(n: nat) -> Seq<char>
    decreases n,
{
    if n < 10 {
        seq![digit_char(n as int)]
    } else {
        decimal(n / 10).push(digit_char((n % 10) as int))
    }
}

/// `text` with zeros in front, up to two characters.
pub open spec fn padded_to_two(text: Seq<char>) -> Seq<char> {
    if text.len() >= 2 {
        text
    } else if text.len() == 1 {
        seq!['0'] + text
    } else {
        seq!['0', '0']
    }
}

/// A duration as minutes and seconds, each of at least two digits, with a colon between them.
pub open spec fn duration_text(seconds: nat) -> Seq<char> {
    padded_to_two(decimal(seconds / 60)).push(':') + padded_to_two(decimal(seconds % 60))
}

/// Is `c` one of the ten ASCII digits?
pub open spec fn is_digit(c: char) -> bool {
    '0' <= c <= '9'
}

/// The number that a string of digits spells.
pub open spec fn digits_value(digits: Seq<char>) -> nat
    decreases digits.len(),
{
    if digits.len() == 0 {
        0
    } else {
        10 * digits_value(digits.drop_last()) + ((digits.last() as int) - ('0' as int)) as nat
    }
}

/// `text` without the plus sign that it may begin with.
pub open spec fn without_plus(text: Seq<char>) -> Seq<char> {
    if text.len() > 0 && text[0] == '+' {
        text.skip(1)
    } else {
        text
    }
}

/// The 64-bit number that `text` spells: an optional plus sign and at least one digit, nothing
/// else, and no more than the type holds.
pub open spec fn parsed_u64(text: Seq<char>) -> Option<u64> {
    let digits = without_plus(text);
    if digits.len() > 0 && (forall|i: int| 0 <= i < digits.len() ==> is_digit(#[trigger] digits[i]))
        && digits_value(digits) <= u64::MAX {
        Some(digits_value(digits) as u64)
    } else {
        None
    }
}

/// Does `needle` occur in `haystack` at position `at`?
pub open spec fn occurs_at(haystack: Seq<char>, needle: Seq<char>, at: int) -> bool {
    &&& 0 <= at
    &&& at + needle.len() <= haystack.len()
    &&& haystack.subrange(at, at + needle.len()) == needle
}

/// Does `needle` occur in `haystack`?
pub open spec fn occurs(haystack: Seq<char>, needle: Seq<char>) -> bool {
    exists|at: int| occurs_at(haystack, needle, at)
}

/// The text of a digit.
fn digit_text(d: u64) -> (r: &'static str)
    requires
        d < 10,
    ensures
        r@ == seq![digit_char(d as int)],
{
    proof {
        reveal_strlit("0");
        reveal_strlit("1");
        reveal_strlit("2");
        reveal_strlit("3");
        reveal_strlit("4");
        reveal_strlit("5");
        reveal_strlit("6");
        reveal_strlit("7");
        reveal_strlit("8");
        reveal_strlit("9");
    }
    let r = if d == 0 {
        "0"
    } else if d == 1 {
        "1"
    } else if d == 2 {
        "2"
    } else if d == 3 {
        "3"
    } else if d == 4 {
        "4"
    } else if d == 5 {
        "5"
    } else if d == 6 {
        "6"
    } else if d == 7 {
        "7"
    } else if d == 8 {
        "8"
    } else {
        "9"
    };
    assert(r@ =~= seq![digit_char(d as int)]);
    r
}

/// Writes a number in decimal.
pub fn decimal_text(n: u64) -> (r: String)
    ensures
        r@ == decimal(n as nat),
    decreases n,
{
    if n < 10 {
        digit_text(n).to_string()
    } else {
        let mut r = decimal_text(n / 10);
        r.append(digit_text(n % 10));
        assert(r@ =~= decimal(n as nat));
        r
    }
}

/// Writes a number in decimal, with at least two digits.
fn two_digits(n: u64) -> (r: String)
    ensures
        r@ == padded_to_two(decimal(n as nat)),
{
    let digits = decimal_text(n);
    if n < 10 {
        let mut r = digit_text(0).to_string();
        r.append(digits.as_str());
        assert(r@ =~= padded_to_two(decimal(n as nat)));
        r
    } else {
        proof {
            lemma_decimal_is_digits((n / 10) as nat);
        }
        digits
    }
}

/// Formats a number of seconds as minutes and seconds.
pub fn format_duration(seconds: u32) -> (r: String)
    ensures
        r@ == duration_text(seconds as nat),
{
    let minutes: u32 = seconds / 60;
    let remaining_seconds: u32 = seconds % 60;
    let mut r = two_digits(minutes as u64);
    proof {
        reveal_strlit(":");
    }
    r.append(":");
    let tail = two_digits(remaining_seconds as u64);
    r.append(tail.as_str());
    assert(r@ =~= duration_text(seconds as nat));
    r
}

/// A longer string of digits spells no smaller number.
proof fn lemma_digits_value_grows(digits: Seq<char>, n: int)
    requires
        0 <= n <= digits.len(),
        forall|i: int| 0 <= i < digits.len() ==> is_digit(#[trigger] digits[i]),
    ensures
        digits_value(digits.take(n)) <= digits_value(digits),
    decreases digits.len() - n,
{
    if n == digits.len() {
        assert(digits.take(n) =~= digits);
    } else {
        lemma_digits_value_grows(digits, n + 1);
        assert(digits.take(n + 1).drop_last() =~= digits.take(n));
        assert(is_digit(digits[n]));
    }
}

/// Reads a 64-bit number: an optional plus sign and at least one digit, nothing else.
pub fn parse_u64(text: &str) -> (r: Option<u64>)
    ensures
        r == parsed_u64(text@),
{
    let len = text.unicode_len();
    let mut i: usize = 0;
    if len > 0 && text.get_char(0) == '+' {
        i = 1;
    }
    let skipped: usize = i;
    let ghost digits = without_plus(text@);
    if i == len {
        return None;
    }
    let mut value: u64 = 0;
    assert(digits.take(0) =~= Seq::<char>::empty());
    while i < len
        invariant
            len == text@.len(),
            skipped <= i <= len,
            digits == without_plus(text@),
            digits.len() == len - skipped,
            forall|k: int| 0 <= k < digits.len() ==> #[trigger] digits[k] == text@[k + skipped],
            forall|k: int| 0 <= k < i - skipped ==> is_digit(#[trigger] digits[k]),
            value == digits_value(digits.take(i - skipped)),
        decreases len - i,
    {
        let c = text.get_char(i);
        assert(digits[i - skipped] == c);
        if c < '0' || c > '9' {
            return None;
        }
        let digit: u64 = (c as u32 - '0' as u32) as u64;
        assert(digits.take(i - skipped + 1).drop_last() =~= digits.take(i - skipped));
        assert(digits.take(i - skipped + 1).last() == c);
        assert(digits_value(digits.take(i - skipped + 1)) == 10 * value + digit);
        let product = value.checked_mul(10);
        let sum = match product {
            Some(p) => p.checked_add(digit),
            None => None,
        };
        match sum {
            Some(s) => {
                value = s;
            },
            None => {
                proof {
                    if parsed_u64(text@) is Some {
                        lemma_digits_value_grows(digits, i - skipped + 1);
                    }
                }
                return None;
            },
        }
        i = i + 1;
    }
    assert(digits.take(i - skipped) =~= digits);
    Some(value)
}

/// Does `needle` occur in `haystack`?
pub fn contains(haystack: &str, needle: &str) -> (r: bool)
    ensures
        r == occurs(haystack@, needle@),
{
    let h = haystack.unicode_len();
    let n = needle.unicode_len();
    if n > h {
        return false;
    }
    let mut at: usize = 0;
    while at <= h - n
        invariant
            h == haystack@.len(),
            n == needle@.len(),
            n <= h,
            at <= h - n + 1,
            forall|k: int| 0 <= k < at ==> !occurs_at(haystack@, needle@, k),
        decreases h - n + 1 - at,
    {
        let mut i: usize = 0;
        while i < n && haystack.get_char(at + i) == needle.get_char(i)
            invariant
                h == haystack@.len(),
                n == needle@.len(),
                n <= h,
                at <= h - n,
                i <= n,
                forall|k: int| 0 <= k < i ==> haystack@[at + k] == needle@[k],
            decreases n - i,
        {
            i = i + 1;
        }
        if i == n {
            assert(haystack@.subrange(at as int, at + n) =~= needle@);
            assert(occurs_at(haystack@, needle@, at as int));
            return true;
        }
        assert(!occurs_at(haystack@, needle@, at as int)) by {
            if haystack@.subrange(at as int, at + n) == needle@ {
                assert(haystack@.subrange(at as int, at + n)[i as int] == needle@[i as int]);
            }
        }
        if at == h - n {
            return false;
        }
        at = at + 1;
    }
    false
}

/// The decimal notation of a number consists of digits, and spells it.
pub proof fn lemma_decimal_is_digits(n: nat)
    ensures
        decimal(n).len() > 0,
        forall|i: int| 0 <= i < decimal(n).len() ==> is_digit(#[trigger] decimal(n)[i]),
        digits_value(decimal(n)) == n,
    decreases n,
{
    if n < 10 {
        reveal_with_fuel(digits_value, 2);
        assert(decimal(n).drop_last() =~= Seq::<char>::empty());
    } else {
        lemma_decimal_is_digits(n / 10);
        assert(decimal(n).drop_last() =~= decimal(n / 10));
        assert(decimal(n).last() == digit_char((n % 10) as int));
    }
}

/// Reading what was written gives the number back.
pub proof fn law_decimal_round_trip(n: u64)
    ensures
        parsed_u64(decimal(n as nat)) == Some(n),
{
    lemma_decimal_is_digits(n as nat);
    assert(is_digit(decimal(n as nat)[0]));
}

} // verus!
