//! Little-endian encodings.

use vstd::prelude::*;

verus! {

/// The four bytes of `n`, least significant first.
pub open spec fn u32_bytes(n: u32) -> Seq<u8> {
    seq![
        (n % 256) as u8,
        (n / 0x100 % 256) as u8,
        (n / 0x1_0000 % 256) as u8,
        (n / 0x100_0000 % 256) as u8,
    ]
}

/// The eight bytes of `n`, least significant first.
pub open spec fn u64_bytes(n: u64) -> Seq<u8> {
    seq![
        (n % 256) as u8,
        (n / 0x100 % 256) as u8,
        (n / 0x1_0000 % 256) as u8,
        (n / 0x100_0000 % 256) as u8,
        (n / 0x1_0000_0000 % 256) as u8,
        (n / 0x100_0000_0000 % 256) as u8,
        (n / 0x1_0000_0000_0000 % 256) as u8,
        (n / 0x100_0000_0000_0000 % 256) as u8,
    ]
}

/// The number that eight bytes spell, least significant first.
pub open spec fn u64_of_bytes(b: Seq<u8>) -> int {
    b[0] + 0x100 * b[1] + 0x1_0000 * b[2] + 0x100_0000 * b[3] + 0x1_0000_0000 * b[4]
        + 0x100_0000_0000 * b[5] + 0x1_0000_0000_0000 * b[6] + 0x100_0000_0000_0000 * b[7]
}

/// Encodes a nonce.
pub fn u64_to_bytes(n: u64) -> (r: [u8; 8])
    ensures
        r@ == u64_bytes(n),
{
    let r = [
        (n % 256) as u8,
        (n / 0x100 % 256) as u8,
        (n / 0x1_0000 % 256) as u8,
        (n / 0x100_0000 % 256) as u8,
        (n / 0x1_0000_0000 % 256) as u8,
        (n / 0x100_0000_0000 % 256) as u8,
        (n / 0x1_0000_0000_0000 % 256) as u8,
        (n / 0x100_0000_0000_0000 % 256) as u8,
    ];
    assert(r@ =~= u64_bytes(n));
    r
}

/// Decodes the eight bytes of `data` that begin at `at`.
pub fn u64_from_bytes(data: &Vec<u8>, at: usize) -> (r: u64)
    requires
        at + 8 <= data.len(),
    ensures
        r == u64_of_bytes(data@.subrange(at as int, at + 8)),
{
    data[at] as u64 + 0x100 * data[at + 1] as u64 + 0x1_0000 * data[at + 2] as u64 + 0x100_0000
        * data[at + 3] as u64 + 0x1_0000_0000 * data[at + 4] as u64 + 0x100_0000_0000
        * data[at + 5] as u64 + 0x1_0000_0000_0000 * data[at + 6] as u64 + 0x100_0000_0000_0000
        * data[at + 7] as u64
}

/// One byte of a number at weight `w`: what is left above it, and the byte itself.
proof fn lemma_peel(n: int, w: int)
    requires
        n >= 0,
        w > 0,
    ensures
        n / w == 256 * (n / (w * 256)) + (n / w) % 256,
{
    vstd::arithmetic::div_mod::lemma_div_denominator(n, w, 256);
    vstd::arithmetic::div_mod::lemma_fundamental_div_mod(n / w, 256);
}

/// Decoding the eight bytes of a number gives the number back, so distinct numbers have distinct
/// encodings.
pub proof fn law_u64_bytes_round_trip(n: u64)
    ensures
        u64_of_bytes(u64_bytes(n)) == n,
{
    let m = n as int;
    let a1 = m / 0x100;
    let a2 = m / 0x1_0000;
    let a3 = m / 0x100_0000;
    let a4 = m / 0x1_0000_0000;
    let a5 = m / 0x100_0000_0000;
    let a6 = m / 0x1_0000_0000_0000;
    let a7 = m / 0x100_0000_0000_0000;
    let b = u64_bytes(n);
    assert(m == 256 * a1 + b[0]) by {
        lemma_peel(m, 1);
    }
    assert(a1 == 256 * a2 + b[1]) by {
        lemma_peel(m, 0x100);
    }
    assert(a2 == 256 * a3 + b[2]) by {
        lemma_peel(m, 0x1_0000);
    }
    assert(a3 == 256 * a4 + b[3]) by {
        lemma_peel(m, 0x100_0000);
    }
    assert(a4 == 256 * a5 + b[4]) by {
        lemma_peel(m, 0x1_0000_0000);
    }
    assert(a5 == 256 * a6 + b[5]) by {
        lemma_peel(m, 0x100_0000_0000);
    }
    assert(a6 == 256 * a7 + b[6]) by {
        lemma_peel(m, 0x1_0000_0000_0000);
    }
    assert(a7 == b[7]);
    lemma_horner(m, a1, a2, a3, a4, a5, a6, a7, b);
}

/// The bytes of a number, put together again from the top.
proof fn lemma_horner(
    m: int,
    a1: int,
    a2: int,
    a3: int,
    a4: int,
    a5: int,
    a6: int,
    a7: int,
    b: Seq<u8>,
)
    requires
        m == 256 * a1 + b[0],
        a1 == 256 * a2 + b[1],
        a2 == 256 * a3 + b[2],
        a3 == 256 * a4 + b[3],
        a4 == 256 * a5 + b[4],
        a5 == 256 * a6 + b[5],
        a6 == 256 * a7 + b[6],
        a7 == b[7],
    ensures
        u64_of_bytes(b) == m,
{
}

} // verus!
