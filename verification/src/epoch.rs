//! Timestamps and epochs. Timestamps are signed, the arithmetic on them is unsigned and wraps
//! around at 2^64.

use vstd::prelude::*;

use crate::chain::{epoch_duration, EPOCH_SECONDS};

verus! {

/// A signed number, taken as an unsigned one of 64 bits.
pub open spec fn unsigned(n: i64) -> int {
    if n >= 0 {
        n as int
    } else {
        n + 0x1_0000_0000_0000_0000
    }
}

/// A number modulo 2^64.
pub open spec fn wrapped(n: int) -> int {
    n % 0x1_0000_0000_0000_0000
}

/// The epochs between two resets.
pub const RESET_PERIOD: u64 = 10;

/// Takes a signed number as an unsigned one.
fn to_unsigned(n: i64) -> (r: u64)
    ensures
        r == unsigned(n),
{
    assert(n >= 0 ==> n as u64 == n) by (bit_vector);
    assert(n < 0 ==> n as u64 == n + 0x1_0000_0000_0000_0000) by (bit_vector);
    n as u64
}

/// Is a reset due at `clock`? The last reset is scaled to an epoch and back.
pub open spec fn reset_due(clock: i64, last_reset_at: i64) -> bool {
    wrapped(
        unsigned(clock) / EPOCH_SECONDS as int - wrapped(
            unsigned(last_reset_at) * EPOCH_SECONDS,
        ) / EPOCH_SECONDS as int,
    ) >= RESET_PERIOD
}

/// Decides whether a reset is due at `clock`.
pub fn should_reset(clock: i64, last_reset_at: i64) -> (r: bool)
    ensures
        r == reset_due(clock, last_reset_at),
{
    let epoch_time: u64 = to_unsigned(clock);
    let duration: u64 = to_unsigned(epoch_duration());
    let current_epoch: u64 = epoch_time / duration;
    let last_reset: u64 = to_unsigned(last_reset_at).wrapping_mul(duration);
    let last_reset_epoch: u64 = last_reset / duration;
    current_epoch.wrapping_sub(last_reset_epoch) >= RESET_PERIOD
}

/// The time, in seconds, at which a search that began after `last_hash_at` is to end, as seen at
/// `clock`.
pub open spec fn cutoff(last_hash_at: i64, clock: i64, buffer_time: u64) -> int {
    let epochs = wrapped(
        unsigned(clock) / EPOCH_SECONDS as int - unsigned(last_hash_at) / EPOCH_SECONDS as int,
    );
    wrapped(wrapped(unsigned(last_hash_at) + wrapped(epochs * EPOCH_SECONDS)) + buffer_time)
}

/// Computes the time at which a search is to end.
pub fn get_cutoff(last_hash_at: i64, clock: i64, buffer_time: u64) -> (r: u64)
    ensures
        r == cutoff(last_hash_at, clock, buffer_time),
{
    let now: u64 = to_unsigned(clock);
    let duration: u64 = to_unsigned(epoch_duration());
    let current_epoch: u64 = now / duration;
    let last: u64 = to_unsigned(last_hash_at);
    let proof_epoch: u64 = last / duration;
    let epoch_diff: u64 = current_epoch.wrapping_sub(proof_epoch);
    last.wrapping_add(epoch_diff.wrapping_mul(duration)).wrapping_add(buffer_time)
}

/// A search ends whole epochs after the last hash, or before it where the clock is behind, plus the
/// buffer, and less than one epoch away from the clock plus the buffer. The times are not negative,
/// and the end fits 64 bits.
pub proof fn law_cutoff_is_near_the_clock(last_hash_at: i64, clock: i64, buffer_time: u64)
    requires
        0 <= last_hash_at,
        0 <= clock,
        last_hash_at + EPOCH_SECONDS * (clock as int / EPOCH_SECONDS as int - last_hash_at as int
            / EPOCH_SECONDS as int) + buffer_time <= u64::MAX,
    ensures
        cutoff(last_hash_at, clock, buffer_time) == last_hash_at + EPOCH_SECONDS * (clock as int
            / EPOCH_SECONDS as int - last_hash_at as int / EPOCH_SECONDS as int) + buffer_time,
        clock + buffer_time - EPOCH_SECONDS < cutoff(last_hash_at, clock, buffer_time) < clock
            + buffer_time + EPOCH_SECONDS,
{
}

/// Where the scaling of the last reset does not wrap around, a reset is due ten epochs after it, or
/// whenever the number of the current epoch is below the time of the last reset.
pub proof fn law_reset_due(clock: i64, last_reset_at: i64)
    requires
        0 <= clock,
        0 <= last_reset_at,
        last_reset_at * EPOCH_SECONDS <= u64::MAX,
    ensures
        reset_due(clock, last_reset_at) <==> {
            let current_epoch = clock as int / EPOCH_SECONDS as int;
            current_epoch < last_reset_at || current_epoch - last_reset_at >= RESET_PERIOD
        },
{
}

/// The number from 0 to 2^64 - 1 that a signed number is taken as differs from it by a multiple of
/// 2^64.
proof fn lemma_unsigned(n: i64, u: int)
    requires
        0 <= u < 0x1_0000_0000_0000_0000,
        (u - n) % 0x1_0000_0000_0000_0000 == 0,
    ensures
        unsigned(n) == u,
{
}

/// Two numbers modulo 2^64 that differ by a multiple of it.
proof fn lemma_wrapped(x: int, y: int)
    requires
        0 <= x < 0x1_0000_0000_0000_0000,
        (x - y) % 0x1_0000_0000_0000_0000 == 0,
    ensures
        wrapped(y) == x,
{
}

/// The end of a search for all times: where `last` and `now` are the times as unsigned numbers, the
/// end is the last hash, plus five minutes for each boundary of five minutes that lies between the
/// two, plus the buffer, up to a multiple of 2^64.
pub proof fn law_cutoff_for_all_times(
    last_hash_at: i64,
    clock: i64,
    buffer_time: u64,
    last: int,
    now: int,
)
    requires
        0 <= last < 0x1_0000_0000_0000_0000,
        0 <= now < 0x1_0000_0000_0000_0000,
        (last - last_hash_at) % 0x1_0000_0000_0000_0000 == 0,
        (now - clock) % 0x1_0000_0000_0000_0000 == 0,
    ensures
        0 <= cutoff(last_hash_at, clock, buffer_time) < 0x1_0000_0000_0000_0000,
        (cutoff(last_hash_at, clock, buffer_time) - (last + 300 * (now / 300 - last / 300)
            + buffer_time)) % 0x1_0000_0000_0000_0000 == 0,
{
    lemma_unsigned(last_hash_at, last);
    lemma_unsigned(clock, now);
    let m: int = 0x1_0000_0000_0000_0000;
    let epochs = now / 300 - last / 300;
    let k1 = epochs / m;
    let scaled = wrapped(epochs) * 300;
    let k2 = scaled / m;
    let sum = last + wrapped(scaled);
    let k3 = sum / m;
    let k4 = (wrapped(sum) + buffer_time) / m;
    assert(wrapped(epochs) == epochs - m * k1);
    assert(wrapped(scaled) == scaled - m * k2);
    assert(wrapped(sum) == sum - m * k3);
    let c = cutoff(last_hash_at, clock, buffer_time);
    assert(c == wrapped(wrapped(sum) + buffer_time));
    assert(c == wrapped(sum) + buffer_time - m * k4);
    assert(c - (last + 300 * epochs + buffer_time) == m * (-300 * k1 - k2 - k3 - k4));
}

/// When a reset is due, for all times: where `now` and `last` are the clock and the last reset as
/// unsigned numbers, `scaled` is three hundred times the last reset, `passed` is the epoch of the
/// clock less that of `scaled`, each from 0 to 2^64 - 1 and up to a multiple of 2^64, it is due where
/// ten epochs or more have passed.
pub proof fn law_reset_due_for_all_times(
    clock: i64,
    last_reset_at: i64,
    now: int,
    last: int,
    scaled: int,
    passed: int,
)
    requires
        0 <= now < 0x1_0000_0000_0000_0000,
        0 <= last < 0x1_0000_0000_0000_0000,
        0 <= scaled < 0x1_0000_0000_0000_0000,
        0 <= passed < 0x1_0000_0000_0000_0000,
        (now - clock) % 0x1_0000_0000_0000_0000 == 0,
        (last - last_reset_at) % 0x1_0000_0000_0000_0000 == 0,
        (scaled - 300 * last) % 0x1_0000_0000_0000_0000 == 0,
        (passed - (now / 300 - scaled / 300)) % 0x1_0000_0000_0000_0000 == 0,
    ensures
        reset_due(clock, last_reset_at) <==> passed >= 10,
{
    lemma_unsigned(clock, now);
    lemma_unsigned(last_reset_at, last);
    lemma_wrapped(scaled, 300 * last);
    lemma_wrapped(passed, now / 300 - scaled / 300);
}

} // verus!
