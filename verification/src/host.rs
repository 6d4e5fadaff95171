//! What the machine contributes: its processors and its randomness.

use rand::Rng;
use vstd::prelude::*;

verus! {

/// `num_cpus::get` returns the number of processors of the machine, at least one.
pub assume_specification[ num_cpus::get ]() -> (r: usize)
    ensures
        r >= 1,
;

/// Draws a number below `bound` with `Rng::gen_range` from the generator of the thread. It panics
/// on an empty range.
#[verifier::external_body]
pub(crate) fn random_below(bound: usize) -> (r: usize)
    requires
        bound > 0,
    ensures
        r < bound,
{
    rand::thread_rng().gen_range(0..bound)
}

/// May a search use `cores` threads on a machine with `available` processors?
pub fn cores_allowed(cores: u64, available: u64) -> (r: bool)
    ensures
        r == (cores <= available),
{
    !(cores > available)
}

/// May a search use `cores` threads on this machine, which has as many processors as
/// `num_cpus::get` says? One is always allowed.
pub fn check_num_cores(cores: u64) -> (r: bool)
    ensures
        exists|available: usize|
            {
                &&& available >= 1
                &&& #[trigger] call_ensures(num_cpus::get, (), available)
                &&& r == enough_for(available, cores)
            },
        cores <= 1 ==> r,
{
    let available: usize = answer_of(num_cpus::get);
    let r = cores_allowed(cores, available as u64);
    assert(r == enough_for(available, cores));
    r
}

/// Are `available` processors enough for `cores` threads?
pub open spec fn enough_for(available: usize, cores: u64) -> bool {
    cores <= available
}

/// Is `drawn` a number that a draw below `bound` gives?
pub closed spec fn drawn_below(bound: usize, drawn: usize) -> bool {
    call_ensures(random_below, (bound,), drawn)
}

/// Only what the generator gives for a bound is drawn below it.
proof fn law_draws_come_from_the_generator(bound: usize, drawn: usize)
    requires
        bound > 0,
        drawn_below(bound, drawn),
    ensures
        call_ensures(random_below, (bound,), drawn),
        drawn < bound,
{
}

/// Asks a source for a number.
fn answer_of<F: Fn() -> usize>(source: F) -> (r: usize)
    requires
        call_requires(source, ()),
    ensures
        call_ensures(source, (), r),
{
    source()
}

/// Asks a source for a number, with a bound.
fn answer_within<F: Fn(usize) -> usize>(source: F, bound: usize) -> (r: usize)
    requires
        call_requires(source, (bound,)),
    ensures
        call_ensures(source, (bound,), r),
{
    source(bound)
}

/// Draws a number below `bound`.
pub fn draw_below(bound: usize) -> (r: usize)
    requires
        bound > 0,
    ensures
        r < bound,
        drawn_below(bound, r),
{
    answer_within(random_below, bound)
}

} // verus!
