//! What a worker of a search does with each thing that happens to it.

use vstd::arithmetic::power2::pow2;
use vstd::prelude::*;

use crate::bytes::u64_bytes;
use crate::host::enough_for;
use crate::search::{
    advanced, byte_zero_bits, drillx_hash, fresh_worker, improvement, law_starts_fit,
    leading_zero_bits, leaves, no_hash, no_report, outcome_view, prolonged, recorded, report_of,
    start_nonce, widened, worker_next, BestView, DrillxHash, HashView, Worker, WorkerAction,
    WorkerEvent, WorkerPhase, WorkerReport, WorkerView,
};

verus! {

/// The zero bits at the front of a byte string: all bytes before the first that is not zero count
/// eight each, and that byte is below `2^(8 - k)` and not below `2^(7 - k)`, where `k` is what is left
/// of the count. A string of zeros counts all its bits.
pub proof fn law_leading_zeros(zeros: Seq<u8>, first: u8, rest: Seq<u8>) -> (k: nat)
    requires
        forall|i: int| 0 <= i < zeros.len() ==> #[trigger] zeros[i] == 0,
        first != 0,
    ensures
        leading_zero_bits(zeros) == 8 * zeros.len(),
        leading_zero_bits(zeros + seq![first] + rest) == 8 * zeros.len() + k,
        k < 8,
        pow2((7 - k) as nat) <= first < pow2((8 - k) as nat),
    decreases zeros.len(),
{
    let all = zeros + seq![first] + rest;
    if zeros.len() == 0 {
        vstd::arithmetic::power2::lemma2_to64();
        assert(all[0] == first);
        byte_zero_bits(first)
    } else {
        let fewer = zeros.skip(1);
        assert forall|i: int| 0 <= i < fewer.len() implies #[trigger] fewer[i] == 0 by {
            assert(fewer[i] == zeros[i + 1]);
        }
        assert(all[0] == 0 && zeros[0] == 0);
        assert(all.skip(1) =~= fewer + seq![first] + rest);
        law_leading_zeros(fewer, first, rest)
    }
}

/// The shares of the nonces: the first worker starts at nonce 0, each of the others one share after
/// the one before it, and a share is the largest of which all workers can have one.
pub proof fn law_starts_are_one_share_apart(index: u64, cores: u64) -> (share: int)
    requires
        index + 1 < cores,
    ensures
        start_nonce(0, cores) == 0,
        start_nonce((index + 1) as u64, cores) == start_nonce(index, cores) + share,
        share * cores <= 0xffff_ffff_ffff_ffff < (share + 1) * cores,
{
    let share: int = (u64::MAX / cores) as int;
    assert(share * (index + 1) == share * index + share) by (nonlinear_arith);
    assert(share * 0 == 0) by (nonlinear_arith);
    assert(share * cores <= u64::MAX < (share + 1) * cores) by (nonlinear_arith)
        requires
            cores > 0,
            share == u64::MAX as int / cores as int,
    ;
    share
}

/// The first worker starts at nonce 0, also where it is the only one.
pub proof fn law_first_worker_starts_at_zero(cores: u64)
    requires
        cores >= 1,
    ensures
        start_nonce(0, cores) == 0,
{
    assert((u64::MAX / cores) * 0 == 0) by (nonlinear_arith);
}

/// A hash that is harder than the best becomes the best, with the nonce that it comes from; any other
/// leaves the worker as it is, and so does a nonce without a hash.
pub proof fn law_recording_keeps_the_harder(w: WorkerView, hash: HashView)
    ensures
        ({
            let t = recorded(w, Some(hash));
            &&& leading_zero_bits(hash.h) > w.best.difficulty ==> {
                &&& t.best.nonce == w.nonce
                &&& t.best.hash == hash
                &&& t.best.difficulty == leading_zero_bits(hash.h)
                &&& t == WorkerView { best: t.best, ..w }
                &&& improvement(w, Some(hash)) == Some(leading_zero_bits(hash.h))
            }
            &&& leading_zero_bits(hash.h) <= w.best.difficulty ==> t == w && improvement(
                w,
                Some(hash),
            ) is None
            &&& recorded(w, None) == w && improvement(w, None) is None
        }),
{
}

/// A best that beats that of all workers before gives ten more seconds, around 2^64, to any worker;
/// and any worker strides as far as there are workers, around 2^64. Nothing else changes.
pub proof fn law_bonus_and_stride(w: WorkerView, previous: u32)
    ensures
        ({
            let t = prolonged(w, previous);
            &&& t == WorkerView { cutoff_time: t.cutoff_time, ..w }
            &&& w.best.difficulty > previous ==> (t.cutoff_time - w.cutoff_time - 10)
                % 0x1_0000_0000_0000_0000 == 0
            &&& w.best.difficulty <= previous ==> t.cutoff_time == w.cutoff_time
        }),
        ({
            let t = advanced(w);
            &&& t == WorkerView { nonce: t.nonce, ..w }
            &&& (t.nonce - w.nonce - w.cores) % 0x1_0000_0000_0000_0000 == 0
        }),
{
}

/// A worker begins at its start, with the time that it was given, without any hash.
pub proof fn law_worker_begins(index: u64, cores: u64, cutoff_time: u64)
    requires
        index < cores,
    ensures
        ({
            let w = fresh_worker(index, cores, cutoff_time);
            &&& w.phase == WorkerPhase::Nonce
            &&& w.index == index
            &&& w.cores == cores
            &&& w.cutoff_time == cutoff_time
            &&& w.nonce == start_nonce(index, cores)
            &&& w.best.nonce == start_nonce(index, cores)
            &&& w.best.difficulty == 0
            &&& w.best.hash == no_hash()
        }),
{
    law_starts_fit(index, cores);
}

/// A worker that may go on hashes its nonce. A hash becomes its best exactly where it has more
/// leading zeros than the best before; then the worker raises the best of all workers to that, else
/// it has the hash counted. Nothing else changes.
pub proof fn law_hashing_keeps_the_harder(
    w: WorkerView,
    challenge: Seq<u8>,
    min_difficulty: u32,
    hash: HashView,
)
    requires
        w.phase == WorkerPhase::Nonce,
    ensures
        ({
            let (t, action) = worker_next(w, challenge, min_difficulty, WorkerEvent::Proceed);
            let outcome = drillx_hash(challenge, u64_bytes(w.nonce));
            &&& t.index == w.index && t.cores == w.cores && t.nonce == w.nonce && t.cutoff_time
                == w.cutoff_time
            &&& outcome == Some(hash) && leading_zero_bits(hash.h) > w.best.difficulty ==> {
                &&& t.phase == WorkerPhase::GlobalBest
                &&& t.best.nonce == w.nonce
                &&& t.best.hash == hash
                &&& t.best.difficulty == leading_zero_bits(hash.h)
                &&& action is Raise
                &&& leading_zero_bits(hash.h) <= 0xffff_ffff ==> action->Raise_0
                    == leading_zero_bits(hash.h)
            }
            &&& outcome is None || (outcome == Some(hash) && leading_zero_bits(hash.h)
                <= w.best.difficulty) ==> {
                &&& t.phase == WorkerPhase::Count
                &&& t.best == w.best
                &&& action == WorkerAction::CountHash
            }
        }),
{
}

/// A worker whose new best beats the one of all workers before is given ten more seconds, around
/// 2^64; any other keeps its time. Then the hash is counted. Nothing else changes.
pub proof fn law_raising_gives_ten_seconds(
    w: WorkerView,
    challenge: Seq<u8>,
    min_difficulty: u32,
    previous: u32,
)
    requires
        w.phase == WorkerPhase::GlobalBest,
    ensures
        ({
            let (t, action) = worker_next(
                w,
                challenge,
                min_difficulty,
                WorkerEvent::Raised(previous),
            );
            &&& action == WorkerAction::CountHash
            &&& t.phase == WorkerPhase::Count
            &&& t.index == w.index && t.cores == w.cores && t.nonce == w.nonce && t.best == w.best
            &&& w.best.difficulty > previous ==> (t.cutoff_time - w.cutoff_time - 10)
                % 0x1_0000_0000_0000_0000 == 0
            &&& w.best.difficulty <= previous ==> t.cutoff_time == w.cutoff_time
        }),
{
}

/// After a hash was counted, the worker looks at the clock where its nonce is a multiple of a
/// hundred; else it goes on, without a report, at the nonce that is as many further as there are
/// workers, around 2^64. Nothing else changes.
pub proof fn law_counting_goes_on_or_looks(w: WorkerView, challenge: Seq<u8>, min_difficulty: u32)
    requires
        w.phase == WorkerPhase::Count,
    ensures
        ({
            let (t, action) = worker_next(w, challenge, min_difficulty, WorkerEvent::Counted);
            &&& t.index == w.index && t.cores == w.cores && t.best == w.best && t.cutoff_time
                == w.cutoff_time
            &&& w.nonce % 100 == 0 ==> {
                &&& action == WorkerAction::Look
                &&& t.phase == WorkerPhase::Clock
                &&& t.nonce == w.nonce
            }
            &&& w.nonce % 100 != 0 ==> {
                &&& action == WorkerAction::Proceed { report: false }
                &&& t.phase == WorkerPhase::Nonce
                &&& (t.nonce - w.nonce - w.cores) % 0x1_0000_0000_0000_0000 == 0
            }
        }),
{
}

/// A worker that looks at the clock leaves at that look, whatever the number of workers, if its time
/// is up and the best of all workers is hard enough; else it goes on at the next nonce of its
/// stride. The first worker reports either way, and no other does. Nothing else changes.
pub proof fn law_worker_leaves_as_soon_as_it_may(
    w: WorkerView,
    challenge: Seq<u8>,
    min_difficulty: u32,
    elapsed: u64,
    global_best: u32,
)
    requires
        w.phase == WorkerPhase::Clock,
    ensures
        ({
            let (t, action) = worker_next(
                w,
                challenge,
                min_difficulty,
                WorkerEvent::Looked { elapsed, global_best },
            );
            &&& t.index == w.index && t.cores == w.cores && t.best == w.best && t.cutoff_time
                == w.cutoff_time
            &&& elapsed >= w.cutoff_time && global_best >= min_difficulty ==> {
                &&& action is Leave
                &&& t.phase == WorkerPhase::Left
                &&& t.nonce == w.nonce
            }
            &&& elapsed < w.cutoff_time || global_best < min_difficulty ==> {
                &&& action is Proceed
                &&& t.phase == WorkerPhase::Nonce
                &&& (t.nonce - w.nonce - w.cores) % 0x1_0000_0000_0000_0000 == 0
            }
            &&& w.index == 0 ==> action == (WorkerAction::Leave { report: true }) || action == (
            WorkerAction::Proceed { report: true })
            &&& w.index > 0 ==> action == (WorkerAction::Leave { report: false }) || action == (
            WorkerAction::Proceed { report: false })
        }),
{
}

/// Nothing else that happens to a worker changes it, and a worker that has left does nothing more.
pub proof fn law_worker_ignores_the_rest(
    w: WorkerView,
    challenge: Seq<u8>,
    min_difficulty: u32,
    e: WorkerEvent,
)
    requires
        w.phase == WorkerPhase::Nonce ==> e !is Proceed,
        w.phase == WorkerPhase::GlobalBest ==> e !is Raised,
        w.phase == WorkerPhase::Count ==> e !is Counted,
        w.phase == WorkerPhase::Clock ==> e !is Looked,
    ensures
        worker_next(w, challenge, min_difficulty, e) == (w, WorkerAction::Ignore),
{
}

/// When a worker stops depends on four numbers only: it does where its time is up and the best is
/// hard enough. One that stops would stop later too, and with a harder best.
pub proof fn law_when_a_worker_stops(
    w: WorkerView,
    elapsed: u64,
    global_best: u32,
    min_difficulty: u32,
    later: u64,
    harder: u32,
)
    ensures
        elapsed >= w.cutoff_time && global_best >= min_difficulty ==> leaves(
            w,
            elapsed,
            global_best,
            min_difficulty,
        ),
        elapsed < w.cutoff_time ==> !leaves(w, elapsed, global_best, min_difficulty),
        global_best < min_difficulty ==> !leaves(w, elapsed, global_best, min_difficulty),
        leaves(w, elapsed, global_best, min_difficulty) && later >= elapsed && harder >= global_best
            ==> leaves(w, later, harder, min_difficulty),
{
}

/// A worker reports its best: the nonce as its eight bytes, the difficulty and the hash. Without any
/// report there is no difficulty, and all bytes are zero.
pub proof fn law_report_is_the_best(best: BestView, i: int)
    ensures
        report_of(best).nonce == u64_bytes(best.nonce),
        report_of(best).difficulty == best.difficulty,
        report_of(best).hash == best.hash,
        no_report().difficulty == 0,
        no_report().hash == no_hash(),
        no_report().nonce.len() == 8,
        no_report().hash.d.len() == 16,
        no_report().hash.h.len() == 32,
        0 <= i < 8 ==> no_report().nonce[i] == 0,
        0 <= i < 16 ==> no_report().hash.d[i] == 0,
        0 <= i < 32 ==> no_report().hash.h[i] == 0,
{
}

/// What a worker, a report and a hash hold is seen as it is.
pub proof fn law_search_views(worker: Worker, report: WorkerReport, hash: DrillxHash, n: u32)
    ensures
        worker@.phase == worker.phase,
        worker@.index == worker.index,
        worker@.cores == worker.cores,
        worker@.nonce == worker.nonce,
        worker@.cutoff_time == worker.cutoff_time,
        worker@.best.nonce == worker.best_nonce,
        worker@.best.difficulty == worker.best_difficulty,
        worker@.best.hash == worker.best_hash@,
        report@.nonce == report.nonce@,
        report@.difficulty == report.difficulty,
        report@.hash == report.hash@,
        hash@.d == hash.d@,
        hash@.h == hash.h@,
        outcome_view(Some(hash)) == Some(hash@),
        outcome_view(None) is None,
        widened(Some(n)) == Some(n as nat),
        widened(None) is None,
{
}

/// As many threads as there are processors are allowed, and one more is not; what is allowed is
/// allowed with more processors and for fewer threads too.
pub proof fn law_cores_up_to_the_processors(available: usize, more: usize, cores: u64, fewer: u64)
    ensures
        cores == available ==> enough_for(available, cores),
        cores == available + 1 ==> !enough_for(available, cores),
        enough_for(available, cores) && more >= available && fewer <= cores ==> enough_for(
            more,
            fewer,
        ),
{
}

} // verus!
