//! What a search amounts to as a whole: which nonces its workers try, and that the hardest hash
//! among them is found.

use vstd::prelude::*;

use crate::bytes::u64_bytes;
use crate::search::{
    advanced, best_of, better, drillx_hash, fresh_worker, improvement, law_starts_fit,
    leading_zero_bits, no_report, recorded, report_of, start_nonce, worker_next, BestView, HashView,
    ReportView, WorkerAction, WorkerEvent, WorkerPhase, WorkerReport, WorkerView, CHECK_INTERVAL,
};

verus! {

/// The nonce of a worker with stride `cores` after `k` strides from `start`.
pub open spec fn nonce_at(start: u64, cores: u64, k: nat) -> u64 {
    ((start + k * cores) % 0x1_0000_0000_0000_0000) as u64
}

/// The worker `w` after `n` rounds, each of which hashes a nonce, takes note of the outcome and
/// goes on to the next nonce.
pub open spec fn after_rounds(w: WorkerView, challenge: Seq<u8>, n: nat) -> WorkerView
    decreases n,
{
    if n == 0 {
        w
    } else {
        let before = after_rounds(w, challenge, (n - 1) as nat);
        advanced(recorded(before, drillx_hash(challenge, u64_bytes(before.nonce))))
    }
}

/// What the `k`-th nonce of worker `index` gives.
pub open spec fn outcome_at(index: u64, cores: u64, challenge: Seq<u8>, k: nat) -> Option<HashView> {
    drillx_hash(challenge, u64_bytes(nonce_at(start_nonce(index, cores) as u64, cores, k)))
}

/// A pass over one nonce, whatever the other workers and the clock say: the nonce is hashed, the
/// hash is counted once, a new best is held against that of all workers, and then the worker either
/// leaves, which it does only at a nonce at which it looks at the clock, or is one stride further.
/// Its nonce and its best are those of one round.
pub proof fn law_pass_is_one_round(
    w: WorkerView,
    challenge: Seq<u8>,
    min_difficulty: u32,
    previous: u32,
    elapsed: u64,
    global_best: u32,
)
    requires
        w.phase == WorkerPhase::Nonce,
    ensures
        ({
            let outcome = drillx_hash(challenge, u64_bytes(w.nonce));
            let (w1, a1) = worker_next(w, challenge, min_difficulty, WorkerEvent::Proceed);
            let (w2, a2) = if improvement(w, outcome) is Some {
                worker_next(w1, challenge, min_difficulty, WorkerEvent::Raised(previous))
            } else {
                (w1, a1)
            };
            let (w3, a3) = worker_next(w2, challenge, min_difficulty, WorkerEvent::Counted);
            let (w4, a4) = if w.nonce % CHECK_INTERVAL == 0 {
                worker_next(
                    w3,
                    challenge,
                    min_difficulty,
                    WorkerEvent::Looked { elapsed, global_best },
                )
            } else {
                (w3, a3)
            };
            &&& improvement(w, outcome) is Some ==> a1 is Raise
            &&& a2 == WorkerAction::CountHash
            &&& w.nonce % CHECK_INTERVAL == 0 ==> a3 == WorkerAction::Look
            &&& w4.best == after_rounds(w, challenge, 1).best
            &&& a4 is Leave || a4 is Proceed
            &&& a4 is Leave ==> {
                &&& w.nonce % CHECK_INTERVAL == 0
                &&& elapsed >= w4.cutoff_time
                &&& global_best >= min_difficulty
                &&& w4.phase == WorkerPhase::Left
            }
            &&& a4 is Proceed ==> {
                &&& w4.phase == WorkerPhase::Nonce
                &&& w4.nonce == after_rounds(w, challenge, 1).nonce
            }
        }),
{
    reveal_with_fuel(after_rounds, 2);
}

/// After `n` rounds a worker has tried exactly the first `n` nonces of its share, one stride apart.
pub proof fn law_worker_walks_its_share(
    index: u64,
    cores: u64,
    cutoff_time: u64,
    challenge: Seq<u8>,
    n: nat,
)
    requires
        index < cores,
    ensures
        ({
            let w = after_rounds(fresh_worker(index, cores, cutoff_time), challenge, n);
            &&& w.nonce == nonce_at(start_nonce(index, cores) as u64, cores, n)
            &&& w.index == index
            &&& w.cores == cores
            &&& w.cutoff_time == cutoff_time
        }),
    decreases n,
{
    let start = start_nonce(index, cores) as u64;
    if n == 0 {
        assert(0 * cores == 0) by (nonlinear_arith);
    } else {
        let m = (n - 1) as nat;
        law_worker_walks_its_share(index, cores, cutoff_time, challenge, m);
        lemma_next_nonce(start, cores, m);
    }
}

/// After `n` rounds a worker holds the first of the hardest hashes among the nonces that it has
/// tried: none of them is harder, and the held one, if it has any difficulty, is one of them, and
/// harder than every one before it.
pub proof fn law_worker_holds_the_hardest(
    index: u64,
    cores: u64,
    cutoff_time: u64,
    challenge: Seq<u8>,
    n: nat,
)
    requires
        index < cores,
    ensures
        ({
            let best = after_rounds(fresh_worker(index, cores, cutoff_time), challenge, n).best;
            &&& forall|k: nat|
                k < n && (#[trigger] outcome_at(index, cores, challenge, k)) is Some
                    ==> leading_zero_bits(outcome_at(index, cores, challenge, k)->0.h)
                    <= best.difficulty
            &&& best.difficulty > 0 ==> exists|k: nat|
                {
                    &&& k < n
                    &&& #[trigger] outcome_at(index, cores, challenge, k) == Some(best.hash)
                    &&& best.difficulty == leading_zero_bits(best.hash.h)
                    &&& best.nonce == nonce_at(start_nonce(index, cores) as u64, cores, k)
                    &&& forall|j: nat|
                        j < k && (#[trigger] outcome_at(index, cores, challenge, j)) is Some
                            ==> leading_zero_bits(outcome_at(index, cores, challenge, j)->0.h)
                            < best.difficulty
                }
        }),
    decreases n,
{
    if n > 0 {
        let m = (n - 1) as nat;
        let w0 = fresh_worker(index, cores, cutoff_time);
        law_worker_holds_the_hardest(index, cores, cutoff_time, challenge, m);
        law_worker_walks_its_share(index, cores, cutoff_time, challenge, m);
        let before = after_rounds(w0, challenge, m);
        let outcome = outcome_at(index, cores, challenge, m);
        assert(outcome == drillx_hash(challenge, u64_bytes(before.nonce)));
        let best = after_rounds(w0, challenge, n).best;
        assert(best == better(before.best, before.nonce, outcome));
        if best.difficulty > 0 {
            if improvement(before, outcome) is Some {
                assert(outcome_at(index, cores, challenge, m) == Some(best.hash));
            } else {
                let k = choose|k: nat|
                    {
                        &&& k < m
                        &&& #[trigger] outcome_at(index, cores, challenge, k) == Some(best.hash)
                        &&& best.difficulty == leading_zero_bits(best.hash.h)
                        &&& best.nonce == nonce_at(start_nonce(index, cores) as u64, cores, k)
                        &&& forall|j: nat|
                            j < k && (#[trigger] outcome_at(index, cores, challenge, j)) is Some
                                ==> leading_zero_bits(outcome_at(index, cores, challenge, j)->0.h)
                                < best.difficulty
                    };
                assert(outcome_at(index, cores, challenge, k) == Some(best.hash));
            }
        }
    }
}

/// The worker after the given events.
pub open spec fn worker_after(
    w: WorkerView,
    challenge: Seq<u8>,
    min_difficulty: u32,
    events: Seq<WorkerEvent>,
) -> WorkerView
    decreases events.len(),
{
    if events.len() == 0 {
        w
    } else {
        worker_next(
            worker_after(w, challenge, min_difficulty, events.drop_last()),
            challenge,
            min_difficulty,
            events.last(),
        ).0
    }
}

/// The number of hashes that a worker has had counted after the given events.
pub open spec fn hashes_counted(
    w: WorkerView,
    challenge: Seq<u8>,
    min_difficulty: u32,
    events: Seq<WorkerEvent>,
) -> nat
    decreases events.len(),
{
    if events.len() == 0 {
        0
    } else {
        let before = worker_after(w, challenge, min_difficulty, events.drop_last());
        let action = worker_next(before, challenge, min_difficulty, events.last()).1;
        hashes_counted(w, challenge, min_difficulty, events.drop_last()) + (if action
            == WorkerAction::CountHash {
            1nat
        } else {
            0nat
        })
    }
}

/// The best of worker `index` after its first `n` nonces.
pub open spec fn best_after(index: u64, cores: u64, challenge: Seq<u8>, n: nat) -> BestView {
    after_rounds(fresh_worker(index, cores, 0), challenge, n).best
}

/// Has the worker `w` tried the first `n` nonces of its share, no others, and does it hold what
/// that amounts to? Until it goes on, it stays at the nonce that it tried last.
#[verifier::opaque]
pub open spec fn has_tried(w: WorkerView, challenge: Seq<u8>, n: nat) -> bool {
    let start = start_nonce(w.index, w.cores) as u64;
    &&& w.best == best_after(w.index, w.cores, challenge, n)
    &&& if w.phase == WorkerPhase::Nonce {
        w.nonce == nonce_at(start, w.cores, n)
    } else {
        n > 0 && w.nonce == nonce_at(start, w.cores, (n - 1) as nat)
    }
}

/// One where a tried nonce has not been counted yet.
pub open spec fn uncounted(w: WorkerView) -> nat {
    if w.phase == WorkerPhase::GlobalBest {
        1
    } else {
        0
    }
}

/// The number of nonces that a worker has tried after the given events: those that it has had
/// counted, and the last one while that is being held against the best of all workers.
pub open spec fn nonces_tried(
    w: WorkerView,
    challenge: Seq<u8>,
    min_difficulty: u32,
    events: Seq<WorkerEvent>,
) -> nat {
    hashes_counted(w, challenge, min_difficulty, events) + uncounted(
        worker_after(w, challenge, min_difficulty, events),
    )
}

/// Whatever the other workers and the clock say, a worker has at any time tried a number of the
/// first nonces of its share, and holds what they amount to. It has had each of them counted once,
/// the last one only after it was held against the best of all workers.
pub proof fn law_worker_tries_its_share(
    index: u64,
    cores: u64,
    cutoff_time: u64,
    challenge: Seq<u8>,
    min_difficulty: u32,
    events: Seq<WorkerEvent>,
)
    requires
        index < cores,
    ensures
        ({
            let w0 = fresh_worker(index, cores, cutoff_time);
            let w = worker_after(w0, challenge, min_difficulty, events);
            &&& w.index == index
            &&& w.cores == cores
            &&& has_tried(w, challenge, nonces_tried(w0, challenge, min_difficulty, events))
        }),
    decreases events.len(),
{
    let w0 = fresh_worker(index, cores, cutoff_time);
    if events.len() == 0 {
        lemma_tried_nothing(index, cores, cutoff_time, challenge);
    } else {
        let front = events.drop_last();
        law_worker_tries_its_share(index, cores, cutoff_time, challenge, min_difficulty, front);
        lemma_tried_step(
            worker_after(w0, challenge, min_difficulty, front),
            challenge,
            min_difficulty,
            events.last(),
            nonces_tried(w0, challenge, min_difficulty, front),
        );
    }
}

/// A worker that has not begun has tried nothing.
proof fn lemma_tried_nothing(index: u64, cores: u64, cutoff_time: u64, challenge: Seq<u8>)
    requires
        index < cores,
    ensures
        has_tried(fresh_worker(index, cores, cutoff_time), challenge, 0),
{
    reveal(has_tried);
    law_starts_fit(index, cores);
    assert(0 * cores == 0) by (nonlinear_arith);
}

/// The number of nonces tried after an event.
spec fn tried_after(w: WorkerView, e: WorkerEvent, n: nat) -> nat {
    if w.phase == WorkerPhase::Nonce && e is Proceed {
        n + 1
    } else {
        n
    }
}

/// One step of a worker, as seen by the number of nonces that it has tried.
proof fn lemma_tried_step(
    w: WorkerView,
    challenge: Seq<u8>,
    min_difficulty: u32,
    e: WorkerEvent,
    n: nat,
)
    requires
        w.index < w.cores,
        has_tried(w, challenge, n),
    ensures
        ({
            let (t, action) = worker_next(w, challenge, min_difficulty, e);
            &&& t.index == w.index
            &&& t.cores == w.cores
            &&& has_tried(t, challenge, tried_after(w, e, n))
            &&& tried_after(w, e, n) + uncounted(w) == n + uncounted(t) + (if action
                == WorkerAction::CountHash {
                1nat
            } else {
                0nat
            })
        }),
{
    reveal(has_tried);
    let (t, action) = worker_next(w, challenge, min_difficulty, e);
    let start = start_nonce(w.index, w.cores) as u64;
    if w.phase == WorkerPhase::Nonce && e is Proceed {
        law_worker_walks_its_share(w.index, w.cores, 0, challenge, n);
        let rounds = after_rounds(fresh_worker(w.index, w.cores, 0), challenge, n);
        let outcome = drillx_hash(challenge, u64_bytes(w.nonce));
        assert(after_rounds(fresh_worker(w.index, w.cores, 0), challenge, n + 1) == advanced(
            recorded(rounds, outcome),
        ));
        assert(t.best == better(w.best, w.nonce, outcome));
    } else if t.phase == WorkerPhase::Nonce && action !is Ignore {
        lemma_next_nonce(start, w.cores, (n - 1) as nat);
        assert(t.nonce == advanced(w).nonce);
    }
}

/// The nonce after `k` strides, and one stride more.
proof fn lemma_next_nonce(start: u64, cores: u64, k: nat)
    ensures
        nonce_at(start, cores, k + 1) == (nonce_at(start, cores, k) + cores)
            % 0x1_0000_0000_0000_0000,
{
    assert((k + 1) * cores == k * cores + cores) by (nonlinear_arith);
    let big: int = 0x1_0000_0000_0000_0000;
    vstd::arithmetic::div_mod::lemma_add_mod_noop(start + k * cores, cores as int, big);
    vstd::arithmetic::div_mod::lemma_small_mod(cores as nat, big as nat);
}

/// The shares of two workers do not overlap: as long as each stays within the `cores`-th part of
/// all nonces that begins at its start, they never hash the same nonce, and neither wraps around.
pub proof fn law_shares_are_disjoint(cores: u64, i: u64, j: u64, k: nat, m: nat)
    requires
        i < j < cores,
        k * cores < u64::MAX / cores,
        m * cores < u64::MAX / cores,
    ensures
        nonce_at(start_nonce(i, cores) as u64, cores, k) == start_nonce(i, cores) + k * cores,
        nonce_at(start_nonce(j, cores) as u64, cores, m) == start_nonce(j, cores) + m * cores,
        nonce_at(start_nonce(i, cores) as u64, cores, k) < nonce_at(
            start_nonce(j, cores) as u64,
            cores,
            m,
        ),
{
    let share: int = (u64::MAX / cores) as int;
    law_starts_fit(i, cores);
    law_starts_fit(j, cores);
    assert(share * cores <= u64::MAX) by (nonlinear_arith)
        requires
            cores > 0,
            share == u64::MAX as int / cores as int,
    ;
    assert(share * i + share <= share * j && share * j + share <= share * cores) by (nonlinear_arith)
        requires
            0 <= i < j < cores,
            share >= 0,
    ;
    assert(0 <= k * cores && 0 <= m * cores) by (nonlinear_arith);
}

/// The merged report is the first of the hardest: no report is harder, and where it has any
/// difficulty it is one of the reports and harder than every one before it.
pub proof fn law_best_of_is_hardest(reports: Seq<WorkerReport>)
    ensures
        forall|i: int|
            0 <= i < reports.len() ==> (#[trigger] reports[i]).difficulty <= best_of(
                reports,
            ).difficulty,
        best_of(reports).difficulty > 0 ==> exists|i: int|
            {
                &&& 0 <= i < reports.len()
                &&& (#[trigger] reports[i])@ == best_of(reports)
                &&& forall|j: int|
                    0 <= j < i ==> (#[trigger] reports[j]).difficulty < best_of(reports).difficulty
            },
        best_of(reports).difficulty == 0 ==> best_of(reports) == no_report(),
    decreases reports.len(),
{
    if reports.len() > 0 {
        let front = reports.drop_last();
        law_best_of_is_hardest(front);
        assert forall|i: int| 0 <= i < reports.len() implies (#[trigger] reports[i]).difficulty
            <= best_of(reports).difficulty by {
            if i < front.len() {
                assert(front[i] == reports[i]);
            }
        }
        if best_of(reports).difficulty > 0 {
            if reports.last().difficulty > best_of(front).difficulty {
                let i = reports.len() - 1;
                assert(reports[i]@ == best_of(reports));
                assert forall|j: int| 0 <= j < i implies (#[trigger] reports[j]).difficulty
                    < best_of(reports).difficulty by {
                    assert(front[j] == reports[j]);
                }
            } else {
                let i = choose|i: int|
                    {
                        &&& 0 <= i < front.len()
                        &&& (#[trigger] front[i])@ == best_of(front)
                        &&& forall|j: int|
                            0 <= j < i ==> (#[trigger] front[j]).difficulty < best_of(
                                front,
                            ).difficulty
                    };
                assert(reports[i]@ == best_of(reports));
                assert forall|j: int| 0 <= j < i implies (#[trigger] reports[j]).difficulty
                    < best_of(reports).difficulty by {
                    assert(front[j] == reports[j]);
                }
            }
        }
    }
}

/// Is `report` what worker `index` reports after it has tried the first `n` nonces of its share?
pub open spec fn reports_on(
    report: ReportView,
    index: u64,
    cores: u64,
    challenge: Seq<u8>,
    n: nat,
) -> bool {
    report == report_of(best_after(index, cores, challenge, n))
}

/// The search finds the hardest hash: where each worker reports on the nonces that it has tried, in
/// whatever order the reports come in, no nonce that any worker has tried gives a harder hash than
/// the merged report, and what that holds, if it has any difficulty, is the hash that one of those
/// nonces gives.
pub proof fn law_search_finds_the_hardest(
    reports: Seq<WorkerReport>,
    workers: Seq<u64>,
    tried: Seq<nat>,
    cores: u64,
    challenge: Seq<u8>,
)
    requires
        workers.len() == reports.len(),
        tried.len() == reports.len(),
        forall|i: int| 0 <= i < workers.len() ==> #[trigger] workers[i] < cores,
        forall|i: int|
            0 <= i < reports.len() ==> reports_on(
                (#[trigger] reports[i])@,
                workers[i],
                cores,
                challenge,
                tried[i],
            ),
    ensures
        forall|i: int, k: nat|
            0 <= i < reports.len() && k < tried[i] && (#[trigger] outcome_at(
                workers[i],
                cores,
                challenge,
                k,
            )) is Some ==> leading_zero_bits(outcome_at(workers[i], cores, challenge, k)->0.h)
                <= best_of(reports).difficulty,
        best_of(reports).difficulty > 0 ==> exists|i: int, k: nat|
            {
                &&& 0 <= i < reports.len()
                &&& k < tried[i]
                &&& #[trigger] outcome_at(workers[i], cores, challenge, k) == Some(
                    best_of(reports).hash,
                )
                &&& best_of(reports).difficulty == leading_zero_bits(best_of(reports).hash.h)
                &&& best_of(reports).nonce == u64_bytes(
                    nonce_at(start_nonce(workers[i], cores) as u64, cores, k),
                )
            },
{
    law_best_of_is_hardest(reports);
    assert forall|i: int, k: nat|
        0 <= i < reports.len() && k < tried[i] && (#[trigger] outcome_at(
            workers[i],
            cores,
            challenge,
            k,
        )) is Some implies leading_zero_bits(outcome_at(workers[i], cores, challenge, k)->0.h)
        <= best_of(reports).difficulty by {
        assert(reports[i].difficulty <= best_of(reports).difficulty);
        law_worker_holds_the_hardest(workers[i], cores, 0, challenge, tried[i]);
    }
    if best_of(reports).difficulty > 0 {
        let i = choose|i: int|
            {
                &&& 0 <= i < reports.len()
                &&& (#[trigger] reports[i])@ == best_of(reports)
                &&& forall|j: int|
                    0 <= j < i ==> (#[trigger] reports[j]).difficulty < best_of(reports).difficulty
            };
        law_worker_holds_the_hardest(workers[i], cores, 0, challenge, tried[i]);
        let best = best_after(workers[i], cores, challenge, tried[i]);
        let k = choose|k: nat|
            {
                &&& k < tried[i]
                &&& #[trigger] outcome_at(workers[i], cores, challenge, k) == Some(best.hash)
                &&& best.nonce == nonce_at(start_nonce(workers[i], cores) as u64, cores, k)
            };
        assert(outcome_at(workers[i], cores, challenge, k) == Some(best_of(reports).hash));
    }
}

} // verus!
