//! What the workers of a search share: the best difficulty of all of them. A search goes on until
//! that is high enough, and a worker that raises it may search longer.

use vstd::prelude::*;

use crate::search::{
    best_of, drillx_hash, fresh_worker, improvement, leading_zero_bits, report_of, within_u32,
    worker_next, WorkerAction, WorkerEvent, WorkerPhase, WorkerReport, WorkerView, BONUS_SECONDS,
};
use crate::search_laws::{
    best_after, has_tried, law_best_of_is_hardest, law_search_finds_the_hardest,
    law_worker_holds_the_hardest, law_worker_tries_its_share, nonces_tried, outcome_at, reports_on,
    uncounted, worker_after,
};

verus! {

/// Does a worker raise the best difficulty of all workers to `difficulty` while the given events
/// happen?
pub open spec fn raises(
    w: WorkerView,
    challenge: Seq<u8>,
    min_difficulty: u32,
    events: Seq<WorkerEvent>,
    difficulty: u32,
) -> bool
    decreases events.len(),
{
    if events.len() == 0 {
        false
    } else {
        let before = worker_after(w, challenge, min_difficulty, events.drop_last());
        ||| raises(w, challenge, min_difficulty, events.drop_last(), difficulty)
        ||| worker_next(before, challenge, min_difficulty, events.last()).1 == WorkerAction::Raise(
            difficulty,
        )
    }
}

/// What a worker raises the best difficulty of all workers to is never above the best that it holds
/// in the end.
pub proof fn law_raised_is_at_most_the_best(
    w: WorkerView,
    challenge: Seq<u8>,
    min_difficulty: u32,
    events: Seq<WorkerEvent>,
    difficulty: u32,
)
    requires
        raises(w, challenge, min_difficulty, events, difficulty),
    ensures
        difficulty <= worker_after(w, challenge, min_difficulty, events).best.difficulty,
    decreases events.len(),
{
    let front = events.drop_last();
    if raises(w, challenge, min_difficulty, front, difficulty) {
        law_raised_is_at_most_the_best(w, challenge, min_difficulty, front, difficulty);
    }
}

/// What a worker saw when it left: the seconds since it began, and the best difficulty of all
/// workers.
pub struct Farewell {
    pub elapsed: u64,
    pub global_best: u32,
}

/// What a worker saw when it left, if it has left after the given events.
pub open spec fn farewell(
    w: WorkerView,
    challenge: Seq<u8>,
    min_difficulty: u32,
    events: Seq<WorkerEvent>,
) -> Option<Farewell>
    decreases events.len(),
{
    if events.len() == 0 || worker_after(w, challenge, min_difficulty, events).phase
        != WorkerPhase::Left {
        None
    } else if worker_after(w, challenge, min_difficulty, events.drop_last()).phase
        == WorkerPhase::Left {
        farewell(w, challenge, min_difficulty, events.drop_last())
    } else {
        match events.last() {
            WorkerEvent::Looked { elapsed, global_best } => Some(Farewell { elapsed, global_best }),
            _ => None,
        }
    }
}

/// A worker leaves only when it is shown that its time is up and that the best difficulty of all
/// workers is high enough.
pub proof fn law_worker_leaves_when_it_may(
    w: WorkerView,
    challenge: Seq<u8>,
    min_difficulty: u32,
    events: Seq<WorkerEvent>,
)
    requires
        w.phase != WorkerPhase::Left,
        worker_after(w, challenge, min_difficulty, events).phase == WorkerPhase::Left,
    ensures
        ({
            let seen = farewell(w, challenge, min_difficulty, events);
            &&& seen is Some
            &&& seen->0.elapsed >= worker_after(w, challenge, min_difficulty, events).cutoff_time
            &&& seen->0.global_best >= min_difficulty
            &&& exists|k: int|
                {
                    &&& 0 <= k < events.len()
                    &&& #[trigger] events[k] == (WorkerEvent::Looked {
                        elapsed: seen->0.elapsed,
                        global_best: seen->0.global_best,
                    })
                }
        }),
    decreases events.len(),
{
    let front = events.drop_last();
    if worker_after(w, challenge, min_difficulty, front).phase == WorkerPhase::Left {
        law_worker_leaves_when_it_may(w, challenge, min_difficulty, front);
        let seen = farewell(w, challenge, min_difficulty, events)->0;
        let k = choose|k: int|
            {
                &&& 0 <= k < front.len()
                &&& #[trigger] front[k] == (WorkerEvent::Looked {
                    elapsed: seen.elapsed,
                    global_best: seen.global_best,
                })
            };
        assert(events[k] == front[k]);
    } else {
        assert(events[events.len() - 1] == events.last());
    }
}

/// Is every best difficulty that a worker is shown zero, or one that some worker raised? So it is
/// with a number that all workers share, that begins at zero and that only they raise. `runs` are
/// the events of the workers with the indices `workers`.
#[verifier::opaque]
pub open spec fn only_raised_is_shown(
    workers: Seq<u64>,
    runs: Seq<Seq<WorkerEvent>>,
    cores: u64,
    cutoff_time: u64,
    challenge: Seq<u8>,
    min_difficulty: u32,
) -> bool {
    forall|i: int, k: int|
        0 <= i < runs.len() && 0 <= k < runs[i].len() && (#[trigger] runs[i][k]) is Looked
            && runs[i][k]->global_best > 0 ==> exists|j: int|
            {
                &&& 0 <= j < runs.len()
                &&& raises(
                    fresh_worker(#[trigger] workers[j], cores, cutoff_time),
                    challenge,
                    min_difficulty,
                    runs[j],
                    runs[i][k]->global_best,
                )
            }
}

/// Has worker `index` left after the given events, and is this what it reports?
#[verifier::opaque]
pub open spec fn has_reported(
    report: WorkerReport,
    index: u64,
    events: Seq<WorkerEvent>,
    cores: u64,
    cutoff_time: u64,
    challenge: Seq<u8>,
    min_difficulty: u32,
) -> bool {
    let w = worker_after(
        fresh_worker(index, cores, cutoff_time),
        challenge,
        min_difficulty,
        events,
    );
    w.phase == WorkerPhase::Left && report@ == report_of(w.best)
}

/// Has a search ended with these reports? Every one of the `cores` workers has left after its events
/// and reports its best.
pub open spec fn search_ended(
    reports: Seq<WorkerReport>,
    workers: Seq<u64>,
    runs: Seq<Seq<WorkerEvent>>,
    cores: u64,
    cutoff_time: u64,
    challenge: Seq<u8>,
    min_difficulty: u32,
) -> bool {
    &&& reports.len() == cores
    &&& workers.len() == cores
    &&& runs.len() == cores
    &&& forall|i: int| 0 <= i < cores ==> #[trigger] workers[i] < cores
    &&& forall|i: int|
        0 <= i < cores ==> has_reported(
            #[trigger] reports[i],
            workers[i],
            runs[i],
            cores,
            cutoff_time,
            challenge,
            min_difficulty,
        )
    &&& only_raised_is_shown(workers, runs, cores, cutoff_time, challenge, min_difficulty)
}

/// A search with at least one worker finds a hash that is hard enough, however late it gets: the
/// merged report has at least the difficulty that was asked for, and where that is not zero, its hash
/// is the one that its nonce gives.
pub proof fn law_search_is_hard_enough(
    reports: Seq<WorkerReport>,
    workers: Seq<u64>,
    runs: Seq<Seq<WorkerEvent>>,
    cores: u64,
    cutoff_time: u64,
    challenge: Seq<u8>,
    min_difficulty: u32,
)
    requires
        cores >= 1,
        search_ended(reports, workers, runs, cores, cutoff_time, challenge, min_difficulty),
    ensures
        best_of(reports).difficulty >= min_difficulty,
        best_of(reports).difficulty > 0 ==> {
            &&& drillx_hash(challenge, best_of(reports).nonce) == Some(best_of(reports).hash)
            &&& leading_zero_bits(best_of(reports).hash.h) == best_of(reports).difficulty
        },
{
    law_best_of_is_hardest(reports);
    assert(best_of(reports).difficulty >= min_difficulty) by {
        assert(has_reported(
            reports[0],
            workers[0],
            runs[0],
            cores,
            cutoff_time,
            challenge,
            min_difficulty,
        ));
        let seen = lemma_who_left_saw_enough(
            reports[0],
            workers,
            runs,
            cores,
            cutoff_time,
            challenge,
            min_difficulty,
        );
        if min_difficulty > 0 {
            let j = choose|j: int|
                {
                    &&& 0 <= j < runs.len()
                    &&& raises(
                        fresh_worker(#[trigger] workers[j], cores, cutoff_time),
                        challenge,
                        min_difficulty,
                        runs[j],
                        seen,
                    )
                };
            assert(has_reported(
                reports[j],
                workers[j],
                runs[j],
                cores,
                cutoff_time,
                challenge,
                min_difficulty,
            ));
            lemma_who_raised_reports_as_much(
                reports[j],
                workers[j],
                runs[j],
                cores,
                cutoff_time,
                challenge,
                min_difficulty,
                seen,
            );
        }
    }
    let tried = Seq::new(
        reports.len(),
        |i: int|
            nonces_tried(
                fresh_worker(workers[i], cores, cutoff_time),
                challenge,
                min_difficulty,
                runs[i],
            ),
    );
    assert forall|i: int| 0 <= i < reports.len() implies reports_on(
        (#[trigger] reports[i])@,
        workers[i],
        cores,
        challenge,
        tried[i],
    ) by {
        assert(workers[i] < cores);
        lemma_report_is_on_what_was_tried(
            reports[i],
            workers[i],
            runs[i],
            cores,
            cutoff_time,
            challenge,
            min_difficulty,
        );
    }
    law_search_finds_the_hardest(reports, workers, tried, cores, challenge);
}

/// The first worker left because it was shown a best that is high enough, and that some worker raised.
proof fn lemma_who_left_saw_enough(
    report: WorkerReport,
    workers: Seq<u64>,
    runs: Seq<Seq<WorkerEvent>>,
    cores: u64,
    cutoff_time: u64,
    challenge: Seq<u8>,
    min_difficulty: u32,
) -> (seen: u32)
    requires
        runs.len() > 0,
        has_reported(
            report,
            workers[0],
            runs[0],
            cores,
            cutoff_time,
            challenge,
            min_difficulty,
        ),
        only_raised_is_shown(workers, runs, cores, cutoff_time, challenge, min_difficulty),
    ensures
        seen >= min_difficulty,
        seen > 0 ==> exists|j: int|
            {
                &&& 0 <= j < runs.len()
                &&& raises(
                    fresh_worker(#[trigger] workers[j], cores, cutoff_time),
                    challenge,
                    min_difficulty,
                    runs[j],
                    seen,
                )
            },
{
    reveal(only_raised_is_shown);
    reveal(has_reported);
    let w0 = fresh_worker(workers[0], cores, cutoff_time);
    law_worker_leaves_when_it_may(w0, challenge, min_difficulty, runs[0]);
    let seen = farewell(w0, challenge, min_difficulty, runs[0])->0;
    let k = choose|k: int|
        {
            &&& 0 <= k < runs[0].len()
            &&& #[trigger] runs[0][k] == (WorkerEvent::Looked {
                elapsed: seen.elapsed,
                global_best: seen.global_best,
            })
        };
    assert(runs[0][k] is Looked);
    seen.global_best
}

/// A worker reports at least what it raised the best of all workers to.
proof fn lemma_who_raised_reports_as_much(
    report: WorkerReport,
    index: u64,
    events: Seq<WorkerEvent>,
    cores: u64,
    cutoff_time: u64,
    challenge: Seq<u8>,
    min_difficulty: u32,
    difficulty: u32,
)
    requires
        has_reported(report, index, events, cores, cutoff_time, challenge, min_difficulty),
        raises(
            fresh_worker(index, cores, cutoff_time),
            challenge,
            min_difficulty,
            events,
            difficulty,
        ),
    ensures
        report.difficulty >= difficulty,
{
    reveal(has_reported);
    law_raised_is_at_most_the_best(
        fresh_worker(index, cores, cutoff_time),
        challenge,
        min_difficulty,
        events,
        difficulty,
    );
    assert(report@.difficulty == report.difficulty);
}

/// A worker reports on the nonces that it has tried.
proof fn lemma_report_is_on_what_was_tried(
    report: WorkerReport,
    index: u64,
    events: Seq<WorkerEvent>,
    cores: u64,
    cutoff_time: u64,
    challenge: Seq<u8>,
    min_difficulty: u32,
)
    requires
        index < cores,
        has_reported(report, index, events, cores, cutoff_time, challenge, min_difficulty),
    ensures
        reports_on(
            report@,
            index,
            cores,
            challenge,
            nonces_tried(
                fresh_worker(index, cores, cutoff_time),
                challenge,
                min_difficulty,
                events,
            ),
        ),
{
    reveal(has_reported);
    reveal(has_tried);
    law_worker_tries_its_share(index, cores, cutoff_time, challenge, min_difficulty, events);
}

/// One where an event grants the worker `w` more time.
pub open spec fn bonus(w: WorkerView, e: WorkerEvent) -> nat {
    match e {
        WorkerEvent::Raised(previous) => if w.phase == WorkerPhase::GlobalBest && w.best.difficulty
            > previous {
            1
        } else {
            0
        },
        _ => 0,
    }
}

/// The number of times that a worker was granted more time while the given events happen.
pub open spec fn bonuses(
    w: WorkerView,
    challenge: Seq<u8>,
    min_difficulty: u32,
    events: Seq<WorkerEvent>,
) -> nat
    decreases events.len(),
{
    if events.len() == 0 {
        0
    } else {
        let before = worker_after(w, challenge, min_difficulty, events.drop_last());
        bonuses(w, challenge, min_difficulty, events.drop_last()) + bonus(before, events.last())
    }
}

/// Each time that a new best of a worker beats that of all workers before, the worker searches ten
/// seconds longer. So where nothing wraps around, it leaves no sooner than ten seconds for each of
/// them after the time that it was given.
pub proof fn law_each_overall_best_prolongs_the_search(
    w: WorkerView,
    challenge: Seq<u8>,
    min_difficulty: u32,
    events: Seq<WorkerEvent>,
)
    requires
        w.phase != WorkerPhase::Left,
    ensures
        ({
            let t = worker_after(w, challenge, min_difficulty, events);
            let end = w.cutoff_time + BONUS_SECONDS * bonuses(w, challenge, min_difficulty, events);
            &&& t.cutoff_time == end % 0x1_0000_0000_0000_0000
            &&& t.phase == WorkerPhase::Left && end <= u64::MAX ==> {
                &&& farewell(w, challenge, min_difficulty, events) is Some
                &&& farewell(w, challenge, min_difficulty, events)->0.elapsed >= end
            }
        }),
{
    lemma_cutoff_after(w, challenge, min_difficulty, events);
    if worker_after(w, challenge, min_difficulty, events).phase == WorkerPhase::Left {
        law_worker_leaves_when_it_may(w, challenge, min_difficulty, events);
    }
}

/// The time of a worker after one event.
proof fn lemma_cutoff_step(w: WorkerView, challenge: Seq<u8>, min_difficulty: u32, e: WorkerEvent)
    ensures
        worker_next(w, challenge, min_difficulty, e).0.cutoff_time == (w.cutoff_time + BONUS_SECONDS
            * bonus(w, e)) % 0x1_0000_0000_0000_0000,
{
}

/// Two grants of time, one after the other.
proof fn lemma_bonuses_add_up(start: int, earlier: int, later: int)
    ensures
        ((start + BONUS_SECONDS * earlier) % 0x1_0000_0000_0000_0000 + BONUS_SECONDS * later)
            % 0x1_0000_0000_0000_0000 == (start + BONUS_SECONDS * (earlier + later))
            % 0x1_0000_0000_0000_0000,
{
    vstd::arithmetic::div_mod::lemma_add_mod_noop_right(
        BONUS_SECONDS * later,
        start + BONUS_SECONDS * earlier,
        0x1_0000_0000_0000_0000,
    );
}

/// The time of a worker after the given events.
proof fn lemma_cutoff_after(
    w: WorkerView,
    challenge: Seq<u8>,
    min_difficulty: u32,
    events: Seq<WorkerEvent>,
)
    ensures
        worker_after(w, challenge, min_difficulty, events).cutoff_time == (w.cutoff_time
            + BONUS_SECONDS * bonuses(w, challenge, min_difficulty, events))
            % 0x1_0000_0000_0000_0000,
    decreases events.len(),
{
    if events.len() > 0 {
        let front = events.drop_last();
        let before = worker_after(w, challenge, min_difficulty, front);
        lemma_cutoff_after(w, challenge, min_difficulty, front);
        lemma_cutoff_step(before, challenge, min_difficulty, events.last());
        lemma_bonuses_add_up(
            w.cutoff_time as int,
            bonuses(w, challenge, min_difficulty, front) as int,
            bonus(before, events.last()) as int,
        );
    }
}

/// Is the `k`-th nonce of worker `index` a new best: does it give a hash of some difficulty, and is
/// that above the difficulty of every nonce before?
pub open spec fn is_record(index: u64, cores: u64, challenge: Seq<u8>, k: nat) -> bool {
    let outcome = outcome_at(index, cores, challenge, k);
    &&& outcome is Some
    &&& leading_zero_bits(outcome->0.h) > 0
    &&& forall|j: nat|
        j < k && (#[trigger] outcome_at(index, cores, challenge, j)) is Some ==> leading_zero_bits(
            outcome_at(index, cores, challenge, j)->0.h,
        ) < leading_zero_bits(outcome->0.h)
}

/// The number of new bests among the first `n` nonces of worker `index`.
pub open spec fn records(index: u64, cores: u64, challenge: Seq<u8>, n: nat) -> nat
    decreases n,
{
    if n == 0 {
        0
    } else {
        records(index, cores, challenge, (n - 1) as nat) + (if is_record(
            index,
            cores,
            challenge,
            (n - 1) as nat,
        ) {
            1nat
        } else {
            0nat
        })
    }
}

/// A new best is what improves on the best of the nonces before.
proof fn lemma_record_is_improvement(
    w: WorkerView,
    index: u64,
    cores: u64,
    challenge: Seq<u8>,
    k: nat,
)
    requires
        index < cores,
        w.best == best_after(index, cores, challenge, k),
    ensures
        is_record(index, cores, challenge, k) <==> improvement(
            w,
            outcome_at(index, cores, challenge, k),
        ) is Some,
{
    law_worker_holds_the_hardest(index, cores, 0, challenge, k);
}

/// What the best difficulty of all workers is after the given events of a worker that is the only one
/// to raise it.
pub open spec fn raised_alone(
    w: WorkerView,
    challenge: Seq<u8>,
    min_difficulty: u32,
    events: Seq<WorkerEvent>,
) -> u32
    decreases events.len(),
{
    if events.len() == 0 {
        0
    } else {
        let before = worker_after(w, challenge, min_difficulty, events.drop_last());
        let previous = raised_alone(w, challenge, min_difficulty, events.drop_last());
        if before.phase == WorkerPhase::GlobalBest && events.last() is Raised && within_u32(
            before.best.difficulty,
        ) > previous {
            within_u32(before.best.difficulty)
        } else {
            previous
        }
    }
}

/// Is a worker told, each time that it raises the best difficulty of all workers, what it raised
/// that to before? So it is with a worker that searches alone.
pub open spec fn searches_alone(
    w: WorkerView,
    challenge: Seq<u8>,
    min_difficulty: u32,
    events: Seq<WorkerEvent>,
) -> bool
    decreases events.len(),
{
    events.len() == 0 || {
        let before = worker_after(w, challenge, min_difficulty, events.drop_last());
        &&& searches_alone(w, challenge, min_difficulty, events.drop_last())
        &&& before.phase == WorkerPhase::GlobalBest && events.last() is Raised ==> events.last()
            == WorkerEvent::Raised(
            raised_alone(w, challenge, min_difficulty, events.drop_last()),
        )
    }
}

/// One step of a worker that searches alone.
proof fn lemma_alone(
    index: u64,
    cores: u64,
    cutoff_time: u64,
    challenge: Seq<u8>,
    min_difficulty: u32,
    events: Seq<WorkerEvent>,
)
    requires
        index < cores,
        searches_alone(
            fresh_worker(index, cores, cutoff_time),
            challenge,
            min_difficulty,
            events,
        ),
    ensures
        ({
            let w0 = fresh_worker(index, cores, cutoff_time);
            let w = worker_after(w0, challenge, min_difficulty, events);
            let raised = raised_alone(w0, challenge, min_difficulty, events);
            let n = nonces_tried(w0, challenge, min_difficulty, events);
            &&& w.phase == WorkerPhase::GlobalBest ==> raised < w.best.difficulty
            &&& w.phase != WorkerPhase::GlobalBest ==> raised == within_u32(w.best.difficulty)
            &&& bonuses(w0, challenge, min_difficulty, events) + uncounted(w) == records(
                index,
                cores,
                challenge,
                n,
            )
        }),
    decreases events.len(),
{
    let w0 = fresh_worker(index, cores, cutoff_time);
    if events.len() > 0 {
        let front = events.drop_last();
        let before = worker_after(w0, challenge, min_difficulty, front);
        let m = nonces_tried(w0, challenge, min_difficulty, front);
        lemma_alone(index, cores, cutoff_time, challenge, min_difficulty, front);
        law_worker_tries_its_share(index, cores, cutoff_time, challenge, min_difficulty, front);
        if before.phase == WorkerPhase::Nonce && events.last() is Proceed {
            assert(before.best == best_after(index, cores, challenge, m) && drillx_hash(
                challenge,
                crate::bytes::u64_bytes(before.nonce),
            ) == outcome_at(index, cores, challenge, m)) by {
                reveal(has_tried);
            }
            lemma_record_is_improvement(before, index, cores, challenge, m);
            assert(nonces_tried(w0, challenge, min_difficulty, events) == m + 1);
        } else {
            assert(nonces_tried(w0, challenge, min_difficulty, events) == m);
        }
    }
}

/// A worker that searches alone is granted ten more seconds for every new best among the nonces that
/// it tries. So where nothing wraps around, it leaves no sooner than ten seconds for each of them
/// after the time that it was given.
pub proof fn law_every_new_best_prolongs_a_lone_search(
    index: u64,
    cores: u64,
    cutoff_time: u64,
    challenge: Seq<u8>,
    min_difficulty: u32,
    events: Seq<WorkerEvent>,
)
    requires
        index < cores,
        searches_alone(
            fresh_worker(index, cores, cutoff_time),
            challenge,
            min_difficulty,
            events,
        ),
        worker_after(
            fresh_worker(index, cores, cutoff_time),
            challenge,
            min_difficulty,
            events,
        ).phase == WorkerPhase::Left,
    ensures
        ({
            let w0 = fresh_worker(index, cores, cutoff_time);
            let n = nonces_tried(w0, challenge, min_difficulty, events);
            let end = cutoff_time + BONUS_SECONDS * records(index, cores, challenge, n);
            &&& worker_after(w0, challenge, min_difficulty, events).cutoff_time == end
                % 0x1_0000_0000_0000_0000
            &&& end <= u64::MAX ==> {
                &&& farewell(w0, challenge, min_difficulty, events) is Some
                &&& farewell(w0, challenge, min_difficulty, events)->0.elapsed >= end
            }
        }),
{
    let w0 = fresh_worker(index, cores, cutoff_time);
    lemma_alone(index, cores, cutoff_time, challenge, min_difficulty, events);
    law_each_overall_best_prolongs_the_search(w0, challenge, min_difficulty, events);
}

} // verus!
