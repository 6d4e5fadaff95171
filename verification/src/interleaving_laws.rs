//! The workers of a search side by side: each takes its turns in whatever order, and all share one
//! number, the best difficulty of all of them.

use vstd::prelude::*;

use crate::search::{
    best_of, drillx_hash, fresh_worker, leading_zero_bits, report_of, within_u32, WorkerEvent,
    WorkerPhase, WorkerReport, WorkerView, BONUS_SECONDS,
};
use crate::search_laws::{nonces_tried, worker_after};
use crate::shared_best_laws::{
    farewell, has_reported, law_every_new_best_prolongs_a_lone_search, law_search_is_hard_enough,
    only_raised_is_shown, raised_alone, raises, records, search_ended, searches_alone,
};

verus! {

/// A turn of a worker, `elapsed` seconds after it began.
pub struct Turn {
    pub worker: int,
    pub elapsed: u64,
}

/// What a search is asked for.
pub struct Task {
    pub cores: u64,
    pub cutoff_time: u64,
    pub challenge: Seq<u8>,
    pub min_difficulty: u32,
}

/// A search under way: the number that its workers share, and what happened to each of them.
pub struct Progress {
    pub shared: u32,
    pub runs: Seq<Seq<WorkerEvent>>,
}

/// Worker `i` after what happened to it.
#[verifier::opaque]
pub open spec fn worker_of(task: Task, p: Progress, i: int) -> WorkerView {
    worker_after(
        fresh_worker(i as u64, task.cores, task.cutoff_time),
        task.challenge,
        task.min_difficulty,
        p.runs[i],
    )
}

/// What happens to a worker in its turn: what it waits for. One that raises the shared number is
/// told what that was before, one that looks at it is told what it is.
pub open spec fn event_for(w: WorkerView, shared: u32, elapsed: u64) -> WorkerEvent {
    match w.phase {
        WorkerPhase::Nonce => WorkerEvent::Proceed,
        WorkerPhase::GlobalBest => WorkerEvent::Raised(shared),
        WorkerPhase::Count => WorkerEvent::Counted,
        WorkerPhase::Clock => WorkerEvent::Looked { elapsed, global_best: shared },
        WorkerPhase::Left => WorkerEvent::Proceed,
    }
}

/// The search after one more turn. A shared number that is raised never falls.
pub open spec fn after_turn(task: Task, p: Progress, turn: Turn) -> Progress {
    let w = worker_of(task, p, turn.worker);
    let raised = within_u32(w.best.difficulty);
    Progress {
        shared: if w.phase == WorkerPhase::GlobalBest && raised > p.shared {
            raised
        } else {
            p.shared
        },
        runs: p.runs.update(
            turn.worker,
            p.runs[turn.worker].push(event_for(w, p.shared, turn.elapsed)),
        ),
    }
}

/// The search after the given turns. The shared number begins at zero.
pub open spec fn after_turns(task: Task, turns: Seq<Turn>) -> Progress
    decreases turns.len(),
{
    if turns.len() == 0 {
        Progress { shared: 0, runs: Seq::new(task.cores as nat, |i: int| Seq::empty()) }
    } else {
        after_turn(task, after_turns(task, turns.drop_last()), turns.last())
    }
}

/// Is every turn that of a worker of the search?
pub open spec fn in_range(task: Task, turns: Seq<Turn>) -> bool {
    forall|i: int| 0 <= i < turns.len() ==> 0 <= (#[trigger] turns[i]).worker < task.cores
}

/// The indices of the workers, in order.
pub open spec fn indices(cores: u64) -> Seq<u64> {
    Seq::new(cores as nat, |i: int| i as u64)
}

/// Did worker `i` raise the shared number to `difficulty`?
pub open spec fn raised_by(task: Task, p: Progress, i: int, difficulty: u32) -> bool {
    raises(
        fresh_worker(i as u64, task.cores, task.cutoff_time),
        task.challenge,
        task.min_difficulty,
        p.runs[i],
        difficulty,
    )
}

/// A worker that waits for the best of all workers has just raised that to its own.
proof fn lemma_waiting_has_raised(
    w: WorkerView,
    challenge: Seq<u8>,
    min_difficulty: u32,
    events: Seq<WorkerEvent>,
)
    requires
        w.phase == WorkerPhase::Nonce,
        worker_after(w, challenge, min_difficulty, events).phase == WorkerPhase::GlobalBest,
    ensures
        raises(
            w,
            challenge,
            min_difficulty,
            events,
            within_u32(worker_after(w, challenge, min_difficulty, events).best.difficulty),
        ),
    decreases events.len(),
{
    let front = events.drop_last();
    let before = worker_after(w, challenge, min_difficulty, front);
    if before.phase == WorkerPhase::GlobalBest {
        lemma_waiting_has_raised(w, challenge, min_difficulty, front);
    }
}

/// What was raised stays raised.
proof fn lemma_raised_stays(task: Task, p: Progress, turn: Turn, i: int, difficulty: u32)
    requires
        p.runs.len() == task.cores,
        0 <= turn.worker < task.cores,
        0 <= i < task.cores,
        raised_by(task, p, i, difficulty),
    ensures
        raised_by(task, after_turn(task, p, turn), i, difficulty),
{
    let q = after_turn(task, p, turn);
    if i == turn.worker {
        assert(q.runs[i].drop_last() =~= p.runs[i]);
    }
}

/// Is the shared number zero, or one that a worker raised, and so is every one that a worker was
/// shown?
#[verifier::opaque]
spec fn honest(task: Task, p: Progress) -> bool {
    &&& p.runs.len() == task.cores
    &&& p.shared > 0 ==> exists|j: int| 0 <= j < task.cores && #[trigger] raised_by(task, p, j, p.shared)
    &&& forall|i: int, k: int|
        0 <= i < task.cores && 0 <= k < p.runs[i].len() && (#[trigger] p.runs[i][k]) is Looked
            && p.runs[i][k]->global_best > 0 ==> exists|j: int|
            0 <= j < task.cores && #[trigger] raised_by(task, p, j, p.runs[i][k]->global_best)
}

/// A turn keeps the shared number honest.
proof fn lemma_turn_is_honest(task: Task, p: Progress, turn: Turn)
    requires
        honest(task, p),
        0 <= turn.worker < task.cores,
    ensures
        honest(task, after_turn(task, p, turn)),
{
    reveal(honest);
    reveal(worker_of);
    let q = after_turn(task, p, turn);
    let m = turn.worker;
    let w = worker_of(task, p, m);
    let e = event_for(w, p.shared, turn.elapsed);
    let own = within_u32(w.best.difficulty);
    if q.shared > 0 {
        if w.phase == WorkerPhase::GlobalBest && own > p.shared {
            lemma_waiting_has_raised(
                fresh_worker(m as u64, task.cores, task.cutoff_time),
                task.challenge,
                task.min_difficulty,
                p.runs[m],
            );
            assert(raised_by(task, p, m, own));
            lemma_raised_stays(task, p, turn, m, own);
        } else {
            let j = choose|j: int|
                0 <= j < task.cores && #[trigger] raised_by(task, p, j, p.shared);
            lemma_raised_stays(task, p, turn, j, p.shared);
        }
    }
    assert forall|i: int, k: int|
        0 <= i < task.cores && 0 <= k < q.runs[i].len() && (#[trigger] q.runs[i][k]) is Looked
            && q.runs[i][k]->global_best > 0 implies exists|j: int|
        0 <= j < task.cores && #[trigger] raised_by(task, q, j, q.runs[i][k]->global_best) by {
        let shown = q.runs[i][k]->global_best;
        if i == m && k == p.runs[m].len() {
            assert(q.runs[i][k] == e);
            let j = choose|j: int|
                0 <= j < task.cores && #[trigger] raised_by(task, p, j, p.shared);
            lemma_raised_stays(task, p, turn, j, shown);
        } else {
            assert(q.runs[i][k] == p.runs[i][k]);
            let j = choose|j: int| 0 <= j < task.cores && #[trigger] raised_by(task, p, j, shown);
            lemma_raised_stays(task, p, turn, j, shown);
        }
    }
}

/// The shared number is honest after any turns.
proof fn lemma_turns_are_honest(task: Task, turns: Seq<Turn>)
    requires
        in_range(task, turns),
    ensures
        honest(task, after_turns(task, turns)),
    decreases turns.len(),
{
    if turns.len() > 0 {
        let front = turns.drop_last();
        assert forall|i: int| 0 <= i < front.len() implies 0 <= (#[trigger] front[i]).worker
            < task.cores by {
            assert(front[i] == turns[i]);
        }
        lemma_turns_are_honest(task, front);
        assert(turns[turns.len() - 1] == turns.last());
        lemma_turn_is_honest(task, after_turns(task, front), turns.last());
    } else {
        reveal(honest);
    }
}

/// In whatever order the workers take their turns, each is shown zero or what one of them raised.
pub proof fn law_only_raised_is_shown(task: Task, turns: Seq<Turn>)
    requires
        in_range(task, turns),
    ensures
        only_raised_is_shown(
            indices(task.cores),
            after_turns(task, turns).runs,
            task.cores,
            task.cutoff_time,
            task.challenge,
            task.min_difficulty,
        ),
{
    reveal(honest);
    reveal(only_raised_is_shown);
    lemma_turns_are_honest(task, turns);
    let p = after_turns(task, turns);
    let workers = indices(task.cores);
    assert forall|i: int, k: int|
        0 <= i < p.runs.len() && 0 <= k < p.runs[i].len() && (#[trigger] p.runs[i][k]) is Looked
            && p.runs[i][k]->global_best > 0 implies exists|j: int|
        {
            &&& 0 <= j < p.runs.len()
            &&& raises(
                fresh_worker(#[trigger] workers[j], task.cores, task.cutoff_time),
                task.challenge,
                task.min_difficulty,
                p.runs[j],
                p.runs[i][k]->global_best,
            )
        } by {
        let j = choose|j: int|
            0 <= j < task.cores && #[trigger] raised_by(task, p, j, p.runs[i][k]->global_best);
        assert(workers[j] == j as u64);
    }
}

/// Has a search ended after the given turns, and did its workers report in the given order? Every
/// worker has left, and each reports its best once.
pub open spec fn reported(
    task: Task,
    turns: Seq<Turn>,
    order: Seq<u64>,
    reports: Seq<WorkerReport>,
) -> bool {
    let p = after_turns(task, turns);
    &&& reports.len() == task.cores
    &&& order.len() == task.cores
    &&& order.no_duplicates()
    &&& forall|k: int| 0 <= k < order.len() ==> #[trigger] order[k] < task.cores
    &&& forall|i: int|
        0 <= i < task.cores ==> (#[trigger] worker_of(task, p, i)).phase == WorkerPhase::Left
    &&& forall|k: int|
        0 <= k < reports.len() ==> (#[trigger] reports[k])@ == report_of(
            worker_of(task, p, order[k] as int).best,
        )
}

/// Distinct indices of all workers leave none out.
proof fn lemma_everyone_reports(order: Seq<u64>, cores: u64, i: u64)
    requires
        order.len() == cores,
        order.no_duplicates(),
        forall|k: int| 0 <= k < order.len() ==> #[trigger] order[k] < cores,
        i < cores,
    ensures
        exists|k: int| 0 <= k < order.len() && #[trigger] order[k] == i,
{
    let all = vstd::set_lib::set_int_range(0, cores as int);
    let seen = order.map_values(|n: u64| n as int);
    vstd::set_lib::lemma_int_range(0, cores as int);
    assert(seen.no_duplicates());
    seen.unique_seq_to_set();
    assert(seen.to_set().subset_of(all));
    vstd::set_lib::lemma_len_subset(seen.to_set(), all);
    assert(seen.to_set() =~= all) by {
        vstd::set_lib::lemma_subset_equality(seen.to_set(), all);
    }
    assert(seen.to_set().contains(i as int));
    let k = choose|k: int| 0 <= k < seen.len() && seen[k] == i as int;
    assert(order[k] == i);
}

/// What happened to the workers, in the order in which they report.
spec fn reordered(p: Progress, order: Seq<u64>) -> Seq<Seq<WorkerEvent>> {
    Seq::new(order.len(), |k: int| p.runs[order[k] as int])
}

/// The order of the reports does not matter for what the workers were shown.
proof fn lemma_reordered_is_honest(task: Task, p: Progress, order: Seq<u64>)
    requires
        honest(task, p),
        order.len() == task.cores,
        order.no_duplicates(),
        forall|k: int| 0 <= k < order.len() ==> #[trigger] order[k] < task.cores,
    ensures
        only_raised_is_shown(
            order,
            reordered(p, order),
            task.cores,
            task.cutoff_time,
            task.challenge,
            task.min_difficulty,
        ),
{
    reveal(honest);
    reveal(only_raised_is_shown);
    let runs = reordered(p, order);
    assert forall|i: int, k: int|
        0 <= i < runs.len() && 0 <= k < runs[i].len() && (#[trigger] runs[i][k]) is Looked
            && runs[i][k]->global_best > 0 implies exists|j: int|
        {
            &&& 0 <= j < runs.len()
            &&& raises(
                fresh_worker(#[trigger] order[j], task.cores, task.cutoff_time),
                task.challenge,
                task.min_difficulty,
                runs[j],
                runs[i][k]->global_best,
            )
        } by {
        assert(order[i] < task.cores);
        assert(p.runs[order[i] as int][k] == runs[i][k]);
        let shown = runs[i][k]->global_best;
        let j = choose|j: int| 0 <= j < task.cores && #[trigger] raised_by(task, p, j, shown);
        lemma_everyone_reports(order, task.cores, j as u64);
        let at = choose|at: int| 0 <= at < order.len() && #[trigger] order[at] == j as u64;
        assert(runs[at] == p.runs[j]);
    }
}

/// Worker `order[k]` has left, and reports its best.
proof fn lemma_one_has_left(
    task: Task,
    p: Progress,
    order: Seq<u64>,
    report: WorkerReport,
    k: int,
)
    requires
        0 <= k < order.len(),
        worker_of(task, p, order[k] as int).phase == WorkerPhase::Left,
        report@ == report_of(worker_of(task, p, order[k] as int).best),
    ensures
        has_reported(
            report,
            order[k],
            reordered(p, order)[k],
            task.cores,
            task.cutoff_time,
            task.challenge,
            task.min_difficulty,
        ),
{
    reveal(has_reported);
    reveal(worker_of);
}

/// A search that has ended after turns has ended.
proof fn lemma_reported_has_ended(
    task: Task,
    turns: Seq<Turn>,
    order: Seq<u64>,
    reports: Seq<WorkerReport>,
)
    requires
        in_range(task, turns),
        reported(task, turns, order, reports),
    ensures
        search_ended(
            reports,
            order,
            reordered(after_turns(task, turns), order),
            task.cores,
            task.cutoff_time,
            task.challenge,
            task.min_difficulty,
        ),
{
    let p = after_turns(task, turns);
    let runs = reordered(p, order);
    lemma_turns_are_honest(task, turns);
    lemma_reordered_is_honest(task, p, order);
    assert forall|k: int| 0 <= k < task.cores implies has_reported(
        #[trigger] reports[k],
        order[k],
        runs[k],
        task.cores,
        task.cutoff_time,
        task.challenge,
        task.min_difficulty,
    ) by {
        assert(order[k] < task.cores);
        assert(worker_of(task, p, order[k] as int).phase == WorkerPhase::Left);
        lemma_one_has_left(task, p, order, reports[k], k);
    }
}

/// A search finds a hash that is hard enough, in whatever order its workers take their turns and
/// report: the merged report has at least the difficulty that was asked for, and where that is not
/// zero, its hash is the one that its nonce gives.
pub proof fn law_every_search_is_hard_enough(
    task: Task,
    turns: Seq<Turn>,
    order: Seq<u64>,
    reports: Seq<WorkerReport>,
)
    requires
        task.cores >= 1,
        in_range(task, turns),
        reported(task, turns, order, reports),
    ensures
        best_of(reports).difficulty >= task.min_difficulty,
        best_of(reports).difficulty > 0 ==> {
            &&& drillx_hash(task.challenge, best_of(reports).nonce) == Some(best_of(reports).hash)
            &&& leading_zero_bits(best_of(reports).hash.h) == best_of(reports).difficulty
        },
{
    lemma_reported_has_ended(task, turns, order, reports);
    law_search_is_hard_enough(
        reports,
        order,
        reordered(after_turns(task, turns), order),
        task.cores,
        task.cutoff_time,
        task.challenge,
        task.min_difficulty,
    );
}

/// The shared number of a search with one worker is what that worker raised.
proof fn lemma_lone_worker(task: Task, turns: Seq<Turn>)
    requires
        task.cores == 1,
        in_range(task, turns),
    ensures
        ({
            let p = after_turns(task, turns);
            let w0 = fresh_worker(0, 1, task.cutoff_time);
            &&& p.runs.len() == 1
            &&& searches_alone(w0, task.challenge, task.min_difficulty, p.runs[0])
            &&& p.shared == raised_alone(w0, task.challenge, task.min_difficulty, p.runs[0])
        }),
    decreases turns.len(),
{
    reveal(worker_of);
    if turns.len() > 0 {
        let front = turns.drop_last();
        assert forall|i: int| 0 <= i < front.len() implies 0 <= (#[trigger] front[i]).worker
            < task.cores by {
            assert(front[i] == turns[i]);
        }
        lemma_lone_worker(task, front);
        assert(turns[turns.len() - 1] == turns.last());
        let p = after_turns(task, front);
        assert(after_turns(task, turns).runs[0].drop_last() =~= p.runs[0]);
    }
}

/// A search with one worker ends no sooner than the time that it was given and ten seconds for every
/// nonce that gave a harder hash than all before it, where that does not wrap around.
pub proof fn law_every_new_best_prolongs_a_search_with_one_worker(task: Task, turns: Seq<Turn>)
    requires
        task.cores == 1,
        in_range(task, turns),
        worker_of(task, after_turns(task, turns), 0).phase == WorkerPhase::Left,
    ensures
        ({
            let w0 = fresh_worker(0, 1, task.cutoff_time);
            let run = after_turns(task, turns).runs[0];
            let n = nonces_tried(w0, task.challenge, task.min_difficulty, run);
            let end = task.cutoff_time + BONUS_SECONDS * records(0, 1, task.challenge, n);
            end <= u64::MAX ==> {
                &&& farewell(w0, task.challenge, task.min_difficulty, run) is Some
                &&& farewell(w0, task.challenge, task.min_difficulty, run)->0.elapsed >= end
            }
        }),
{
    reveal(worker_of);
    lemma_lone_worker(task, turns);
    law_every_new_best_prolongs_a_lone_search(
        0,
        1,
        task.cutoff_time,
        task.challenge,
        task.min_difficulty,
        after_turns(task, turns).runs[0],
    );
}

} // verus!
