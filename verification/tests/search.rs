use drillx::equix::SolverMemory;
use myore::host::{check_num_cores, cores_allowed};
use myore::search::{
    best_report, find_solution, DrillxHash, Worker, WorkerAction, WorkerEvent, WorkerPhase,
    WorkerReport,
};

fn hash_with_front(front: &[u8]) -> DrillxHash {
    let mut h = [0xffu8; 32];
    h[..front.len()].copy_from_slice(front);
    DrillxHash { d: [7; 16], h }
}

fn report(nonce: u8, difficulty: u32) -> WorkerReport {
    WorkerReport {
        nonce: [nonce; 8],
        difficulty,
        hash: DrillxHash { d: [nonce; 16], h: [nonce; 32] },
    }
}

#[test]
fn workers_start_at_their_share() {
    assert_eq!(Worker::new(0, 1, 60).nonce, 0);
    assert_eq!(Worker::new(1, 2, 60).nonce, 0x7fff_ffff_ffff_ffff);
    assert_eq!(Worker::new(3, 4, 60).nonce, 13_835_058_055_282_163_709);
    let w = Worker::new(2, 4, 60);
    assert_eq!(w.best_nonce, w.nonce);
    assert_eq!(w.best_difficulty, 0);
    assert_eq!(w.best_hash.h, [0; 32]);
    assert_eq!(w.cutoff_time, 60);
}

#[test]
fn shares_do_not_meet() {
    let cores = 8u64;
    for i in 0..cores - 1 {
        let mut low = Worker::new(i, cores, 0);
        let high = Worker::new(i + 1, cores, 0);
        for _ in 0..1000 {
            assert!(low.nonce < high.nonce);
            low.advance();
        }
    }
}

#[test]
fn only_a_harder_hash_is_kept() {
    let mut w = Worker::new(0, 3, 60);
    assert_eq!(w.record(None), None);
    assert_eq!(w.record(Some(hash_with_front(&[0x10]))), Some(3));
    w.advance();
    assert_eq!(w.nonce, 3);
    assert_eq!(w.record(Some(hash_with_front(&[0x1f]))), None);
    assert_eq!(w.best_nonce, 0);
    assert_eq!(w.record(Some(hash_with_front(&[0, 0x01]))), Some(15));
    assert_eq!(w.best_nonce, 3);
    assert_eq!(w.best_difficulty, 15);
    assert_eq!(w.record(Some(DrillxHash { d: [1; 16], h: [0; 32] })), Some(256));
}

#[test]
fn a_nonce_is_hashed_with_drillx() {
    let challenge = [42u8; 32];
    let mut memory = SolverMemory::new();
    let mut w = Worker::new(0, 1, 60);
    let mut hardest = 0;
    let mut holder = 0u64;
    for nonce in 0u64..12 {
        assert_eq!(w.nonce, nonce);
        let expected = drillx::hash(&challenge, &nonce.to_le_bytes());
        let improved = w.try_nonce(&mut memory, &challenge);
        match expected {
            Ok(hx) if hx.difficulty() > hardest => {
                hardest = hx.difficulty();
                holder = nonce;
                assert_eq!(improved, Some(hardest));
                assert_eq!(w.best_hash.d, hx.d);
                assert_eq!(w.best_hash.h, hx.h);
            }
            _ => assert_eq!(improved, None),
        }
        assert_eq!(w.best_difficulty, hardest);
        assert_eq!(w.best_nonce, holder);
        w.advance();
    }
    assert!(hardest > 0);
}

#[test]
fn a_new_overall_best_prolongs_the_search() {
    let mut w = Worker::new(0, 1, 60);
    w.record(Some(hash_with_front(&[0x01])));
    w.note_global_best(7);
    assert_eq!(w.cutoff_time, 60);
    w.note_global_best(6);
    assert_eq!(w.cutoff_time, 70);
}

#[test]
fn a_worker_stops_when_time_is_up_and_the_best_is_enough() {
    let first = Worker::new(0, 2, 60);
    let second = Worker::new(1, 2, 60);
    assert!(first.at_checkpoint());
    assert!(!second.at_checkpoint());
    assert!(!first.checkpoint(59, 20, 8).stop);
    assert!(!first.checkpoint(60, 7, 8).stop);
    assert!(first.checkpoint(60, 8, 8).stop);
    assert!(first.checkpoint(0, 0, 8).report);
    assert!(!second.checkpoint(60, 8, 8).report);
}

#[test]
fn the_time_that_is_left_is_shown() {
    let w = Worker::new(0, 1, 125);
    assert_eq!(w.remaining_text(0), "02:05");
    assert_eq!(w.remaining_text(120), "00:05");
    assert_eq!(w.remaining_text(1000), "00:00");
    let long = Worker::new(0, 1, (1u64 << 32) + 61);
    assert_eq!(long.remaining_text(0), "01:01");
}

#[test]
fn a_worker_walks_through_its_phases() {
    let challenge = [3u8; 32];
    let mut memory = SolverMemory::new();
    let mut w = Worker::new(0, 25, 30);
    let mut counted = 0u32;
    let mut looked = 0u32;
    let mut event = WorkerEvent::Proceed;
    loop {
        event = match w.step(&mut memory, &challenge, 0, event) {
            WorkerAction::Raise(difficulty) => {
                assert_eq!(difficulty, w.best_difficulty);
                WorkerEvent::Raised(difficulty)
            }
            WorkerAction::CountHash => {
                counted += 1;
                WorkerEvent::Counted
            }
            WorkerAction::Look => {
                assert_eq!(w.nonce % 100, 0);
                looked += 1;
                let elapsed = if looked == 1 { 29 } else { 30 };
                WorkerEvent::Looked { elapsed, global_best: 0 }
            }
            WorkerAction::Proceed { report } => {
                assert_eq!(report, w.nonce == 25);
                WorkerEvent::Proceed
            }
            WorkerAction::Leave { report } => {
                assert!(report);
                break;
            }
            WorkerAction::Ignore => panic!("an event out of turn"),
        };
    }
    assert_eq!(looked, 2);
    assert_eq!(counted, 5);
    assert_eq!(w.nonce, 100);
    assert_eq!(w.cutoff_time, 30);
    assert!(w.phase == WorkerPhase::Left);
    assert!(w.step(&mut memory, &challenge, 0, WorkerEvent::Proceed) == WorkerAction::Ignore);
    let found = w.report();
    assert_eq!(found.nonce, w.best_nonce.to_le_bytes());
    let again = drillx::hash(&challenge, &found.nonce).unwrap();
    assert_eq!(again.difficulty(), found.difficulty);
    assert_eq!(again.d, found.hash.d);
}

#[test]
fn the_first_of_the_hardest_reports_wins() {
    let reports = vec![report(1, 5), report(2, 9), report(3, 9), report(4, 2)];
    let best = best_report(&reports);
    assert_eq!(best.nonce, [2; 8]);
    assert_eq!(best.difficulty, 9);
    let (solution, difficulty) = find_solution(&reports);
    assert_eq!(solution.n, [2; 8]);
    assert_eq!(solution.d, [2; 16]);
    assert_eq!(difficulty, 9);
}

#[test]
fn reports_without_difficulty_give_an_empty_solution() {
    let (solution, difficulty) = find_solution(&vec![report(1, 0)]);
    assert_eq!(solution.n, [0; 8]);
    assert_eq!(solution.d, [0; 16]);
    assert_eq!(difficulty, 0);
    assert_eq!(best_report(&Vec::new()).difficulty, 0);
}

#[test]
fn cores_are_limited_by_the_machine() {
    assert!(cores_allowed(4, 4));
    assert!(!cores_allowed(5, 4));
    assert!(check_num_cores(0));
    assert!(check_num_cores(1));
    assert!(check_num_cores(num_cpus::get() as u64));
    assert!(!check_num_cores(u64::MAX));
}

/// Runs workers of a search with twenty-five cores in turns until all have left, each from its own
/// start, with a clock that shows `late`. From a multiple of a hundred on, such a worker looks at the
/// clock at every fourth nonce. Returns the workers, how often a new best beat that of all workers,
/// and how often a worker went on though its time was up.
fn run_together(
    starts: &[u64],
    cutoff_time: u64,
    min_difficulty: u32,
    late: u64,
) -> (Vec<Worker>, u64, u64) {
    let challenge = [8u8; 32];
    let mut memory = SolverMemory::new();
    let mut shared = 0u32;
    let mut beaten = 0u64;
    let mut went_on = 0u64;
    let mut workers = Vec::new();
    let mut events = Vec::new();
    for (i, start) in starts.iter().enumerate() {
        let mut w = Worker::new(i as u64, 25, cutoff_time);
        w.nonce = *start;
        workers.push(w);
        events.push(WorkerEvent::Proceed);
    }
    while workers.iter().any(|w| w.phase != WorkerPhase::Left) {
        for i in 0..workers.len() {
            let looking = workers[i].phase == WorkerPhase::Clock;
            if workers[i].phase == WorkerPhase::Left {
                continue;
            }
            events[i] = match workers[i].step(&mut memory, &challenge, min_difficulty, events[i]) {
                WorkerAction::Raise(difficulty) => {
                    let previous = shared;
                    shared = shared.max(difficulty);
                    if difficulty > previous {
                        beaten += 1;
                    }
                    WorkerEvent::Raised(previous)
                }
                WorkerAction::CountHash => WorkerEvent::Counted,
                WorkerAction::Look => WorkerEvent::Looked { elapsed: late, global_best: shared },
                WorkerAction::Proceed { .. } => {
                    if looking {
                        assert!(shared < min_difficulty || late < workers[i].cutoff_time);
                        went_on += 1;
                    }
                    WorkerEvent::Proceed
                }
                WorkerAction::Leave { .. } => {
                    assert!(shared >= min_difficulty && late >= workers[i].cutoff_time);
                    WorkerEvent::Proceed
                }
                WorkerAction::Ignore => panic!("an event out of turn"),
            };
        }
    }
    (workers, beaten, went_on)
}

#[test]
fn a_search_goes_on_until_the_best_is_enough() {
    let (workers, _, went_on) = run_together(&[0, 1_000_000], 0, 3, 1_000_000);
    assert!(went_on >= 1);
    let reports: Vec<WorkerReport> = workers.iter().map(|w| w.report()).collect();
    let (solution, difficulty) = find_solution(&reports);
    assert!(difficulty >= 3);
    let hash = drillx::hash(&[8; 32], &solution.n).unwrap();
    assert_eq!(hash.difficulty(), difficulty);
    assert_eq!(hash.d, solution.d);
}

#[test]
fn every_new_best_adds_ten_seconds() {
    let (workers, beaten, _) = run_together(&[0], 100, 2, 100_000);
    assert!(beaten >= 1);
    assert_eq!(workers[0].cutoff_time, 100 + 10 * beaten);
}
