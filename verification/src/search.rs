//! The search for a hash: what one worker does with each nonce, and how the workers' findings are
//! merged.

use vstd::prelude::*;

use crate::bytes::{u64_bytes, u64_to_bytes};
use crate::text::{duration_text, format_duration};

verus! {

/// The scratch memory of the Equi-X solver; only the solver reads it.
#[verifier::external_type_specification]
#[verifier::external_body]
pub struct ExSolverMemory(drillx::equix::SolverMemory);

/// A drillx hash: the Equi-X digest and the hash of digest and nonce.
#[derive(Clone, Copy)]
pub struct DrillxHash {
    pub d: [u8; 16],
    pub h: [u8; 32],
}

/// The bytes of a [`DrillxHash`].
pub struct HashView {
    pub d: Seq<u8>,
    pub h: Seq<u8>,
}

impl View for DrillxHash {
    type V = HashView;

    open spec fn view(&self) -> HashView {
        HashView { d: self.d@, h: self.h@ }
    }
}

/// The hash of a search that has found nothing: all bytes zero.
pub open spec fn no_hash() -> HashView {
    HashView { d: Seq::new(16, |i: int| 0u8), h: Seq::new(32, |i: int| 0u8) }
}

impl DrillxHash {
    /// The all-zero hash.
    pub fn zero() -> (r: Self)
        ensures
            r@ == no_hash(),
    {
        let r = DrillxHash { d: [0u8; 16], h: [0u8; 32] };
        assert(r@.d =~= no_hash().d);
        assert(r@.h =~= no_hash().h);
        r
    }
}

/// The bytes of the hash in an outcome.
pub open spec fn outcome_view(outcome: Option<DrillxHash>) -> Option<HashView> {
    match outcome {
        Some(hash) => Some(hash@),
        None => None,
    }
}

/// The number of zero bits above the highest one bit of a byte.
pub open spec fn byte_zero_bits(b: u8) -> nat {
    if b >= 0x80 {
        0
    } else if b >= 0x40 {
        1
    } else if b >= 0x20 {
        2
    } else if b >= 0x10 {
        3
    } else if b >= 0x08 {
        4
    } else if b >= 0x04 {
        5
    } else if b >= 0x02 {
        6
    } else if b >= 0x01 {
        7
    } else {
        8
    }
}

/// The number of zero bits at the front of a byte string.
pub open spec fn leading_zero_bits(b: Seq<u8>) -> nat
    decreases b.len(),
{
    if b.len() == 0 {
        0
    } else if b[0] == 0 {
        8 + leading_zero_bits(b.skip(1))
    } else {
        byte_zero_bits(b[0])
    }
}

/// `drillx::difficulty` counts the zero bits at the front of a 32-byte hash: eight for each
/// leading zero byte, and those above the highest one bit of the first byte that is not zero.
pub assume_specification[ drillx::difficulty ](hash: [u8; 32]) -> (r: u32)
    ensures
        r == leading_zero_bits(hash@),
;

/// What `drillx::hash_with_memory` returns for a challenge and a nonce; `None` where it reports an
/// error.
pub uninterp spec fn drillx_hash(challenge: Seq<u8>, nonce: Seq<u8>) -> Option<HashView>;

/// Calls `drillx::hash_with_memory`. The result depends on the challenge and the nonce alone: the
/// memory is scratch space, and an error means that this nonce has no Equi-X solution. (drillx
/// orders the digest as 16-bit words of the machine before it hashes it; the name stands for the
/// result on a little-endian machine, for which this crate is meant.)
#[verifier::external_body]
fn hash_with_memory(
    memory: &mut drillx::equix::SolverMemory,
    challenge: &[u8; 32],
    nonce: &[u8; 8],
) -> (r: Option<DrillxHash>)
    ensures
        outcome_view(r) == drillx_hash(challenge@, nonce@),
{
    match drillx::hash_with_memory(memory, challenge, nonce) {
        Ok(hx) => Some(DrillxHash { d: hx.d, h: hx.h }),
        Err(_) => None,
    }
}

/// The best hash of a search so far.
pub struct BestView {
    pub nonce: u64,
    pub difficulty: nat,
    pub hash: HashView,
}

/// What is best after the nonce `nonce` gave `outcome`: a hash replaces the best one only if it is
/// strictly harder.
pub open spec fn better(best: BestView, nonce: u64, outcome: Option<HashView>) -> BestView {
    match outcome {
        Some(hash) => if leading_zero_bits(hash.h) > best.difficulty {
            BestView { nonce, difficulty: leading_zero_bits(hash.h), hash }
        } else {
            best
        },
        None => best,
    }
}

/// What a worker waits for.
#[derive(Clone, Copy, PartialEq, Eq, Structural)]
pub enum WorkerPhase {
    Nonce,
    GlobalBest,
    Count,
    Clock,
    Left,
}

/// What happened.
#[derive(Clone, Copy)]
pub enum WorkerEvent {
    /// The worker may go on with the nonce that it is at.
    Proceed,
    /// The best difficulty of all workers was raised to the one that this worker found; before, it
    /// was the given one.
    Raised(u32),
    /// The hash was counted.
    Counted,
    /// The clock was read, in seconds since the worker began, and the best difficulty of all workers.
    Looked { elapsed: u64, global_best: u32 },
}

/// What to do next.
#[derive(Clone, Copy, PartialEq, Eq, Structural)]
pub enum WorkerAction {
    /// Raise the best difficulty of all workers to the given one, if it is lower.
    Raise(u32),
    /// Count the hash.
    CountHash,
    /// Read the clock and the best difficulty of all workers.
    Look,
    /// Go on with the next nonce; show the progress first where `report` is set.
    Proceed { report: bool },
    /// Leave the search; show the progress first where `report` is set.
    Leave { report: bool },
    /// Nothing: the event was not waited for.
    Ignore,
}

/// One search thread: the nonce that it is at, the best that it has found, and the number of
/// seconds that it is willing to spend.
pub struct Worker {
    pub phase: WorkerPhase,
    pub index: u64,
    pub cores: u64,
    pub nonce: u64,
    pub best_nonce: u64,
    pub best_difficulty: u32,
    pub best_hash: DrillxHash,
    pub cutoff_time: u64,
}

/// What a [`Worker`] holds.
pub struct WorkerView {
    pub phase: WorkerPhase,
    pub index: u64,
    pub cores: u64,
    pub nonce: u64,
    pub best: BestView,
    pub cutoff_time: u64,
}

impl View for Worker {
    type V = WorkerView;

    open spec fn view(&self) -> WorkerView {
        WorkerView {
            phase: self.phase,
            index: self.index,
            cores: self.cores,
            nonce: self.nonce,
            best: BestView {
                nonce: self.best_nonce,
                difficulty: self.best_difficulty as nat,
                hash: self.best_hash@,
            },
            cutoff_time: self.cutoff_time,
        }
    }
}

/// The first nonce of worker `index` out of `cores`.
pub open spec fn start_nonce(index: u64, cores: u64) -> int {
    (u64::MAX / cores) * index
}

/// A worker that has not hashed anything yet.
pub open spec fn fresh_worker(index: u64, cores: u64, cutoff_time: u64) -> WorkerView {
    let start = start_nonce(index, cores) as u64;
    WorkerView {
        phase: WorkerPhase::Nonce,
        index,
        cores,
        nonce: start,
        best: BestView { nonce: start, difficulty: 0, hash: no_hash() },
        cutoff_time,
    }
}

/// The worker `w` after the nonce that it is at gave `outcome`.
pub open spec fn recorded(w: WorkerView, outcome: Option<HashView>) -> WorkerView {
    WorkerView { best: better(w.best, w.nonce, outcome), ..w }
}

/// The difficulty of `outcome` where it beats the best of `w`.
pub open spec fn improvement(w: WorkerView, outcome: Option<HashView>) -> Option<nat> {
    match outcome {
        Some(hash) => if leading_zero_bits(hash.h) > w.best.difficulty {
            Some(leading_zero_bits(hash.h))
        } else {
            None
        },
        None => None,
    }
}

/// The worker `w` after its new best was held against the best difficulty of all workers before.
pub open spec fn prolonged(w: WorkerView, previous: u32) -> WorkerView {
    WorkerView {
        cutoff_time: if w.best.difficulty > previous {
            ((w.cutoff_time + BONUS_SECONDS) % 0x1_0000_0000_0000_0000) as u64
        } else {
            w.cutoff_time
        },
        ..w
    }
}

/// Does the worker `w` leave the search, `elapsed` seconds after it began?
pub open spec fn leaves(w: WorkerView, elapsed: u64, global_best: u32, min_difficulty: u32) -> bool {
    elapsed >= w.cutoff_time && global_best >= min_difficulty
}

/// The worker and the action after an event, in a search for a hash of `challenge`.
pub open spec fn worker_next(
    w: WorkerView,
    challenge: Seq<u8>,
    min_difficulty: u32,
    e: WorkerEvent,
) -> (WorkerView, WorkerAction) {
    match (w.phase, e) {
        (WorkerPhase::Nonce, WorkerEvent::Proceed) => {
            let outcome = drillx_hash(challenge, u64_bytes(w.nonce));
            match improvement(w, outcome) {
                Some(difficulty) => (
                    WorkerView { phase: WorkerPhase::GlobalBest, ..recorded(w, outcome) },
                    WorkerAction::Raise(within_u32(difficulty)),
                ),
                None => (
                    WorkerView { phase: WorkerPhase::Count, ..recorded(w, outcome) },
                    WorkerAction::CountHash,
                ),
            }
        },
        (WorkerPhase::GlobalBest, WorkerEvent::Raised(previous)) => (
            WorkerView { phase: WorkerPhase::Count, ..prolonged(w, previous) },
            WorkerAction::CountHash,
        ),
        (WorkerPhase::Count, WorkerEvent::Counted) => if w.nonce % CHECK_INTERVAL == 0 {
            (WorkerView { phase: WorkerPhase::Clock, ..w }, WorkerAction::Look)
        } else {
            (
                WorkerView { phase: WorkerPhase::Nonce, ..advanced(w) },
                WorkerAction::Proceed { report: false },
            )
        },
        (WorkerPhase::Clock, WorkerEvent::Looked { elapsed, global_best }) => if leaves(
            w,
            elapsed,
            global_best,
            min_difficulty,
        ) {
            (
                WorkerView { phase: WorkerPhase::Left, ..w },
                WorkerAction::Leave { report: w.index == 0 },
            )
        } else {
            (
                WorkerView { phase: WorkerPhase::Nonce, ..advanced(w) },
                WorkerAction::Proceed { report: w.index == 0 },
            )
        },
        _ => (w, WorkerAction::Ignore),
    }
}

/// A difficulty, or the largest 32-bit number where it is beyond that. (That of a 32-byte hash is 256
/// at most.)
pub open spec fn within_u32(difficulty: nat) -> u32 {
    if difficulty <= u32::MAX {
        difficulty as u32
    } else {
        u32::MAX
    }
}

/// The worker `w` one stride further.
pub open spec fn advanced(w: WorkerView) -> WorkerView {
    WorkerView { nonce: ((w.nonce + w.cores) % 0x1_0000_0000_0000_0000) as u64, ..w }
}

/// A difficulty as a number of arbitrary size.
pub open spec fn widened(difficulty: Option<u32>) -> Option<nat> {
    match difficulty {
        Some(d) => Some(d as nat),
        None => None,
    }
}

/// The number of nonces between two looks at the clock.
pub const CHECK_INTERVAL: u64 = 100;

/// The seconds that a new overall best adds to the time of the worker that found it.
pub const BONUS_SECONDS: u64 = 10;

/// What a worker does at a checkpoint.
#[derive(Clone, Copy)]
pub struct Checkpoint {
    /// Show the progress message.
    pub report: bool,
    /// Leave the search.
    pub stop: bool,
}

impl Worker {
    /// A worker at the start of its share of the nonces: the share of worker `index` begins at
    /// `index` times the `cores`-th part of all nonces.
    pub fn new(index: u64, cores: u64, cutoff_time: u64) -> (r: Self)
        requires
            index < cores,
        ensures
            start_nonce(index, cores) <= u64::MAX,
            r@ == fresh_worker(index, cores, cutoff_time),
    {
        proof {
            law_starts_fit(index, cores);
        }
        let share: u64 = u64::MAX / cores;
        let nonce: u64 = match share.checked_mul(index) {
            Some(product) => product,
            None => u64::MAX,
        };
        Worker {
            phase: WorkerPhase::Nonce,
            index,
            cores,
            nonce,
            best_nonce: nonce,
            best_difficulty: 0,
            best_hash: DrillxHash::zero(),
            cutoff_time,
        }
    }

    /// Takes note of the outcome of hashing the current nonce. Returns the difficulty where it is
    /// the best of this worker so far.
    pub fn record(&mut self, outcome: Option<DrillxHash>) -> (r: Option<u32>)
        ensures
            final(self)@ == recorded(old(self)@, outcome_view(outcome)),
            widened(r) == improvement(old(self)@, outcome_view(outcome)),
    {
        match outcome {
            Some(hash) => {
                let difficulty: u32 = drillx::difficulty(hash.h);
                if difficulty > self.best_difficulty {
                    self.best_nonce = self.nonce;
                    self.best_difficulty = difficulty;
                    self.best_hash = hash;
                    Some(difficulty)
                } else {
                    None
                }
            },
            None => None,
        }
    }

    /// Hashes the current nonce and takes note of the outcome. Returns the difficulty where it is
    /// the best of this worker so far.
    pub fn try_nonce(
        &mut self,
        memory: &mut drillx::equix::SolverMemory,
        challenge: &[u8; 32],
    ) -> (r: Option<u32>)
        ensures
            final(self)@ == recorded(
                old(self)@,
                drillx_hash(challenge@, u64_bytes(old(self)@.nonce)),
            ),
            widened(r) == improvement(
                old(self)@,
                drillx_hash(challenge@, u64_bytes(old(self)@.nonce)),
            ),
    {
        let nonce = u64_to_bytes(self.nonce);
        let outcome = hash_with_memory(memory, challenge, &nonce);
        self.record(outcome)
    }

    /// Takes note of the best difficulty that any worker had before this worker's new best: where
    /// the new one beats it, this worker may search longer. The time wraps around at 2^64.
    pub fn note_global_best(&mut self, previous: u32)
        ensures
            final(self)@ == prolonged(old(self)@, previous),
    {
        if self.best_difficulty > previous {
            self.cutoff_time = self.cutoff_time.wrapping_add(BONUS_SECONDS);
        }
    }

    /// Is the current nonce one at which the worker looks at the clock?
    pub fn at_checkpoint(&self) -> (r: bool)
        ensures
            r == (self@.nonce % CHECK_INTERVAL == 0),
    {
        self.nonce % CHECK_INTERVAL == 0
    }

    /// Decides what to do at a checkpoint, `elapsed` seconds after the worker began, when the best
    /// difficulty of all workers is `global_best`. Only the first worker reports; a worker stops
    /// once its time is up and some worker has found a hash that is hard enough.
    pub fn checkpoint(&self, elapsed: u64, global_best: u32, min_difficulty: u32) -> (r: Checkpoint)
        ensures
            r.report == (self@.index == 0),
            r.stop == leaves(self@, elapsed, global_best, min_difficulty),
    {
        if elapsed >= self.cutoff_time {
            Checkpoint { report: self.index == 0, stop: global_best >= min_difficulty }
        } else {
            Checkpoint { report: self.index == 0, stop: false }
        }
    }

    /// The time that is left after `elapsed` seconds, as minutes and seconds; of a time of 2^32
    /// seconds or more, the low 32 bits.
    pub fn remaining_text(&self, elapsed: u64) -> (r: String)
        ensures
            r@ == duration_text(
                (if self@.cutoff_time >= elapsed {
                    (self@.cutoff_time - elapsed) % 0x1_0000_0000
                } else {
                    0
                }) as nat,
            ),
    {
        let left: u64 = self.cutoff_time.saturating_sub(elapsed);
        format_duration((left % 0x1_0000_0000) as u32)
    }

    /// Goes on to the next nonce, one stride of `cores` further, wrapping around at 2^64.
    pub fn advance(&mut self)
        ensures
            final(self)@ == advanced(old(self)@),
    {
        self.nonce = self.nonce.wrapping_add(self.cores);
    }

    /// One step of the search for a hash of `challenge`: takes note of an event, hashes a nonce where
    /// it may go on, and says what to do next.
    pub fn step(
        &mut self,
        memory: &mut drillx::equix::SolverMemory,
        challenge: &[u8; 32],
        min_difficulty: u32,
        event: WorkerEvent,
    ) -> (r: WorkerAction)
        ensures
            (final(self)@, r) == worker_next(old(self)@, challenge@, min_difficulty, event),
    {
        match (self.phase, event) {
            (WorkerPhase::Nonce, WorkerEvent::Proceed) => {
                match self.try_nonce(memory, challenge) {
                    Some(difficulty) => {
                        self.phase = WorkerPhase::GlobalBest;
                        WorkerAction::Raise(difficulty)
                    },
                    None => {
                        self.phase = WorkerPhase::Count;
                        WorkerAction::CountHash
                    },
                }
            },
            (WorkerPhase::GlobalBest, WorkerEvent::Raised(previous)) => {
                self.note_global_best(previous);
                self.phase = WorkerPhase::Count;
                WorkerAction::CountHash
            },
            (WorkerPhase::Count, WorkerEvent::Counted) => {
                if self.at_checkpoint() {
                    self.phase = WorkerPhase::Clock;
                    WorkerAction::Look
                } else {
                    self.advance();
                    self.phase = WorkerPhase::Nonce;
                    WorkerAction::Proceed { report: false }
                }
            },
            (WorkerPhase::Clock, WorkerEvent::Looked { elapsed, global_best }) => {
                let checkpoint = self.checkpoint(elapsed, global_best, min_difficulty);
                if checkpoint.stop {
                    self.phase = WorkerPhase::Left;
                    WorkerAction::Leave { report: checkpoint.report }
                } else {
                    self.advance();
                    self.phase = WorkerPhase::Nonce;
                    WorkerAction::Proceed { report: checkpoint.report }
                }
            },
            _ => WorkerAction::Ignore,
        }
    }

    /// What the worker reports when it leaves the search.
    pub fn report(&self) -> (r: WorkerReport)
        ensures
            r@ == report_of(self@.best),
    {
        WorkerReport {
            nonce: u64_to_bytes(self.best_nonce),
            difficulty: self.best_difficulty,
            hash: self.best_hash,
        }
    }
}

/// The best finding of a worker, its nonce as bytes.
#[derive(Clone, Copy)]
pub struct WorkerReport {
    pub nonce: [u8; 8],
    pub difficulty: u32,
    pub hash: DrillxHash,
}

/// What a [`WorkerReport`] holds.
pub struct ReportView {
    pub nonce: Seq<u8>,
    pub difficulty: nat,
    pub hash: HashView,
}

impl View for WorkerReport {
    type V = ReportView;

    open spec fn view(&self) -> ReportView {
        ReportView { nonce: self.nonce@, difficulty: self.difficulty as nat, hash: self.hash@ }
    }
}

/// What a worker with the given best reports.
pub open spec fn report_of(best: BestView) -> ReportView {
    ReportView { nonce: u64_bytes(best.nonce), difficulty: best.difficulty, hash: best.hash }
}

/// A claim to a reward: an Equi-X digest and its nonce.
#[derive(Clone, Copy)]
pub struct Solution {
    pub d: [u8; 16],
    pub n: [u8; 8],
}

/// The start of the merge: no difficulty, all bytes zero.
pub open spec fn no_report() -> ReportView {
    ReportView { nonce: Seq::new(8, |i: int| 0u8), difficulty: 0, hash: no_hash() }
}

/// The first of the hardest reports, or [`no_report`] where none has any difficulty.
pub open spec fn best_of(reports: Seq<WorkerReport>) -> ReportView
    decreases reports.len(),
{
    if reports.len() == 0 {
        no_report()
    } else {
        let before = best_of(reports.drop_last());
        if reports.last().difficulty > before.difficulty {
            reports.last()@
        } else {
            before
        }
    }
}

/// Merges the workers' reports, in the order in which they came in.
pub fn best_report(reports: &Vec<WorkerReport>) -> (r: WorkerReport)
    ensures
        r@ == best_of(reports@),
{
    let mut best = WorkerReport { nonce: [0u8; 8], difficulty: 0, hash: DrillxHash::zero() };
    let mut i: usize = 0;
    assert(best@.nonce =~= no_report().nonce);
    assert(reports@.take(0) =~= Seq::empty());
    while i < reports.len()
        invariant
            i <= reports.len(),
            best@ == best_of(reports@.take(i as int)),
        decreases reports.len() - i,
    {
        assert(reports@.take(i + 1).drop_last() =~= reports@.take(i as int));
        if reports[i].difficulty > best.difficulty {
            best = reports[i];
        }
        i = i + 1;
    }
    assert(reports@.take(i as int) =~= reports@);
    best
}

/// The solution that the merged reports amount to, and its difficulty.
pub fn find_solution(reports: &Vec<WorkerReport>) -> (r: (Solution, u32))
    ensures
        r.0.n@ == best_of(reports@).nonce,
        r.0.d@ == best_of(reports@).hash.d,
        r.1 == best_of(reports@).difficulty,
{
    let best = best_report(reports);
    (Solution { d: best.hash.d, n: best.nonce }, best.difficulty)
}

/// The share of every worker begins within the range of nonces.
pub proof fn law_starts_fit(index: u64, cores: u64)
    requires
        index < cores,
    ensures
        0 <= start_nonce(index, cores) <= u64::MAX,
{
    let share: int = (u64::MAX / cores) as int;
    assert(share * cores <= u64::MAX) by (nonlinear_arith)
        requires
            cores > 0,
            share == u64::MAX as int / cores as int,
    ;
    assert(0 <= share * index <= share * cores) by (nonlinear_arith)
        requires
            0 <= index < cores,
            share >= 0,
    ;
}

} // verus!
