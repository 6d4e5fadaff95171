//! The mining loop as a whole: what a round does, and that what it hands in is hard enough.

use vstd::prelude::*;

use crate::chain::{derived_proof_address, mine_instruction};
use crate::epoch::{cutoff, reset_due};
use crate::interleaving_laws::{in_range, law_every_search_is_hard_enough, reported, Task, Turn};
use crate::miner::{or_zero, Miner};
use crate::mining::{
    budget_with, fee_from_text, mine_next, planned, Config, MineActionView, MineArgs, MineEvent,
    MinePhase, MineState, Proof,
};
use crate::search::{best_of, drillx_hash, leading_zero_bits, Solution, WorkerReport};

verus! {

/// A whole round, for every outcome of what it asks: the program and the account are fetched, the
/// fee is set or asked for, the clock decides whether a reset may be tried and when the search
/// ends, and one transaction, to be confirmed, goes to the chosen bus with the solution that was
/// found. The loop is then where it began, and remembers the stake and the time of this round.
pub proof fn law_round(
    miner: Miner,
    args: MineArgs,
    s: MineState,
    config: Config,
    proof: Proof,
    answer: String,
    reset_clock: i64,
    won: bool,
    cutoff_clock: i64,
    solution: Solution,
    bus: [u8; 32],
    sol_balance: u64,
)
    requires
        s.phase == MinePhase::Config,
        derived_proof_address(miner.signer@) is Some,
        miner.dynamic_fee ==> budget_with(fee_from_text(answer@, miner.dynamic_fee_max))
            <= u32::MAX,
        !miner.dynamic_fee ==> budget_with(or_zero(miner.priority_fee)) <= u32::MAX,
    ensures
        ({
            let fee = if miner.dynamic_fee {
                fee_from_text(answer@, miner.dynamic_fee_max)
            } else {
                or_zero(miner.priority_fee)
            };
            let due = reset_due(reset_clock, config.last_reset_at);
            let (s1, a1) = mine_next(miner, args, s, MineEvent::Config(config));
            let (s2, a2) = mine_next(miner, args, s1, MineEvent::Proof(proof));
            let (s3, a3) = if miner.dynamic_fee {
                mine_next(miner, args, s2, MineEvent::FeeText(answer))
            } else {
                (s2, a2)
            };
            let (s4, a4) = mine_next(miner, args, s3, MineEvent::Clock(reset_clock));
            let (s5, a5) = if due {
                mine_next(miner, args, s4, MineEvent::Lottery(won))
            } else {
                (s4, a4)
            };
            let (s6, a6) = mine_next(miner, args, s5, MineEvent::Clock(cutoff_clock));
            let (s7, a7) = mine_next(miner, args, s6, MineEvent::Found(solution));
            let (s8, a8) = mine_next(miner, args, s7, MineEvent::Bus(bus));
            let (s9, a9) = mine_next(miner, args, s8, MineEvent::Submitted);
            let (s10, a10) = mine_next(miner, args, s9, MineEvent::Balance(Some(sol_balance)));
            let (s11, a11) = mine_next(miner, args, s10, MineEvent::Reported);
            &&& a1 == (MineActionView::FetchProof {
                authority: miner.signer,
                last_hash_at: s.last_hash_at,
            })
            &&& miner.dynamic_fee ==> a2 == MineActionView::FetchFeeText
            &&& a3 == MineActionView::FetchClock
            &&& due ==> a4 == MineActionView::DrawLottery
            &&& a5 == MineActionView::FetchClock
            &&& a6 == (MineActionView::Search {
                challenge: proof.challenge,
                cutoff_time: cutoff(proof.last_hash_at, cutoff_clock, args.buffer_time) as u64,
                cores: args.cores,
                min_difficulty: (config.min_difficulty % 0x1_0000_0000) as u32,
            })
            &&& a7 == MineActionView::FetchBuses
            &&& a8 == (MineActionView::Submit {
                instructions: planned(
                    miner.signer@,
                    derived_proof_address(miner.signer@)->0,
                    due && won,
                    bus@,
                    solution,
                ),
                compute_units: budget_with(fee) as u32,
                skip_confirm: false,
            })
            &&& a9 == (MineActionView::FetchBalance { address: miner.signer })
            &&& a10 == (MineActionView::Report {
                sol_balance,
                stake: proof.balance,
                change: if proof.balance >= s.last_balance {
                    (proof.balance - s.last_balance) as u64
                } else {
                    0
                },
                top_balance: config.top_balance,
            })
            &&& a11 == MineActionView::FetchConfig
            &&& s11.phase == MinePhase::Config
            &&& s11.last_balance == proof.balance
            &&& s11.last_hash_at == proof.last_hash_at
        }),
{
}

/// Is a solution one to `challenge` of at least the given difficulty? No difficulty at all asks for
/// nothing; any other asks that the nonce gives a hash that is hard enough, with this digest.
pub open spec fn hard_enough(challenge: Seq<u8>, solution: Solution, min_difficulty: u32) -> bool {
    min_difficulty > 0 ==> {
        &&& drillx_hash(challenge, solution.n@) is Some
        &&& drillx_hash(challenge, solution.n@)->0.d == solution.d@
        &&& leading_zero_bits(drillx_hash(challenge, solution.n@)->0.h) >= min_difficulty
    }
}

/// What happens in a round, up to its transaction.
pub struct RoundEvents {
    pub config: Config,
    pub proof: Proof,
    /// What the fee service answers, where it is asked.
    pub answer: String,
    pub reset_clock: i64,
    /// Is the reset lottery won, where it is drawn?
    pub won: bool,
    pub cutoff_clock: i64,
    pub solution: Solution,
    pub bus: [u8; 32],
}

/// The search and the transaction of a round.
pub struct RoundActions {
    pub search: MineActionView,
    pub submission: MineActionView,
}

/// What a round that begins in the state `s` does where the given events happen.
#[verifier::opaque]
pub open spec fn round_actions(
    miner: Miner,
    args: MineArgs,
    s: MineState,
    round: RoundEvents,
) -> RoundActions {
    let s1 = mine_next(miner, args, s, MineEvent::Config(round.config)).0;
    let s2 = mine_next(miner, args, s1, MineEvent::Proof(round.proof)).0;
    let s3 = if miner.dynamic_fee {
        mine_next(miner, args, s2, MineEvent::FeeText(round.answer)).0
    } else {
        s2
    };
    let s4 = mine_next(miner, args, s3, MineEvent::Clock(round.reset_clock)).0;
    let s5 = if reset_due(round.reset_clock, round.config.last_reset_at) {
        mine_next(miner, args, s4, MineEvent::Lottery(round.won)).0
    } else {
        s4
    };
    let (s6, search) = mine_next(miner, args, s5, MineEvent::Clock(round.cutoff_clock));
    let s7 = mine_next(miner, args, s6, MineEvent::Found(round.solution)).0;
    RoundActions { search, submission: mine_next(miner, args, s7, MineEvent::Bus(round.bus)).1 }
}

/// What a round that submits anything searches for, and what it hands in.
proof fn lemma_round_actions(miner: Miner, args: MineArgs, s: MineState, round: RoundEvents)
    requires
        s.phase == MinePhase::Config,
    ensures
        ({
            let actions = round_actions(miner, args, s, round);
            actions.submission is Submit ==> {
                &&& actions.search == search_for(args, round)
                &&& actions.submission->instructions.last() == mine_instruction(
                    miner.signer@,
                    miner.signer@,
                    round.bus@,
                    round.solution.d@,
                    round.solution.n@,
                )
            }
        }),
{
    reveal(round_actions);
}

/// The search of a round: the challenge of the miner, and the difficulty of the settings.
pub open spec fn search_for(args: MineArgs, round: RoundEvents) -> MineActionView {
    MineActionView::Search {
        challenge: round.proof.challenge,
        cutoff_time: cutoff(
            round.proof.last_hash_at,
            round.cutoff_clock,
            args.buffer_time,
        ) as u64,
        cores: args.cores,
        min_difficulty: (round.config.min_difficulty % 0x1_0000_0000) as u32,
    }
}

/// The task that the search of a round sets its workers.
pub open spec fn task_of(search: MineActionView) -> Task {
    Task {
        cores: search->cores,
        cutoff_time: search->cutoff_time,
        challenge: search->challenge@,
        min_difficulty: search->min_difficulty,
    }
}

/// What a search finds is hard enough.
proof fn lemma_found_is_hard_enough(
    task: Task,
    turns: Seq<Turn>,
    order: Seq<u64>,
    reports: Seq<WorkerReport>,
    solution: Solution,
)
    requires
        task.cores >= 1,
        in_range(task, turns),
        reported(task, turns, order, reports),
        solution.n@ == best_of(reports).nonce,
        solution.d@ == best_of(reports).hash.d,
    ensures
        hard_enough(task.challenge, solution, task.min_difficulty),
{
    law_every_search_is_hard_enough(task, turns, order, reports);
}

/// What a round hands in is hard enough: where the search that the round asks for runs with at least
/// one worker, in whatever order its workers take their turns and report, the mine instruction that
/// the round submits carries a solution to the challenge of the miner, of at least the difficulty
/// that the settings fetched at the start of the round ask for.
pub proof fn law_round_hands_in_what_is_hard_enough(
    miner: Miner,
    args: MineArgs,
    s: MineState,
    round: RoundEvents,
    turns: Seq<Turn>,
    order: Seq<u64>,
    reports: Seq<WorkerReport>,
)
    requires
        s.phase == MinePhase::Config,
        args.cores >= 1,
        in_range(task_of(search_for(args, round)), turns),
        reported(task_of(search_for(args, round)), turns, order, reports),
        round.solution.n@ == best_of(reports).nonce,
        round.solution.d@ == best_of(reports).hash.d,
    ensures
        ({
            let actions = round_actions(miner, args, s, round);
            actions.submission is Submit ==> {
                &&& actions.search == search_for(args, round)
                &&& actions.submission->instructions.last() == mine_instruction(
                    miner.signer@,
                    miner.signer@,
                    round.bus@,
                    round.solution.d@,
                    round.solution.n@,
                )
                &&& hard_enough(
                    round.proof.challenge@,
                    round.solution,
                    (round.config.min_difficulty % 0x1_0000_0000) as u32,
                )
            }
        }),
{
    lemma_round_actions(miner, args, s, round);
    let task = task_of(search_for(args, round));
    lemma_found_is_hard_enough(task, turns, order, reports, round.solution);
}

/// The fee that is asked from a service never exceeds the most that it may be.
pub proof fn law_fee_is_capped(text: Seq<char>, max: u64)
    ensures
        fee_from_text(text, Some(max)) <= max,
{
}

/// An event that is not waited for changes nothing, the remembered stake changes only when a round
/// is reported, and a loop that has stopped stays so.
pub proof fn law_loop_keeps_its_memory(miner: Miner, args: MineArgs, s: MineState, e: MineEvent)
    ensures
        ({
            let (t, action) = mine_next(miner, args, s, e);
            &&& action is Ignore ==> t == s
            &&& t.last_balance != s.last_balance ==> action is Report && t.last_balance
                == s.proof.balance
            &&& t.last_hash_at != s.last_hash_at ==> e is Proof && t.last_hash_at
                == e->Proof_0.last_hash_at
            &&& s.phase == MinePhase::Stopped ==> action is Ignore
            &&& action is Stop || action is Abort ==> t.phase == MinePhase::Stopped
        }),
{
}

} // verus!
