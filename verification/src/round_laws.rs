//! What the mining loop does with each thing that happens.

use vstd::prelude::*;

use crate::chain::{
    address_view, derived_proof_address, instruction_views, mine_instruction, reset_instruction,
    AccountMeta, Instruction, InstructionView, INSTRUCTIONS_SYSVAR_ID, NOOP_PROGRAM_ID,
    ORE_PROGRAM_ID, SLOT_HASHES_SYSVAR_ID,
};
use crate::epoch::{cutoff, reset_due};
use crate::miner::Miner;
use crate::mining::{
    budget_with, fee_from_text, hands_in, mine_next, wins, Config, MineAction, MineActionView,
    MineArgs, MineEvent, MineFault, MinePhase, MineState, Proof, RESET_ODDS,
};
use crate::search::Solution;
use crate::text::parsed_u64;

verus! {

/// The compute units of a round are half a million and the fee, up to a multiple of 2^64.
pub proof fn law_fee_adds_to_half_a_million(fee: u64)
    ensures
        (budget_with(fee) - fee - 500_000) % 0x1_0000_0000_0000_0000 == 0,
        fee <= 0xffff_ffff_fff8_5edf ==> budget_with(fee) == fee + 500_000,
{
}

/// The fee that an answer amounts to is the number that the answer spells, or the most that it may
/// be where that is less; an answer that spells none amounts to no fee.
pub proof fn law_fee_is_what_the_answer_spells(text: Seq<char>, n: u64, max: u64)
    ensures
        parsed_u64(text) == Some(n) ==> fee_from_text(text, None) == n,
        parsed_u64(text) == Some(n) && n <= max ==> fee_from_text(text, Some(max)) == n,
        parsed_u64(text) == Some(n) && n > max ==> fee_from_text(text, Some(max)) == max,
        parsed_u64(text) is None ==> fee_from_text(text, None) == 0 && fee_from_text(
            text,
            Some(max),
        ) == 0,
{
}

/// Of the hundred numbers that the lottery draws from, only zero wins.
pub proof fn law_one_in_a_hundred_wins(draw: usize)
    ensures
        RESET_ODDS == 100,
        wins(0),
        draw > 0 ==> !wins(draw),
{
}

/// A round begins with the settings, and then asks for an account of the signer that is newer than
/// that of the last round.
pub proof fn law_settings_then_account(miner: Miner, args: MineArgs, s: MineState, config: Config)
    requires
        s.phase == MinePhase::Config,
    ensures
        ({
            let (t, action) = mine_next(miner, args, s, MineEvent::Config(config));
            &&& t == MineState { phase: MinePhase::Proof, config, ..s }
            &&& action is FetchProof
            &&& action->authority == miner.signer
            &&& action->last_hash_at == s.last_hash_at
        }),
{
}

/// With the account, the fee is asked for where it is dynamic. Else it is the one that is set, or
/// zero, and the loop goes on as with any fee.
pub proof fn law_account_then_fee(
    miner: Miner,
    args: MineArgs,
    s: MineState,
    proof: Proof,
    fee: u64,
)
    requires
        s.phase == MinePhase::Proof,
        miner.priority_fee is Some ==> fee == miner.priority_fee->0,
        miner.priority_fee is None ==> fee == 0,
    ensures
        ({
            let (t, action) = mine_next(miner, args, s, MineEvent::Proof(proof));
            let noted = MineState { proof, last_hash_at: proof.last_hash_at, ..s };
            &&& miner.dynamic_fee ==> action is FetchFeeText && t == MineState {
                phase: MinePhase::Fee,
                ..noted
            }
            &&& !miner.dynamic_fee ==> fee_is_noted(miner, noted, fee, t, action)
        }),
{
}

/// With the answer of the fee service, the loop goes on with the fee that it amounts to.
pub proof fn law_answer_then_clock(
    miner: Miner,
    args: MineArgs,
    s: MineState,
    answer: String,
)
    requires
        s.phase == MinePhase::Fee,
    ensures
        ({
            let (t, action) = mine_next(miner, args, s, MineEvent::FeeText(answer));
            fee_is_noted(miner, s, fee_from_text(answer@, miner.dynamic_fee_max), t, action)
        }),
{
}

/// Once the fee is known: half a million compute units and the fee are noted, and the clock is asked
/// for; without an address for the proof account of the signer the loop gives up.
pub open spec fn fee_is_noted(
    miner: Miner,
    s: MineState,
    fee: u64,
    t: MineState,
    action: MineActionView,
) -> bool {
    &&& derived_proof_address(miner.signer@) is Some ==> {
        &&& action is FetchClock
        &&& (t.compute_budget - fee - 500_000) % 0x1_0000_0000_0000_0000 == 0
        &&& t == MineState {
            phase: MinePhase::ResetClock,
            compute_budget: t.compute_budget,
            ..s
        }
    }
    &&& derived_proof_address(miner.signer@) is None ==> {
        &&& action == MineActionView::Abort(MineFault::NoProofAddress)
        &&& t == MineState { phase: MinePhase::Stopped, ..s }
    }
}

/// The lottery is drawn exactly where a reset is due; a round tries to reset exactly where the
/// lottery was drawn and won.
pub proof fn law_reset_needs_time_and_luck(
    miner: Miner,
    args: MineArgs,
    s: MineState,
    clock: i64,
    u: MineState,
    won: bool,
)
    requires
        s.phase == MinePhase::ResetClock,
        u.phase == MinePhase::Lottery,
    ensures
        ({
            let (t, action) = mine_next(miner, args, s, MineEvent::Clock(clock));
            &&& reset_due(clock, s.config.last_reset_at) ==> action is DrawLottery && t
                == MineState { phase: MinePhase::Lottery, ..s }
            &&& !reset_due(clock, s.config.last_reset_at) ==> action is FetchClock && t
                == MineState { phase: MinePhase::CutoffClock, reset: false, ..s }
        }),
        mine_next(miner, args, u, MineEvent::Lottery(won)).1 is FetchClock,
        mine_next(miner, args, u, MineEvent::Lottery(won)).0 == (MineState {
            phase: MinePhase::CutoffClock,
            reset: won,
            ..u
        }),
{
}

/// The search is for the challenge of the account, with the cores that are set, until the cutoff, and
/// for the difficulty of the settings, up to a multiple of 2^32.
pub proof fn law_search_is_for_the_account(miner: Miner, args: MineArgs, s: MineState, clock: i64)
    requires
        s.phase == MinePhase::CutoffClock,
    ensures
        ({
            let (t, action) = mine_next(miner, args, s, MineEvent::Clock(clock));
            &&& t == MineState { phase: MinePhase::Search, ..s }
            &&& action is Search
            &&& action->challenge == s.proof.challenge
            &&& action->cutoff_time == cutoff(s.proof.last_hash_at, clock, args.buffer_time)
            &&& action->cores == args.cores
            &&& (action->min_difficulty - s.config.min_difficulty) % 0x1_0000_0000 == 0
        }),
{
}

/// What was found is kept, and a bus is chosen.
pub proof fn law_found_then_bus(miner: Miner, args: MineArgs, s: MineState, solution: Solution)
    requires
        s.phase == MinePhase::Search,
    ensures
        mine_next(miner, args, s, MineEvent::Found(solution)).0 == (MineState {
            phase: MinePhase::Bus,
            solution,
            ..s
        }),
        mine_next(miner, args, s, MineEvent::Found(solution)).1 is FetchBuses,
{
}

/// The transaction of a round is sent exactly where there is an address for the proof account and the
/// compute units fit 32 bits. It is to be confirmed. It first names the proof account of the signer,
/// in an instruction without accounts for the noop program, whether or not the round tries to reset.
/// Then it resets where the round tries to. At the end it hands the solution in, in the name of the
/// signer, at the bus.
pub proof fn law_transaction_of_a_round(
    miner: Miner,
    args: MineArgs,
    s: MineState,
    bus: [u8; 32],
    proof: Option<Seq<u8>>,
)
    requires
        s.phase == MinePhase::Bus,
        proof == derived_proof_address(miner.signer@),
    ensures
        ({
            let (t, action) = mine_next(miner, args, s, MineEvent::Bus(bus));
            &&& proof is None ==> action == MineActionView::Abort(MineFault::NoProofAddress) && t
                == MineState { phase: MinePhase::Stopped, ..s }
            &&& proof is Some && s.compute_budget >= 0x1_0000_0000 ==> action
                == MineActionView::Abort(MineFault::BudgetTooLarge) && t == MineState {
                phase: MinePhase::Stopped,
                ..s
            }
            &&& proof is Some && s.compute_budget < 0x1_0000_0000 ==> {
                &&& t == MineState { phase: MinePhase::Submission, ..s }
                &&& action is Submit
                &&& action->compute_units == s.compute_budget
                &&& action->skip_confirm == false
                &&& action->instructions.len() == if s.reset {
                    3int
                } else {
                    2int
                }
                &&& action->instructions[0].program_id == NOOP_PROGRAM_ID@
                &&& action->instructions[0].accounts.len() == 0
                &&& action->instructions[0].data == proof->0
                &&& s.reset ==> action->instructions[1] == reset_instruction(miner.signer@)
                &&& action->instructions.last() == mine_instruction(
                    miner.signer@,
                    miner.signer@,
                    bus@,
                    s.solution.d@,
                    s.solution.n@,
                )
            }
        }),
{
}

/// Instructions that hand a solution in name one proof account, that of the signer, in the first and
/// in the last of them. The last is for the ORE program and signed by the signer, goes to the bus, and
/// carries the number 2, the digest and the nonce; its other accounts are only read.
pub proof fn law_handing_in(
    ixs: Seq<InstructionView>,
    signer: Seq<u8>,
    reset: bool,
    bus: Seq<u8>,
    solution: Solution,
)
    requires
        hands_in(ixs, signer, reset, bus, solution),
    ensures
        ixs.len() == if reset {
            3int
        } else {
            2int
        },
        ixs[0].program_id == NOOP_PROGRAM_ID@,
        ixs[0].accounts.len() == 0,
        ixs[0].data == derived_proof_address(signer)->0,
        ixs[0].data == ixs.last().accounts[3].pubkey,
        ({
            let last = ixs.last();
            &&& last.program_id == ORE_PROGRAM_ID@
            &&& last.data.len() == 25
            &&& last.data[0] == 2
            &&& last.data.subrange(1, 17) == solution.d@
            &&& last.data.subrange(17, 25) == solution.n@
            &&& last.accounts.len() == 6
            &&& last.accounts[0].pubkey == signer && last.accounts[1].pubkey == bus
            &&& last.accounts[4].pubkey == INSTRUCTIONS_SYSVAR_ID@
            &&& last.accounts[5].pubkey == SLOT_HASHES_SYSVAR_ID@
            &&& forall|i: int|
                0 <= i < 6 ==> {
                    &&& (#[trigger] last.accounts[i]).is_signer == (i == 0)
                    &&& last.accounts[i].is_writable == (i == 0 || i == 1 || i == 3)
                }
        }),
        reset ==> {
            &&& ixs[1].program_id == ORE_PROGRAM_ID@
            &&& ixs[1].data.len() == 1 && ixs[1].data[0] == 4
            &&& ixs[1].accounts.len() == 14
            &&& ixs[1].accounts[0].pubkey == signer && ixs[1].accounts[0].is_signer
            &&& forall|i: int|
                1 <= i <= 8 ==> (#[trigger] ixs[1].accounts[i]).pubkey
                    == crate::chain::bus_address_at(i - 1)
        },
{
    let last = ixs.last();
    assert(last.data == seq![2u8] + solution.d@ + solution.n@);
    assert(last.data.subrange(1, 17) =~= solution.d@);
    assert(last.data.subrange(17, 25) =~= solution.n@);
}

/// After the transaction was sent, with whatever result, the balance of the signer is asked for.
pub proof fn law_sent_then_balance(miner: Miner, args: MineArgs, s: MineState)
    requires
        s.phase == MinePhase::Submission,
    ensures
        mine_next(miner, args, s, MineEvent::Submitted).0 == (MineState {
            phase: MinePhase::Balance,
            ..s
        }),
        mine_next(miner, args, s, MineEvent::Submitted).1 is FetchBalance,
        mine_next(miner, args, s, MineEvent::Submitted).1->address == miner.signer,
{
}

/// The report gives the balance, the stake, the largest stake, and how much the stake has grown since
/// the last round: the last stake and the growth make the stake, where it has not fallen. The stake
/// is remembered. Without a balance the loop stops.
pub proof fn law_report_of_a_round(miner: Miner, args: MineArgs, s: MineState, sol_balance: u64)
    requires
        s.phase == MinePhase::Balance,
    ensures
        ({
            let (t, action) = mine_next(miner, args, s, MineEvent::Balance(Some(sol_balance)));
            &&& t == MineState { phase: MinePhase::Report, last_balance: s.proof.balance, ..s }
            &&& action is Report
            &&& action->sol_balance == sol_balance
            &&& action->stake == s.proof.balance
            &&& action->top_balance == s.config.top_balance
            &&& s.proof.balance >= s.last_balance ==> s.last_balance + action->change
                == s.proof.balance
            &&& s.proof.balance < s.last_balance ==> action->change == 0
        }),
        mine_next(miner, args, s, MineEvent::Balance(None)).0 == (MineState {
            phase: MinePhase::Stopped,
            ..s
        }),
        mine_next(miner, args, s, MineEvent::Balance(None)).1 is Stop,
{
}

/// After its report a round is over, and the next begins.
pub proof fn law_report_then_next_round(miner: Miner, args: MineArgs, s: MineState)
    requires
        s.phase == MinePhase::Report,
    ensures
        mine_next(miner, args, s, MineEvent::Reported).0 == (MineState {
            phase: MinePhase::Config,
            ..s
        }),
        mine_next(miner, args, s, MineEvent::Reported).1 is FetchConfig,
{
}

/// Nothing else that happens changes the loop, and a loop that has stopped does nothing more.
pub proof fn law_loop_ignores_the_rest(miner: Miner, args: MineArgs, s: MineState, e: MineEvent)
    requires
        s.phase == MinePhase::Config ==> e !is Config,
        s.phase == MinePhase::Proof ==> e !is Proof,
        s.phase == MinePhase::Fee ==> e !is FeeText,
        s.phase == MinePhase::ResetClock ==> e !is Clock,
        s.phase == MinePhase::Lottery ==> e !is Lottery,
        s.phase == MinePhase::CutoffClock ==> e !is Clock,
        s.phase == MinePhase::Search ==> e !is Found,
        s.phase == MinePhase::Bus ==> e !is Bus,
        s.phase == MinePhase::Submission ==> e !is Submitted,
        s.phase == MinePhase::Balance ==> e !is Balance,
        s.phase == MinePhase::Report ==> e !is Reported,
    ensures
        mine_next(miner, args, s, e) == (s, MineActionView::Ignore),
{
}

/// An action is seen as what it is.
pub proof fn law_mine_actions_are_seen_as_they_are(action: MineAction)
    ensures
        action is FetchConfig <==> action@ is FetchConfig,
        action is FetchProof <==> action@ is FetchProof,
        action is FetchProof ==> action@->authority == action->authority && action@->last_hash_at
            == action->last_hash_at,
        action is FetchFeeText <==> action@ is FetchFeeText,
        action is FetchClock <==> action@ is FetchClock,
        action is DrawLottery <==> action@ is DrawLottery,
        action is Search <==> action@ is Search,
        action is Search ==> {
            &&& action@->challenge == action->challenge
            &&& action@->cutoff_time == action->cutoff_time
            &&& action@->cores == action->cores
            &&& action@->min_difficulty == action->min_difficulty
        },
        action is FetchBuses <==> action@ is FetchBuses,
        action is Submit <==> action@ is Submit,
        action is Submit ==> {
            &&& action@->instructions == instruction_views(action->instructions@)
            &&& action@->compute_units == action->compute_units
            &&& action@->skip_confirm == action->skip_confirm
        },
        action is FetchBalance <==> action@ is FetchBalance,
        action is FetchBalance ==> action@->address == action->address,
        action is Report <==> action@ is Report,
        action is Report ==> {
            &&& action@->sol_balance == action->sol_balance
            &&& action@->stake == action->stake
            &&& action@->change == action->change
            &&& action@->top_balance == action->top_balance
        },
        action is Stop <==> action@ is Stop,
        action is Abort <==> action@ is Abort,
        action is Abort ==> action@->Abort_0 == action->Abort_0,
        action is Ignore <==> action@ is Ignore,
{
}

/// Instructions and accounts are seen as what they are, each in its place.
pub proof fn law_instructions_are_seen_as_they_are(
    ixs: Seq<Instruction>,
    account: AccountMeta,
    address: [u8; 32],
)
    ensures
        instruction_views(ixs).len() == ixs.len(),
        forall|i: int|
            0 <= i < ixs.len() ==> {
                &&& (#[trigger] instruction_views(ixs)[i]).program_id == ixs[i].program_id@
                &&& instruction_views(ixs)[i].data == ixs[i].data@
                &&& instruction_views(ixs)[i].accounts.len() == ixs[i].accounts@.len()
                &&& forall|k: int|
                    0 <= k < ixs[i].accounts@.len() ==> #[trigger] instruction_views(
                        ixs,
                    )[i].accounts[k] == ixs[i].accounts@[k]@
            },
        account@.pubkey == account.pubkey@,
        account@.is_signer == account.is_signer,
        account@.is_writable == account.is_writable,
        address_view(Some(address)) == Some(address@),
        address_view(None) is None,
{
}

} // verus!
