//! The mining loop: what to do next after each thing that happened.

use vstd::prelude::*;

use crate::chain::{
    auth, auth_instruction, claims_reward, derived_proof_address, instruction_views, mine,
    mine_instruction, proof_address, reset, reset_instruction, resets_epoch, Instruction,
    InstructionView, NOOP_PROGRAM_ID,
};
use crate::epoch::{cutoff, get_cutoff, reset_due, should_reset, wrapped};
use crate::host::{draw_below, drawn_below};
use crate::miner::{capped, or_zero, Miner};
use crate::search::Solution;
use crate::text::{parse_u64, parsed_u64};

verus! {

/// The compute units of a mining transaction, before the fee.
pub const BASE_COMPUTE_UNITS: u64 = 500_000;

/// One in this many rounds in which a reset is due tries to reset.
pub const RESET_ODDS: usize = 100;

/// The settings of the program, as far as mining needs them.
#[derive(Clone, Copy)]
pub struct Config {
    pub last_reset_at: i64,
    pub min_difficulty: u64,
    pub top_balance: u64,
}

/// The account of a miner, as far as mining needs it.
#[derive(Clone, Copy)]
pub struct Proof {
    pub balance: u64,
    pub challenge: [u8; 32],
    pub last_hash_at: i64,
}

/// How to mine.
#[derive(Clone, Copy)]
pub struct MineArgs {
    /// The number of threads.
    pub cores: u64,
    /// The seconds that are added to the time of a search.
    pub buffer_time: u64,
}

/// What the loop waits for.
#[derive(Clone, Copy, PartialEq, Eq, Structural)]
pub enum MinePhase {
    Config,
    Proof,
    Fee,
    ResetClock,
    Lottery,
    CutoffClock,
    Search,
    Bus,
    Submission,
    Balance,
    Report,
    Stopped,
}

/// What the loop remembers.
#[derive(Clone, Copy)]
pub struct MineState {
    pub phase: MinePhase,
    /// The time of the last hash of the last round.
    pub last_hash_at: i64,
    /// The stake of the last round.
    pub last_balance: u64,
    pub config: Config,
    pub proof: Proof,
    /// The compute units of this round, with the fee.
    pub compute_budget: u64,
    /// Does this round try to reset?
    pub reset: bool,
    pub solution: Solution,
}

/// What happened.
pub enum MineEvent {
    /// The settings of the program were fetched.
    Config(Config),
    /// The account of the miner was fetched.
    Proof(Proof),
    /// The fee service answered.
    FeeText(String),
    /// The clock of the chain was read.
    Clock(i64),
    /// The reset lottery was drawn.
    Lottery(bool),
    /// The search ended.
    Found(Solution),
    /// A bus was chosen.
    Bus([u8; 32]),
    /// The transaction was sent, with whatever result.
    Submitted,
    /// The balance was asked for; `None` where that failed.
    Balance(Option<u64>),
    /// The round was reported.
    Reported,
}

/// Why mining cannot go on.
#[derive(Clone, Copy, PartialEq, Eq, Structural)]
pub enum MineFault {
    /// The signer has no address for a proof account.
    NoProofAddress,
    /// The compute units, with the fee, do not fit 32 bits.
    BudgetTooLarge,
}

/// What to do next.
pub enum MineAction {
    FetchConfig,
    /// Fetch the account of the miner with the given address, newer than `last_hash_at`.
    FetchProof { authority: [u8; 32], last_hash_at: i64 },
    /// Ask the fee service.
    FetchFeeText,
    FetchClock,
    DrawLottery,
    /// Search for a hash.
    Search { challenge: [u8; 32], cutoff_time: u64, cores: u64, min_difficulty: u32 },
    /// Fetch the accounts of the buses and choose one.
    FetchBuses,
    /// Send a transaction; leave it alone once it is sent where `skip_confirm` is set.
    Submit { instructions: Vec<Instruction>, compute_units: u32, skip_confirm: bool },
    /// Ask for the balance of the given address.
    FetchBalance { address: [u8; 32] },
    /// Report the round.
    Report { sol_balance: u64, stake: u64, change: u64, top_balance: u64 },
    /// Stop mining: the balance could not be fetched.
    Stop,
    /// Give up.
    Abort(MineFault),
    /// Nothing: the event was not waited for.
    Ignore,
}

/// What a [`MineAction`] says.
pub enum MineActionView {
    FetchConfig,
    FetchProof { authority: [u8; 32], last_hash_at: i64 },
    FetchFeeText,
    FetchClock,
    DrawLottery,
    Search { challenge: [u8; 32], cutoff_time: u64, cores: u64, min_difficulty: u32 },
    FetchBuses,
    Submit { instructions: Seq<InstructionView>, compute_units: u32, skip_confirm: bool },
    FetchBalance { address: [u8; 32] },
    Report { sol_balance: u64, stake: u64, change: u64, top_balance: u64 },
    Stop,
    Abort(MineFault),
    Ignore,
}

impl View for MineAction {
    type V = MineActionView;

    open spec fn view(&self) -> MineActionView {
        match *self {
            MineAction::FetchConfig => MineActionView::FetchConfig,
            MineAction::FetchProof { authority, last_hash_at } => MineActionView::FetchProof {
                authority,
                last_hash_at,
            },
            MineAction::FetchFeeText => MineActionView::FetchFeeText,
            MineAction::FetchClock => MineActionView::FetchClock,
            MineAction::DrawLottery => MineActionView::DrawLottery,
            MineAction::Search { challenge, cutoff_time, cores, min_difficulty } =>
                MineActionView::Search { challenge, cutoff_time, cores, min_difficulty },
            MineAction::FetchBuses => MineActionView::FetchBuses,
            MineAction::Submit { instructions, compute_units, skip_confirm } =>
                MineActionView::Submit {
                instructions: instruction_views(instructions@),
                compute_units,
                skip_confirm,
            },
            MineAction::FetchBalance { address } => MineActionView::FetchBalance { address },
            MineAction::Report { sol_balance, stake, change, top_balance } =>
                MineActionView::Report { sol_balance, stake, change, top_balance },
            MineAction::Stop => MineActionView::Stop,
            MineAction::Abort(fault) => MineActionView::Abort(fault),
            MineAction::Ignore => MineActionView::Ignore,
        }
    }
}

/// The compute units of a round with a priority fee, modulo 2^64.
pub open spec fn budget_with(priority_fee: u64) -> u64 {
    wrapped(BASE_COMPUTE_UNITS + priority_fee) as u64
}

/// The fee that an answer of the fee service amounts to: the number that it spells, or zero, and no
/// more than `max`.
pub open spec fn fee_from_text(text: Seq<char>, max: Option<u64>) -> u64 {
    capped(or_zero(parsed_u64(text)), max)
}

/// The instructions of a mining transaction: the auth instruction, the reset instruction where this
/// round tries to reset, the mine instruction.
pub open spec fn planned(
    signer: Seq<u8>,
    proof: Seq<u8>,
    reset: bool,
    bus: Seq<u8>,
    solution: Solution,
) -> Seq<InstructionView> {
    let last = mine_instruction(signer, signer, bus, solution.d@, solution.n@);
    if reset {
        seq![auth_instruction(proof), reset_instruction(signer), last]
    } else {
        seq![auth_instruction(proof), last]
    }
}

/// Do instructions hand `solution` in at `bus` for `signer`, after a reset where this round tries to
/// reset? The first one names the proof account that the last one claims the reward for.
pub open spec fn hands_in(
    ixs: Seq<InstructionView>,
    signer: Seq<u8>,
    reset: bool,
    bus: Seq<u8>,
    solution: Solution,
) -> bool {
    &&& ixs.len() == if reset {
        3int
    } else {
        2int
    }
    &&& ixs[0].program_id == NOOP_PROGRAM_ID@
    &&& ixs[0].accounts.len() == 0
    &&& ixs[0].data == ixs.last().accounts[3].pubkey
    &&& reset ==> resets_epoch(ixs[1], signer)
    &&& claims_reward(
        ixs.last(),
        signer,
        bus,
        derived_proof_address(signer)->0,
        solution.d@,
        solution.n@,
    )
}

/// The state and the action once the fee of a round is known.
pub open spec fn with_fee(signer: Seq<u8>, s: MineState, fee: u64) -> (MineState, MineActionView) {
    if derived_proof_address(signer) is Some {
        (
            MineState { phase: MinePhase::ResetClock, compute_budget: budget_with(fee), ..s },
            MineActionView::FetchClock,
        )
    } else {
        (
            MineState { phase: MinePhase::Stopped, ..s },
            MineActionView::Abort(MineFault::NoProofAddress),
        )
    }
}

/// The state and the action once it is known whether a round tries to reset.
pub open spec fn with_reset(s: MineState, reset: bool) -> (MineState, MineActionView) {
    (MineState { phase: MinePhase::CutoffClock, reset, ..s }, MineActionView::FetchClock)
}

/// The state and the action once the bus of a round is known.
pub open spec fn with_bus(signer: Seq<u8>, s: MineState, bus: Seq<u8>) -> (
    MineState,
    MineActionView,
) {
    if derived_proof_address(signer) is None {
        (
            MineState { phase: MinePhase::Stopped, ..s },
            MineActionView::Abort(MineFault::NoProofAddress),
        )
    } else if s.compute_budget > u32::MAX {
        (
            MineState { phase: MinePhase::Stopped, ..s },
            MineActionView::Abort(MineFault::BudgetTooLarge),
        )
    } else {
        (
            MineState { phase: MinePhase::Submission, ..s },
            MineActionView::Submit {
                instructions: planned(
                    signer,
                    derived_proof_address(signer)->0,
                    s.reset,
                    bus,
                    s.solution,
                ),
                compute_units: s.compute_budget as u32,
                skip_confirm: false,
            },
        )
    }
}

/// The state and the action after an event.
pub open spec fn mine_next(miner: Miner, args: MineArgs, s: MineState, e: MineEvent) -> (
    MineState,
    MineActionView,
) {
    match (s.phase, e) {
        (MinePhase::Config, MineEvent::Config(config)) => (
            MineState { phase: MinePhase::Proof, config, ..s },
            MineActionView::FetchProof { authority: miner.signer, last_hash_at: s.last_hash_at },
        ),
        (MinePhase::Proof, MineEvent::Proof(proof)) => {
            let t = MineState { proof, last_hash_at: proof.last_hash_at, ..s };
            if miner.dynamic_fee {
                (MineState { phase: MinePhase::Fee, ..t }, MineActionView::FetchFeeText)
            } else {
                with_fee(miner.signer@, t, or_zero(miner.priority_fee))
            }
        },
        (MinePhase::Fee, MineEvent::FeeText(text)) => with_fee(
            miner.signer@,
            s,
            fee_from_text(text@, miner.dynamic_fee_max),
        ),
        (MinePhase::ResetClock, MineEvent::Clock(clock)) => if reset_due(
            clock,
            s.config.last_reset_at,
        ) {
            (MineState { phase: MinePhase::Lottery, ..s }, MineActionView::DrawLottery)
        } else {
            with_reset(s, false)
        },
        (MinePhase::Lottery, MineEvent::Lottery(won)) => with_reset(s, won),
        (MinePhase::CutoffClock, MineEvent::Clock(clock)) => (
            MineState { phase: MinePhase::Search, ..s },
            MineActionView::Search {
                challenge: s.proof.challenge,
                cutoff_time: cutoff(s.proof.last_hash_at, clock, args.buffer_time) as u64,
                cores: args.cores,
                min_difficulty: (s.config.min_difficulty % 0x1_0000_0000) as u32,
            },
        ),
        (MinePhase::Search, MineEvent::Found(solution)) => (
            MineState { phase: MinePhase::Bus, solution, ..s },
            MineActionView::FetchBuses,
        ),
        (MinePhase::Bus, MineEvent::Bus(bus)) => with_bus(miner.signer@, s, bus@),
        (MinePhase::Submission, MineEvent::Submitted) => (
            MineState { phase: MinePhase::Balance, ..s },
            MineActionView::FetchBalance { address: miner.signer },
        ),
        (MinePhase::Balance, MineEvent::Balance(Some(sol_balance))) => (
            MineState { phase: MinePhase::Report, last_balance: s.proof.balance, ..s },
            MineActionView::Report {
                sol_balance,
                stake: s.proof.balance,
                change: if s.proof.balance >= s.last_balance {
                    (s.proof.balance - s.last_balance) as u64
                } else {
                    0
                },
                top_balance: s.config.top_balance,
            },
        ),
        (MinePhase::Balance, MineEvent::Balance(None)) => (
            MineState { phase: MinePhase::Stopped, ..s },
            MineActionView::Stop,
        ),
        (MinePhase::Report, MineEvent::Reported) => (
            MineState { phase: MinePhase::Config, ..s },
            MineActionView::FetchConfig,
        ),
        _ => (s, MineActionView::Ignore),
    }
}

/// The compute units of a round with a priority fee, modulo 2^64.
pub fn compute_budget(priority_fee: u64) -> (r: u64)
    ensures
        r == budget_with(priority_fee),
{
    BASE_COMPUTE_UNITS.wrapping_add(priority_fee)
}

/// Zero wins the reset lottery.
pub open spec fn wins(draw: usize) -> bool {
    draw == 0
}

/// Does a draw win the reset lottery?
pub fn lottery_won(draw: usize) -> (r: bool)
    ensures
        r == wins(draw),
{
    draw == 0
}

/// Draws the reset lottery: one number out of a hundred wins.
pub fn draw_lottery() -> (r: bool)
    ensures
        exists|draw: usize|
            draw < RESET_ODDS && #[trigger] drawn_below(RESET_ODDS, draw) && r == wins(draw),
{
    let draw: usize = draw_below(RESET_ODDS);
    lottery_won(draw)
}

impl MineState {
    /// The state of a loop that has not begun.
    pub fn start() -> (r: (Self, MineAction))
        ensures
            r.0.phase == MinePhase::Config,
            r.0.last_hash_at == 0,
            r.0.last_balance == 0,
            r.0.config == (Config { last_reset_at: 0, min_difficulty: 0, top_balance: 0 }),
            r.0.proof.balance == 0,
            r.0.proof.challenge@ == Seq::new(32, |i: int| 0u8),
            r.0.proof.last_hash_at == 0,
            r.0.compute_budget == 0,
            !r.0.reset,
            r.0.solution.d@ == Seq::new(16, |i: int| 0u8),
            r.0.solution.n@ == Seq::new(8, |i: int| 0u8),
            r.1@ == MineActionView::FetchConfig,
    {
        let challenge = [0u8; 32];
        let d = [0u8; 16];
        let n = [0u8; 8];
        assert(challenge@ =~= Seq::new(32, |i: int| 0u8));
        assert(d@ =~= Seq::new(16, |i: int| 0u8));
        assert(n@ =~= Seq::new(8, |i: int| 0u8));
        (
            MineState {
                phase: MinePhase::Config,
                last_hash_at: 0,
                last_balance: 0,
                config: Config { last_reset_at: 0, min_difficulty: 0, top_balance: 0 },
                proof: Proof { balance: 0, challenge, last_hash_at: 0 },
                compute_budget: 0,
                reset: false,
                solution: Solution { d, n },
            },
            MineAction::FetchConfig,
        )
    }
}

impl Miner {
    /// Takes note of the fee of a round.
    fn enter_fee(&self, state: &mut MineState, fee: u64) -> (r: MineAction)
        ensures
            (*final(state), r@) == with_fee(self.signer@, *old(state), fee),
    {
        match proof_address(&self.signer) {
            Some(_) => {
                state.compute_budget = compute_budget(fee);
                state.phase = MinePhase::ResetClock;
                MineAction::FetchClock
            },
            None => {
                state.phase = MinePhase::Stopped;
                MineAction::Abort(MineFault::NoProofAddress)
            },
        }
    }

    /// Puts the transaction of a round together.
    fn enter_bus(&self, state: &mut MineState, bus: &[u8; 32]) -> (r: MineAction)
        ensures
            (*final(state), r@) == with_bus(self.signer@, *old(state), bus@),
            r@ is Submit ==> hands_in(
                r@->instructions,
                self.signer@,
                old(state).reset,
                bus@,
                old(state).solution,
            ),
    {
        let proof = match proof_address(&self.signer) {
            Some(proof) => proof,
            None => {
                state.phase = MinePhase::Stopped;
                return MineAction::Abort(MineFault::NoProofAddress);
            },
        };
        if state.compute_budget > u32::MAX as u64 {
            state.phase = MinePhase::Stopped;
            return MineAction::Abort(MineFault::BudgetTooLarge);
        }
        let mut instructions: Vec<Instruction> = Vec::new();
        instructions.push(auth(&proof));
        if state.reset {
            instructions.push(reset(&self.signer));
        }
        instructions.push(mine(&self.signer, &self.signer, bus, &state.solution));
        state.phase = MinePhase::Submission;
        assert(instruction_views(instructions@) =~= planned(
            self.signer@,
            proof@,
            state.reset,
            bus@,
            state.solution,
        ));
        MineAction::Submit {
            instructions,
            compute_units: state.compute_budget as u32,
            skip_confirm: false,
        }
    }

    /// One step of the mining loop: takes note of an event and says what to do next.
    pub fn mine(&self, args: &MineArgs, state: &mut MineState, event: MineEvent) -> (r: MineAction)
        ensures
            (*final(state), r@) == mine_next(*self, *args, *old(state), event),
            r@ is Submit ==> event is Bus && hands_in(
                r@->instructions,
                self.signer@,
                old(state).reset,
                event->Bus_0@,
                old(state).solution,
            ),
    {
        match (state.phase, event) {
            (MinePhase::Config, MineEvent::Config(config)) => {
                state.config = config;
                state.phase = MinePhase::Proof;
                MineAction::FetchProof { authority: self.signer, last_hash_at: state.last_hash_at }
            },
            (MinePhase::Proof, MineEvent::Proof(proof)) => {
                state.proof = proof;
                state.last_hash_at = proof.last_hash_at;
                if self.dynamic_fee {
                    state.phase = MinePhase::Fee;
                    MineAction::FetchFeeText
                } else {
                    self.enter_fee(state, self.static_fee())
                }
            },
            (MinePhase::Fee, MineEvent::FeeText(text)) => {
                let fee: u64 = match parse_u64(text.as_str()) {
                    Some(fee) => fee,
                    None => 0,
                };
                self.enter_fee(state, self.cap_fee(fee))
            },
            (MinePhase::ResetClock, MineEvent::Clock(clock)) => {
                if should_reset(clock, state.config.last_reset_at) {
                    state.phase = MinePhase::Lottery;
                    MineAction::DrawLottery
                } else {
                    state.reset = false;
                    state.phase = MinePhase::CutoffClock;
                    MineAction::FetchClock
                }
            },
            (MinePhase::Lottery, MineEvent::Lottery(won)) => {
                state.reset = won;
                state.phase = MinePhase::CutoffClock;
                MineAction::FetchClock
            },
            (MinePhase::CutoffClock, MineEvent::Clock(clock)) => {
                state.phase = MinePhase::Search;
                MineAction::Search {
                    challenge: state.proof.challenge,
                    cutoff_time: get_cutoff(state.proof.last_hash_at, clock, args.buffer_time),
                    cores: args.cores,
                    min_difficulty: (state.config.min_difficulty % 0x1_0000_0000) as u32,
                }
            },
            (MinePhase::Search, MineEvent::Found(solution)) => {
                state.solution = solution;
                state.phase = MinePhase::Bus;
                MineAction::FetchBuses
            },
            (MinePhase::Bus, MineEvent::Bus(bus)) => self.enter_bus(state, &bus),
            (MinePhase::Submission, MineEvent::Submitted) => {
                state.phase = MinePhase::Balance;
                MineAction::FetchBalance { address: self.signer }
            },
            (MinePhase::Balance, MineEvent::Balance(Some(sol_balance))) => {
                let change: u64 = state.proof.balance.saturating_sub(state.last_balance);
                state.last_balance = state.proof.balance;
                state.phase = MinePhase::Report;
                MineAction::Report {
                    sol_balance,
                    stake: state.proof.balance,
                    change,
                    top_balance: state.config.top_balance,
                }
            },
            (MinePhase::Balance, MineEvent::Balance(None)) => {
                state.phase = MinePhase::Stopped;
                MineAction::Stop
            },
            (MinePhase::Report, MineEvent::Reported) => {
                state.phase = MinePhase::Config;
                MineAction::FetchConfig
            },
            _ => MineAction::Ignore,
        }
    }
}

} // verus!
