//! A transaction to send: its instructions, who signs it, how it is sent, and what its statuses amount
//! to.

use vstd::prelude::*;

use crate::chain::{
    instruction_views, limit_instruction, price_instruction, set_compute_unit_limit,
    set_compute_unit_price, Instruction, InstructionView,
};
use crate::miner::{or_zero, Miner};

verus! {

/// The most lamports with which nothing is sent any more: 0.0005 SOL.
pub const MIN_BALANCE_LAMPORTS: u64 = 500_000;

/// The retries that the node is asked to make by itself.
pub const RPC_RETRIES: usize = 0;

/// The retries after the first attempt.
pub const GATEWAY_RETRIES: u64 = 150;

/// The times that the status of a transaction is asked for.
pub const CONFIRM_RETRIES: u64 = 8;

/// The milliseconds before each question for the status.
pub const CONFIRM_DELAY: u64 = 0;

/// The milliseconds between two attempts.
pub const GATEWAY_DELAY: u64 = 300;

/// The blockhash is renewed before every fifth attempt, the first included.
pub const REFRESH_INTERVAL: u64 = 5;

/// The compute unit limit of a dynamic budget.
pub const DYNAMIC_COMPUTE_UNITS: u32 = 1_400_000;

/// The compute units of a transaction.
#[derive(Clone, Copy, PartialEq, Eq, Structural)]
pub enum ComputeBudget {
    Dynamic,
    Fixed(u32),
}

/// The compute unit limit of a budget.
pub open spec fn units_of(budget: ComputeBudget) -> u32 {
    match budget {
        ComputeBudget::Dynamic => DYNAMIC_COMPUTE_UNITS,
        ComputeBudget::Fixed(units) => units,
    }
}

/// The instructions of a transaction: limit and price of its compute units before the given ones.
pub open spec fn prepared(
    priority_fee: Option<u64>,
    budget: ComputeBudget,
    ixs: Seq<InstructionView>,
) -> Seq<InstructionView> {
    seq![limit_instruction(units_of(budget)), price_instruction(or_zero(priority_fee))] + ixs
}

/// Who signs a transaction.
#[derive(Clone, Copy, PartialEq, Eq, Structural)]
pub enum Signers {
    /// The signer, who pays too.
    Signer,
    /// The signer and the one who pays.
    SignerAndFeePayer,
}

/// How final a transaction must be.
#[derive(Clone, Copy, PartialEq, Eq, Structural)]
pub enum ConfirmationStatus {
    Processed,
    Confirmed,
    Finalized,
}

/// How a transaction is encoded for sending.
#[derive(Clone, Copy, PartialEq, Eq, Structural)]
pub enum Encoding {
    Base58,
    Base64,
}

/// How a transaction is sent.
#[derive(Clone, Copy)]
pub struct TransactionConfig {
    pub skip_preflight: bool,
    pub preflight_commitment: Option<ConfirmationStatus>,
    pub encoding: Option<Encoding>,
    pub max_retries: Option<usize>,
    pub min_context_slot: Option<u64>,
}

/// How transactions are sent: without a preflight, in base 64, and without retries by the node.
pub open spec fn send_config() -> TransactionConfig {
    TransactionConfig {
        skip_preflight: true,
        preflight_commitment: Some(ConfirmationStatus::Confirmed),
        encoding: Some(Encoding::Base64),
        max_retries: Some(RPC_RETRIES),
        min_context_slot: None,
    }
}

/// How transactions are sent.
pub fn transaction_config() -> (r: TransactionConfig)
    ensures
        r == send_config(),
{
    TransactionConfig {
        skip_preflight: true,
        preflight_commitment: Some(ConfirmationStatus::Confirmed),
        encoding: Some(Encoding::Base64),
        max_retries: Some(RPC_RETRIES),
        min_context_slot: None,
    }
}

/// Is a balance enough to send a transaction?
pub fn check_balance(balance: u64) -> (r: bool)
    ensures
        r == (balance > MIN_BALANCE_LAMPORTS),
{
    !(balance <= MIN_BALANCE_LAMPORTS)
}

/// What became of a transaction, as far as the node knows.
pub struct SignatureStatus {
    /// Why it failed, if it did.
    pub err: Option<String>,
    pub confirmation_status: Option<ConfirmationStatus>,
}

/// What the statuses of a transaction amount to.
pub enum Verdict {
    /// It failed.
    Failed(String),
    /// It is confirmed.
    Confirmed,
    /// Nothing is known yet.
    Pending,
}

/// What a [`Verdict`] says.
pub enum VerdictView {
    Failed(Seq<char>),
    Confirmed,
    Pending,
}

impl View for Verdict {
    type V = VerdictView;

    open spec fn view(&self) -> VerdictView {
        match *self {
            Verdict::Failed(err) => VerdictView::Failed(err@),
            Verdict::Confirmed => VerdictView::Confirmed,
            Verdict::Pending => VerdictView::Pending,
        }
    }
}

/// What one status says: an error counts before a confirmation.
pub open spec fn verdict_of(status: Option<SignatureStatus>) -> VerdictView {
    match status {
        Some(SignatureStatus { err: Some(err), .. }) => VerdictView::Failed(err@),
        Some(SignatureStatus { err: None, confirmation_status: Some(confirmation) }) => if confirmation
            == ConfirmationStatus::Processed {
            VerdictView::Pending
        } else {
            VerdictView::Confirmed
        },
        _ => VerdictView::Pending,
    }
}

/// What the first status says that says anything.
pub open spec fn first_verdict(statuses: Seq<Option<SignatureStatus>>) -> VerdictView
    decreases statuses.len(),
{
    if statuses.len() == 0 {
        VerdictView::Pending
    } else if verdict_of(statuses[0]) != VerdictView::Pending {
        verdict_of(statuses[0])
    } else {
        first_verdict(statuses.skip(1))
    }
}

/// Judges the statuses of a transaction.
pub fn judge(statuses: &Vec<Option<SignatureStatus>>) -> (r: Verdict)
    ensures
        r@ == first_verdict(statuses@),
{
    let mut i: usize = 0;
    assert(statuses@.skip(0) =~= statuses@);
    while i < statuses.len()
        invariant
            i <= statuses.len(),
            first_verdict(statuses@) == first_verdict(statuses@.skip(i as int)),
        decreases statuses.len() - i,
    {
        assert(statuses@.skip(i as int)[0] == statuses@[i as int]);
        if let Some(status) = &statuses[i] {
            if let Some(err) = &status.err {
                return Verdict::Failed(err.clone());
            }
            if let Some(confirmation) = status.confirmation_status {
                match confirmation {
                    ConfirmationStatus::Confirmed | ConfirmationStatus::Finalized => {
                        return Verdict::Confirmed;
                    },
                    ConfirmationStatus::Processed => {},
                }
            }
        }
        assert(statuses@.skip(i as int).skip(1) =~= statuses@.skip(i + 1));
        i = i + 1;
    }
    Verdict::Pending
}

/// Are two addresses the same?
fn same_address(a: &[u8; 32], b: &[u8; 32]) -> (r: bool)
    ensures
        r == (a@ == b@),
{
    let mut i: usize = 0;
    while i < 32
        invariant
            i <= 32,
            forall|k: int| 0 <= k < i ==> a@[k] == b@[k],
        decreases 32 - i,
    {
        if a[i] != b[i] {
            return false;
        }
        i = i + 1;
    }
    assert(a@ =~= b@);
    true
}

/// Who signs the transactions of a miner.
pub open spec fn signers_of(miner: Miner) -> Signers {
    if miner.signer@ == miner.fee_payer@ {
        Signers::Signer
    } else {
        Signers::SignerAndFeePayer
    }
}

impl Miner {
    /// Who signs: one who signs and pays signs once.
    pub fn signers(&self) -> (r: Signers)
        ensures
            r == signers_of(*self),
    {
        if same_address(&self.signer, &self.fee_payer) {
            Signers::Signer
        } else {
            Signers::SignerAndFeePayer
        }
    }

    /// Puts the limit and the price of the compute units before the given instructions.
    pub fn prepare_instructions(&self, ixs: &[Instruction], compute_budget: ComputeBudget) -> (r: Vec<
        Instruction,
    >)
        ensures
            instruction_views(r@) == prepared(
                self.priority_fee,
                compute_budget,
                instruction_views(ixs@),
            ),
    {
        let mut final_ixs: Vec<Instruction> = Vec::new();
        match compute_budget {
            ComputeBudget::Dynamic => {
                final_ixs.push(set_compute_unit_limit(DYNAMIC_COMPUTE_UNITS));
            },
            ComputeBudget::Fixed(units) => {
                final_ixs.push(set_compute_unit_limit(units));
            },
        }
        final_ixs.push(set_compute_unit_price(self.static_fee()));
        let ghost all = prepared(self.priority_fee, compute_budget, instruction_views(ixs@));
        let mut i: usize = 0;
        while i < ixs.len()
            invariant
                i <= ixs.len(),
                all == prepared(self.priority_fee, compute_budget, instruction_views(ixs@)),
                final_ixs@.len() == i + 2,
                forall|k: int| 0 <= k < i + 2 ==> (#[trigger] final_ixs@[k])@ == all[k],
            decreases ixs.len() - i,
        {
            let ix = ixs[i].copy();
            assert(all[i + 2] == ixs@[i as int]@);
            final_ixs.push(ix);
            i = i + 1;
        }
        assert(instruction_views(final_ixs@) =~= all);
        final_ixs
    }
}

/// The verdict on a transaction is that of one of its statuses, and no status before that one says
/// anything; without a verdict no status says anything.
pub proof fn law_first_verdict(statuses: Seq<Option<SignatureStatus>>)
    ensures
        first_verdict(statuses) == VerdictView::Pending ==> forall|i: int|
            0 <= i < statuses.len() ==> verdict_of(#[trigger] statuses[i]) == VerdictView::Pending,
        first_verdict(statuses) != VerdictView::Pending ==> exists|i: int|
            {
                &&& 0 <= i < statuses.len()
                &&& verdict_of(#[trigger] statuses[i]) == first_verdict(statuses)
                &&& forall|j: int|
                    0 <= j < i ==> verdict_of(#[trigger] statuses[j]) == VerdictView::Pending
            },
    decreases statuses.len(),
{
    if statuses.len() > 0 {
        let rest = statuses.skip(1);
        law_first_verdict(rest);
        if verdict_of(statuses[0]) == VerdictView::Pending {
            if first_verdict(rest) == VerdictView::Pending {
                assert forall|i: int| 0 <= i < statuses.len() implies verdict_of(
                    #[trigger] statuses[i],
                ) == VerdictView::Pending by {
                    if i > 0 {
                        assert(rest[i - 1] == statuses[i]);
                    }
                }
            } else {
                let k = choose|k: int|
                    {
                        &&& 0 <= k < rest.len()
                        &&& verdict_of(#[trigger] rest[k]) == first_verdict(rest)
                        &&& forall|j: int|
                            0 <= j < k ==> verdict_of(#[trigger] rest[j]) == VerdictView::Pending
                    };
                assert(statuses[k + 1] == rest[k]);
                assert forall|j: int| 0 <= j < k + 1 implies verdict_of(#[trigger] statuses[j])
                    == VerdictView::Pending by {
                    if j > 0 {
                        assert(rest[j - 1] == statuses[j]);
                    }
                }
            }
        } else {
            assert(verdict_of(statuses[0]) == first_verdict(statuses));
        }
    }
}

} // verus!
