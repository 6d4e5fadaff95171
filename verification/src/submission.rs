//! The way of a transaction: attempts to send it, and questions whether it was confirmed.

use vstd::prelude::*;

use crate::chain::{
    copy_all, instruction_views, price_instruction, set_compute_unit_price, Instruction,
    InstructionView,
};
use crate::miner::Miner;
use crate::sending::{
    check_balance, first_verdict, judge, prepared, send_config, signers_of, transaction_config,
    ComputeBudget, SignatureStatus, Signers, TransactionConfig, Verdict, VerdictView, CONFIRM_DELAY,
    CONFIRM_RETRIES, GATEWAY_DELAY, GATEWAY_RETRIES, MIN_BALANCE_LAMPORTS, REFRESH_INTERVAL,
};
use crate::text::{decimal, decimal_text};

verus! {

/// What a submission waits for.
#[derive(Clone, Copy, PartialEq, Eq, Structural)]
pub enum SendPhase {
    Balance,
    Fee,
    Blockhash,
    Signature,
    Sending,
    Waiting,
    Polling,
    Done,
}

/// A transaction on its way.
pub struct Submission {
    phase: SendPhase,
    attempts: u64,
    polls: u64,
    skip_confirm: bool,
    transaction: Vec<Instruction>,
    instructions: Vec<Instruction>,
    signature: Option<[u8; 64]>,
}

/// What a [`Submission`] holds.
pub struct SubmissionView {
    pub phase: SendPhase,
    /// The attempts that failed.
    pub attempts: u64,
    /// The questions for the status that told nothing.
    pub polls: u64,
    /// Is the transaction left alone once it is sent?
    pub skip_confirm: bool,
    /// The instructions that the transaction is built from.
    pub transaction: Seq<InstructionView>,
    /// The same instructions with the latest price of the compute units.
    pub instructions: Seq<InstructionView>,
    /// The signature under which the transaction was sent, once it was.
    pub signature: Option<[u8; 64]>,
}

impl View for Submission {
    type V = SubmissionView;

    closed spec fn view(&self) -> SubmissionView {
        SubmissionView {
            phase: self.phase,
            attempts: self.attempts,
            polls: self.polls,
            skip_confirm: self.skip_confirm,
            transaction: instruction_views(self.transaction@),
            instructions: instruction_views(self.instructions@),
            signature: self.signature,
        }
    }
}

/// What happened. `None` stands for a request that failed.
pub enum SendEvent {
    /// The balance of the one who pays was asked for.
    Balance(Option<u64>),
    /// The fee was estimated; `None` where there is no estimate.
    Fee(Option<u64>),
    /// The latest blockhash was asked for.
    Blockhash(Option<[u8; 32]>),
    /// The transaction was signed.
    Signed,
    /// The transaction was sent, under the given signature.
    Sent(Option<[u8; 64]>),
    /// The time between two attempts is over.
    Waited,
    /// The status of the transaction was asked for.
    Statuses(Option<Vec<Option<SignatureStatus>>>),
}

/// How a submission ended.
pub enum SendOutcome {
    /// The balance, given here, is too small.
    InsufficientBalance(u64),
    /// A request failed.
    RequestFailed,
    /// The transaction was sent under the given signature; nobody asked whether it was confirmed.
    Sent([u8; 64]),
    /// The transaction with the given signature is confirmed.
    Confirmed([u8; 64]),
    /// The transaction failed, for the reason given.
    TransactionFailed(String),
    /// No attempt succeeded.
    MaxRetries,
    /// The transaction was sent and not confirmed in time.
    ConfirmationFailed,
}

/// What a [`SendOutcome`] says.
pub enum SendOutcomeView {
    InsufficientBalance(u64),
    RequestFailed,
    Sent([u8; 64]),
    Confirmed([u8; 64]),
    TransactionFailed(Seq<char>),
    MaxRetries,
    ConfirmationFailed,
}

impl View for SendOutcome {
    type V = SendOutcomeView;

    open spec fn view(&self) -> SendOutcomeView {
        match *self {
            SendOutcome::InsufficientBalance(balance) => SendOutcomeView::InsufficientBalance(
                balance,
            ),
            SendOutcome::RequestFailed => SendOutcomeView::RequestFailed,
            SendOutcome::Sent(signature) => SendOutcomeView::Sent(signature),
            SendOutcome::Confirmed(signature) => SendOutcomeView::Confirmed(signature),
            SendOutcome::TransactionFailed(err) => SendOutcomeView::TransactionFailed(err@),
            SendOutcome::MaxRetries => SendOutcomeView::MaxRetries,
            SendOutcome::ConfirmationFailed => SendOutcomeView::ConfirmationFailed,
        }
    }
}

/// What to do next.
pub enum SendAction {
    /// Ask for the balance of the given address.
    FetchBalance { address: [u8; 32] },
    FetchFee,
    FetchBlockhash,
    /// Sign the transaction, with the given blockhash.
    Sign { signers: Signers, blockhash: [u8; 32] },
    /// Send the transaction, for which `payer` pays; `attempt` attempts failed before.
    Send { attempt: u64, payer: [u8; 32], config: TransactionConfig },
    Wait { millis: u64 },
    /// Wait, then ask for the status of the transaction with the given signature.
    Poll { delay_millis: u64, signature: [u8; 64] },
    Finish(SendOutcome),
    /// Nothing: the event was not waited for.
    Ignore,
}

/// What a [`SendAction`] says.
pub enum SendActionView {
    FetchBalance { address: [u8; 32] },
    FetchFee,
    FetchBlockhash,
    Sign { signers: Signers, blockhash: [u8; 32] },
    Send { attempt: u64, payer: [u8; 32], config: TransactionConfig },
    Wait { millis: u64 },
    Poll { delay_millis: u64, signature: [u8; 64] },
    Finish(SendOutcomeView),
    Ignore,
}

impl View for SendAction {
    type V = SendActionView;

    open spec fn view(&self) -> SendActionView {
        match *self {
            SendAction::FetchBalance { address } => SendActionView::FetchBalance { address },
            SendAction::FetchFee => SendActionView::FetchFee,
            SendAction::FetchBlockhash => SendActionView::FetchBlockhash,
            SendAction::Sign { signers, blockhash } => SendActionView::Sign { signers, blockhash },
            SendAction::Send { attempt, payer, config } => SendActionView::Send {
                attempt,
                payer,
                config,
            },
            SendAction::Wait { millis } => SendActionView::Wait { millis },
            SendAction::Poll { delay_millis, signature } => SendActionView::Poll {
                delay_millis,
                signature,
            },
            SendAction::Finish(outcome) => SendActionView::Finish(outcome@),
            SendAction::Ignore => SendActionView::Ignore,
        }
    }
}

impl SubmissionView {
    /// Limit and price come first, neither attempts nor questions exceed their number, only every
    /// fifth attempt renews the blockhash, and there is a signature to ask about.
    pub open spec fn valid(self) -> bool {
        &&& self.instructions.len() >= 2
        &&& self.attempts <= GATEWAY_RETRIES + 1
        &&& self.polls <= CONFIRM_RETRIES
        &&& self.phase != SendPhase::Done ==> self.attempts <= GATEWAY_RETRIES && self.polls
            < CONFIRM_RETRIES
        &&& self.phase == SendPhase::Balance ==> self.attempts == 0
        &&& self.refreshing() ==> self.attempts % REFRESH_INTERVAL == 0
        &&& self.phase == SendPhase::Polling ==> self.signature is Some
    }

    /// Is the blockhash being renewed, or the fee before that?
    pub open spec fn refreshing(self) -> bool {
        self.phase == SendPhase::Fee || self.phase == SendPhase::Blockhash || self.phase
            == SendPhase::Signature
    }
}

/// A submission that has not begun.
pub open spec fn fresh(instructions: Seq<InstructionView>, skip_confirm: bool) -> SubmissionView {
    SubmissionView {
        phase: SendPhase::Balance,
        attempts: 0,
        polls: 0,
        skip_confirm,
        transaction: instructions,
        instructions,
        signature: None,
    }
}

/// The sending of a transaction after `attempts` attempts that failed: the one who pays is the
/// fee payer of the miner.
pub open spec fn sending(miner: Miner, attempts: u64) -> SendActionView {
    SendActionView::Send { attempt: attempts, payer: miner.fee_payer, config: send_config() }
}

/// The end of a submission.
pub open spec fn finished(s: SubmissionView, outcome: SendOutcomeView) -> (
    SubmissionView,
    SendActionView,
) {
    (SubmissionView { phase: SendPhase::Done, ..s }, SendActionView::Finish(outcome))
}

/// The start of an attempt: every fifth one renews the blockhash, and before that the fee where
/// fees are estimated.
pub open spec fn attempting(miner: Miner, s: SubmissionView) -> (SubmissionView, SendActionView) {
    if s.attempts % REFRESH_INTERVAL == 0 {
        if miner.dynamic_fee_strategy is Some {
            (SubmissionView { phase: SendPhase::Fee, ..s }, SendActionView::FetchFee)
        } else {
            (SubmissionView { phase: SendPhase::Blockhash, ..s }, SendActionView::FetchBlockhash)
        }
    } else {
        (SubmissionView { phase: SendPhase::Sending, ..s }, sending(miner, s.attempts))
    }
}

/// After a question for the status that told nothing.
pub open spec fn asked_in_vain(s: SubmissionView) -> (SubmissionView, SendActionView) {
    let t = SubmissionView { polls: (s.polls + 1) as u64, ..s };
    if t.polls < CONFIRM_RETRIES {
        (t, SendActionView::Poll { delay_millis: CONFIRM_DELAY, signature: s.signature->0 })
    } else {
        finished(t, SendOutcomeView::ConfirmationFailed)
    }
}

/// The instructions with the price of the compute units set to `fee`, where there is one.
pub open spec fn repriced(ixs: Seq<InstructionView>, fee: Option<u64>) -> Seq<InstructionView> {
    match fee {
        Some(fee) => ixs.update(1, price_instruction(fee)),
        None => ixs,
    }
}

/// The submission and the action after an event.
pub open spec fn send_next(miner: Miner, s: SubmissionView, e: SendEvent) -> (
    SubmissionView,
    SendActionView,
) {
    match (s.phase, e) {
        (SendPhase::Balance, SendEvent::Balance(Some(balance))) => if balance
            > MIN_BALANCE_LAMPORTS {
            attempting(miner, s)
        } else {
            finished(s, SendOutcomeView::InsufficientBalance(balance))
        },
        (SendPhase::Balance, SendEvent::Balance(None)) => finished(
            s,
            SendOutcomeView::RequestFailed,
        ),
        (SendPhase::Fee, SendEvent::Fee(fee)) => (
            SubmissionView {
                phase: SendPhase::Blockhash,
                instructions: repriced(s.instructions, fee),
                ..s
            },
            SendActionView::FetchBlockhash,
        ),
        (SendPhase::Blockhash, SendEvent::Blockhash(Some(blockhash))) => (
            SubmissionView { phase: SendPhase::Signature, ..s },
            SendActionView::Sign { signers: signers_of(miner), blockhash },
        ),
        (SendPhase::Blockhash, SendEvent::Blockhash(None)) => finished(
            s,
            SendOutcomeView::RequestFailed,
        ),
        (SendPhase::Signature, SendEvent::Signed) => (
            SubmissionView { phase: SendPhase::Sending, ..s },
            sending(miner, s.attempts),
        ),
        (SendPhase::Sending, SendEvent::Sent(Some(signature))) => {
            let t = SubmissionView { signature: Some(signature), ..s };
            if s.skip_confirm {
                finished(t, SendOutcomeView::Sent(signature))
            } else {
                (
                    SubmissionView { phase: SendPhase::Polling, ..t },
                    SendActionView::Poll { delay_millis: CONFIRM_DELAY, signature },
                )
            }
        },
        (SendPhase::Sending, SendEvent::Sent(None)) => (
            SubmissionView { phase: SendPhase::Waiting, ..s },
            SendActionView::Wait { millis: GATEWAY_DELAY },
        ),
        (SendPhase::Waiting, SendEvent::Waited) => {
            let t = SubmissionView { attempts: (s.attempts + 1) as u64, ..s };
            if t.attempts > GATEWAY_RETRIES {
                finished(t, SendOutcomeView::MaxRetries)
            } else {
                attempting(miner, t)
            }
        },
        (SendPhase::Polling, SendEvent::Statuses(Some(statuses))) => match first_verdict(
            statuses@,
        ) {
            VerdictView::Failed(err) => finished(s, SendOutcomeView::TransactionFailed(err)),
            VerdictView::Confirmed => finished(s, SendOutcomeView::Confirmed(s.signature->0)),
            VerdictView::Pending => asked_in_vain(s),
        },
        (SendPhase::Polling, SendEvent::Statuses(None)) => asked_in_vain(s),
        _ => (s, SendActionView::Ignore),
    }
}

impl Miner {
    /// Starts sending a transaction: puts its instructions together and asks for the balance of the
    /// one who pays.
    pub fn send_and_confirm(
        &self,
        ixs: &[Instruction],
        compute_budget: ComputeBudget,
        skip_confirm: bool,
    ) -> (r: (Submission, SendAction))
        ensures
            r.0@ == fresh(
                prepared(self.priority_fee, compute_budget, instruction_views(ixs@)),
                skip_confirm,
            ),
            r.0@.valid(),
            r.1@ == (SendActionView::FetchBalance { address: self.fee_payer }),
    {
        let instructions = self.prepare_instructions(ixs, compute_budget);
        let transaction = copy_all(&instructions);
        (
            Submission {
                phase: SendPhase::Balance,
                attempts: 0,
                polls: 0,
                skip_confirm,
                transaction,
                instructions,
                signature: None,
            },
            SendAction::FetchBalance { address: self.fee_payer },
        )
    }
}

impl Submission {
    /// The instructions of the transaction. It is built from them once, before anything is sent; a
    /// fee that is estimated later does not reach it.
    pub fn transaction(&self) -> (r: &Vec<Instruction>)
        ensures
            instruction_views(r@) == self@.transaction,
    {
        &self.transaction
    }

    /// The instructions with the latest price of the compute units. After a fee estimate these are
    /// not those of the transaction, which keeps the price that it was built with.
    pub fn instructions(&self) -> (r: &Vec<Instruction>)
        ensures
            instruction_views(r@) == self@.instructions,
    {
        &self.instructions
    }

    /// The number of attempts that failed.
    pub fn attempts(&self) -> (r: u64)
        ensures
            r == self@.attempts,
    {
        self.attempts
    }

    /// Ends the submission.
    fn finish(&mut self, outcome: SendOutcome) -> (r: SendAction)
        ensures
            (final(self)@, r@) == finished(old(self)@, outcome@),
    {
        self.phase = SendPhase::Done;
        SendAction::Finish(outcome)
    }

    /// Sends the transaction.
    fn send(&mut self, miner: &Miner) -> (r: SendAction)
        ensures
            final(self)@ == (SubmissionView { phase: SendPhase::Sending, ..old(self)@ }),
            r@ == sending(*miner, old(self)@.attempts),
    {
        self.phase = SendPhase::Sending;
        SendAction::Send {
            attempt: self.attempts,
            payer: miner.fee_payer,
            config: transaction_config(),
        }
    }

    /// Starts an attempt.
    fn attempt(&mut self, miner: &Miner) -> (r: SendAction)
        ensures
            (final(self)@, r@) == attempting(*miner, old(self)@),
    {
        if self.attempts % REFRESH_INTERVAL == 0 {
            if miner.dynamic_fee_strategy.is_some() {
                self.phase = SendPhase::Fee;
                SendAction::FetchFee
            } else {
                self.phase = SendPhase::Blockhash;
                SendAction::FetchBlockhash
            }
        } else {
            self.send(miner)
        }
    }

    /// Takes note of a question for the status that told nothing.
    fn ask_again(&mut self, signature: [u8; 64]) -> (r: SendAction)
        requires
            old(self)@.polls < CONFIRM_RETRIES,
            old(self)@.signature == Some(signature),
        ensures
            (final(self)@, r@) == asked_in_vain(old(self)@),
    {
        self.polls = self.polls + 1;
        if self.polls < CONFIRM_RETRIES {
            SendAction::Poll { delay_millis: CONFIRM_DELAY, signature }
        } else {
            self.finish(SendOutcome::ConfirmationFailed)
        }
    }

    /// Sets the price of the compute units, where there is an estimate.
    fn reprice(&mut self, fee: Option<u64>)
        requires
            old(self)@.instructions.len() >= 2,
        ensures
            final(self)@ == (SubmissionView {
                instructions: repriced(old(self)@.instructions, fee),
                ..old(self)@
            }),
    {
        if let Some(fee) = fee {
            let price = set_compute_unit_price(fee);
            self.instructions.set(1, price);
            assert(instruction_views(self.instructions@) =~= old(self)@.instructions.update(
                1,
                price_instruction(fee),
            ));
        }
    }

    /// One step on the way of a transaction: takes note of an event and says what to do next.
    pub fn advance(&mut self, miner: &Miner, event: SendEvent) -> (r: SendAction)
        requires
            old(self)@.valid(),
        ensures
            (final(self)@, r@) == send_next(*miner, old(self)@, event),
            final(self)@.valid(),
    {
        match (self.phase, event) {
            (SendPhase::Balance, SendEvent::Balance(Some(balance))) => {
                if check_balance(balance) {
                    self.attempt(miner)
                } else {
                    self.finish(SendOutcome::InsufficientBalance(balance))
                }
            },
            (SendPhase::Balance, SendEvent::Balance(None)) => self.finish(
                SendOutcome::RequestFailed,
            ),
            (SendPhase::Fee, SendEvent::Fee(fee)) => {
                self.reprice(fee);
                self.phase = SendPhase::Blockhash;
                SendAction::FetchBlockhash
            },
            (SendPhase::Blockhash, SendEvent::Blockhash(Some(blockhash))) => {
                self.phase = SendPhase::Signature;
                SendAction::Sign { signers: miner.signers(), blockhash }
            },
            (SendPhase::Blockhash, SendEvent::Blockhash(None)) => self.finish(
                SendOutcome::RequestFailed,
            ),
            (SendPhase::Signature, SendEvent::Signed) => self.send(miner),
            (SendPhase::Sending, SendEvent::Sent(Some(signature))) => {
                self.signature = Some(signature);
                if self.skip_confirm {
                    self.finish(SendOutcome::Sent(signature))
                } else {
                    self.phase = SendPhase::Polling;
                    SendAction::Poll { delay_millis: CONFIRM_DELAY, signature }
                }
            },
            (SendPhase::Sending, SendEvent::Sent(None)) => {
                self.phase = SendPhase::Waiting;
                SendAction::Wait { millis: GATEWAY_DELAY }
            },
            (SendPhase::Waiting, SendEvent::Waited) => {
                self.attempts = self.attempts + 1;
                if self.attempts > GATEWAY_RETRIES {
                    self.finish(SendOutcome::MaxRetries)
                } else {
                    self.attempt(miner)
                }
            },
            (SendPhase::Polling, SendEvent::Statuses(answer)) => match self.signature {
                Some(signature) => match answer {
                    Some(statuses) => match judge(&statuses) {
                        Verdict::Failed(err) => self.finish(SendOutcome::TransactionFailed(err)),
                        Verdict::Confirmed => self.finish(SendOutcome::Confirmed(signature)),
                        Verdict::Pending => self.ask_again(signature),
                    },
                    None => self.ask_again(signature),
                },
                None => SendAction::Ignore,
            },
            _ => SendAction::Ignore,
        }
    }
}

/// The message that an attempt is shown with.
pub open spec fn attempt_text(attempt: u64) -> Seq<char> {
    "Submitting transaction... (attempt "@ + decimal(attempt as nat) + ")"@
}

/// Writes the message of an attempt.
pub fn attempt_message(attempt: u64) -> (r: String)
    ensures
        r@ == attempt_text(attempt),
{
    let mut r = "Submitting transaction... (attempt ".to_string();
    let number = decimal_text(attempt);
    r.append(number.as_str());
    r.append(")");
    r
}

/// The text of the error that an outcome of its own amounts to; `None` for a success, for a request
/// that failed, which has an error of its own, and for a balance that is too small.
pub open spec fn error_text(outcome: SendOutcomeView) -> Option<Seq<char>> {
    match outcome {
        SendOutcomeView::TransactionFailed(err) => Some(err),
        SendOutcomeView::MaxRetries => Some("Max retries"@),
        SendOutcomeView::ConfirmationFailed => Some("Confirmation failed"@),
        _ => None,
    }
}

impl SendOutcome {
    /// Writes the error that an outcome amounts to.
    pub fn error_message(&self) -> (r: Option<String>)
        ensures
            match r {
                Some(message) => error_text(self@) == Some(message@),
                None => error_text(self@) is None,
            },
    {
        match self {
            SendOutcome::TransactionFailed(err) => Some(err.clone()),
            SendOutcome::MaxRetries => Some("Max retries".to_string()),
            SendOutcome::ConfirmationFailed => Some("Confirmation failed".to_string()),
            _ => None,
        }
    }
}

/// The most events that a submission can still take note of before it ends.
pub open spec fn events_left(s: SubmissionView) -> int {
    let later = CONFIRM_RETRIES + 6 * (GATEWAY_RETRIES - s.attempts);
    match s.phase {
        SendPhase::Balance => later + 6,
        SendPhase::Fee => later + 5,
        SendPhase::Blockhash => later + 4,
        SendPhase::Signature => later + 3,
        SendPhase::Sending => later + 2,
        SendPhase::Waiting => later + 1,
        SendPhase::Polling => CONFIRM_RETRIES - s.polls,
        SendPhase::Done => 0,
    }
}

/// A submission comes to an end: every event that it waits for keeps it valid and brings it closer
/// to its end, and one that it does not wait for changes nothing.
pub proof fn law_submission_makes_progress(miner: Miner, s: SubmissionView, e: SendEvent)
    requires
        s.valid(),
    ensures
        ({
            let (t, action) = send_next(miner, s, e);
            &&& t.valid()
            &&& action is Ignore ==> t == s
            &&& action !is Ignore ==> 0 <= events_left(t) < events_left(s)
            &&& t.phase == SendPhase::Done && action !is Ignore ==> action is Finish
            &&& action is Finish ==> t.phase == SendPhase::Done
        }),
{
}

/// The end of a submission is final.
pub proof fn law_done_is_final(miner: Miner, s: SubmissionView, e: SendEvent)
    requires
        s.phase == SendPhase::Done,
    ensures
        send_next(miner, s, e) == (s, SendActionView::Ignore),
{
}

/// A submission changes no instruction but the price of the compute units, and that only to the
/// price that a fee estimate names. The transaction keeps the instructions that it was built from.
pub proof fn law_only_the_price_changes(miner: Miner, s: SubmissionView, e: SendEvent)
    requires
        s.valid(),
    ensures
        ({
            let t = send_next(miner, s, e).0;
            &&& t.transaction == s.transaction
            &&& t.instructions.len() == s.instructions.len()
            &&& forall|i: int|
                0 <= i < s.instructions.len() && i != 1 ==> t.instructions[i] == s.instructions[i]
            &&& t.instructions[1] != s.instructions[1] ==> exists|fee: u64|
                e == SendEvent::Fee(Some(fee)) && t.instructions[1] == #[trigger] price_instruction(
                    fee,
                )
        }),
{
    if let SendEvent::Fee(Some(fee)) = e {
        assert(price_instruction(fee) == price_instruction(fee));
    }
}

/// Every fifth attempt, the first included, signs anew with the latest blockhash before it sends:
/// one that sends without having signed is none of them, and each of the others is sent just after
/// it was signed.
pub proof fn law_every_fifth_attempt_signs_anew(miner: Miner, s: SubmissionView, e: SendEvent)
    requires
        s.valid(),
    ensures
        ({
            let (t, action) = send_next(miner, s, e);
            &&& action is Send ==> action == sending(miner, t.attempts)
            &&& action is Send && t.attempts % REFRESH_INTERVAL == 0 ==> s.phase
                == SendPhase::Signature && e is Signed
            &&& action is Sign ==> {
                &&& s.phase == SendPhase::Blockhash
                &&& e == SendEvent::Blockhash(Some(action->blockhash))
                &&& action->signers == signers_of(miner)
            }
        }),
{
}

/// An end is earned: a submission is confirmed only where a status says so, counts as sent without
/// that only where nobody wants to know, and is given up only after the last attempt or the last
/// question, or for the reason that a status or the balance gives.
pub proof fn law_outcome_is_earned(miner: Miner, s: SubmissionView, e: SendEvent)
    requires
        s.valid(),
    ensures
        ({
            let (t, action) = send_next(miner, s, e);
            match action {
                SendActionView::Finish(outcome) => match outcome {
                    SendOutcomeView::InsufficientBalance(balance) => e == SendEvent::Balance(
                        Some(balance),
                    ) && balance <= MIN_BALANCE_LAMPORTS,
                    SendOutcomeView::RequestFailed => e == SendEvent::Balance(None) || e
                        == SendEvent::Blockhash(None),
                    SendOutcomeView::Sent(signature) => s.skip_confirm && e == SendEvent::Sent(
                        Some(signature),
                    ),
                    SendOutcomeView::Confirmed(signature) => {
                        &&& s.signature == Some(signature)
                        &&& e is Statuses && e->Statuses_0 is Some
                        &&& first_verdict(e->Statuses_0->0@) == VerdictView::Confirmed
                    },
                    SendOutcomeView::TransactionFailed(err) => {
                        &&& e is Statuses && e->Statuses_0 is Some
                        &&& first_verdict(e->Statuses_0->0@) == VerdictView::Failed(err)
                    },
                    SendOutcomeView::MaxRetries => e is Waited && t.attempts == GATEWAY_RETRIES + 1,
                    SendOutcomeView::ConfirmationFailed => e is Statuses && t.polls
                        == CONFIRM_RETRIES,
                },
                _ => true,
            }
        }),
{
}

/// A transaction that is left alone once it is sent is never asked about.
pub proof fn law_skipped_confirmation_never_polls(miner: Miner, s: SubmissionView, e: SendEvent)
    requires
        s.skip_confirm,
        s.phase != SendPhase::Polling,
    ensures
        send_next(miner, s, e).0.skip_confirm,
        send_next(miner, s, e).0.phase != SendPhase::Polling,
        send_next(miner, s, e).1 !is Poll,
{
}

/// A submission is seen as what it holds.
proof fn law_submission_is_seen_as_it_is(s: Submission)
    ensures
        s@.phase == s.phase,
        s@.attempts == s.attempts,
        s@.polls == s.polls,
        s@.skip_confirm == s.skip_confirm,
        s@.transaction == instruction_views(s.transaction@),
        s@.instructions == instruction_views(s.instructions@),
        s@.signature == s.signature,
{
}

} // verus!
