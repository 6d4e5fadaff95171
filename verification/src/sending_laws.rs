//! What a transaction holds, what its statuses amount to, and what a submission does with each thing
//! that happens.

use vstd::prelude::*;

use crate::chain::{
    auth_instruction, limit_instruction, price_instruction, InstructionView, COMPUTE_BUDGET_ID,
    NOOP_PROGRAM_ID,
};
use crate::encoding_laws::{law_u32_bytes_add_up, law_u64_bytes_add_up};
use crate::miner::Miner;
use crate::sending::{
    first_verdict, prepared, send_config, signers_of, units_of, verdict_of, ComputeBudget,
    ConfirmationStatus, Encoding, SignatureStatus, Signers, Verdict, VerdictView,
};
use crate::submission::{
    attempt_text, error_text, fresh, send_next, SendAction, SendActionView, SendEvent, SendOutcome,
    SendOutcomeView, SendPhase, SubmissionView,
};
use crate::text::{decimal, law_decimal_round_trip, parsed_u64};

verus! {

/// The instruction for the limit is for the compute budget program, without accounts; its data is
/// the number 2 and four bytes that add up to the limit.
pub proof fn law_limit_is_in_the_data(units: u32)
    ensures
        ({
            let ix = limit_instruction(units);
            &&& ix.program_id == COMPUTE_BUDGET_ID@
            &&& ix.accounts.len() == 0
            &&& ix.data.len() == 5
            &&& ix.data[0] == 2
            &&& units == ix.data[1] + 256 * ix.data[2] + 65536 * ix.data[3] + 16777216 * ix.data[4]
        }),
{
    law_u32_bytes_add_up(units);
}

/// The instruction for the price is for the compute budget program, without accounts; its data is
/// the number 3 and eight bytes that add up to the price.
pub proof fn law_price_is_in_the_data(price: u64)
    ensures
        ({
            let ix = price_instruction(price);
            &&& ix.program_id == COMPUTE_BUDGET_ID@
            &&& ix.accounts.len() == 0
            &&& ix.data.len() == 9
            &&& ix.data[0] == 3
            &&& price == ix.data[1] + 256 * ix.data[2] + 65536 * ix.data[3] + 16777216 * ix.data[4]
                + 4294967296 * ix.data[5] + 1099511627776 * ix.data[6] + 281474976710656
                * ix.data[7] + 72057594037927936 * ix.data[8]
        }),
{
    law_u64_bytes_add_up(price);
}

/// The instruction that names a proof account is for the noop program, without accounts, and its
/// data is that address.
pub proof fn law_proof_account_is_the_data(proof: Seq<u8>)
    ensures
        auth_instruction(proof).program_id == NOOP_PROGRAM_ID@,
        auth_instruction(proof).accounts.len() == 0,
        auth_instruction(proof).data == proof,
{
}

/// A transaction holds the limit of its budget, the price that is set, or zero, and then the given
/// instructions, each in its place. A dynamic budget has the limit 1400000.
pub proof fn law_transaction_holds(fee: u64, units: u32, ixs: Seq<InstructionView>, i: int)
    ensures
        ({
            let set = prepared(Some(fee), ComputeBudget::Fixed(units), ixs);
            let unset = prepared(None, ComputeBudget::Dynamic, ixs);
            &&& set.len() == ixs.len() + 2
            &&& unset.len() == ixs.len() + 2
            &&& set[0] == limit_instruction(units)
            &&& set[1] == price_instruction(fee)
            &&& unset[0] == limit_instruction(1_400_000)
            &&& unset[1] == price_instruction(0)
            &&& 0 <= i < ixs.len() ==> set[i + 2] == ixs[i] && unset[i + 2] == ixs[i]
            &&& prepared(None, ComputeBudget::Fixed(units), ixs)[0] == limit_instruction(units)
            &&& prepared(None, ComputeBudget::Fixed(units), ixs).skip(1) == unset.skip(1)
            &&& prepared(Some(fee), ComputeBudget::Dynamic, ixs)[0] == limit_instruction(1_400_000)
            &&& prepared(Some(fee), ComputeBudget::Dynamic, ixs).skip(1) == set.skip(1)
        }),
        units_of(ComputeBudget::Fixed(units)) == units,
        units_of(ComputeBudget::Dynamic) == 1_400_000,
{
    let set = prepared(Some(fee), ComputeBudget::Fixed(units), ixs);
    let unset = prepared(None, ComputeBudget::Dynamic, ixs);
    assert(prepared(None, ComputeBudget::Fixed(units), ixs).skip(1) =~= unset.skip(1));
    assert(prepared(Some(fee), ComputeBudget::Dynamic, ixs).skip(1) =~= set.skip(1));
}

/// Transactions are sent without a preflight, which would be at the confirmed level, in base 64,
/// without retries by the node, and at any slot.
pub proof fn law_how_transactions_are_sent()
    ensures
        send_config().skip_preflight,
        send_config().preflight_commitment == Some(ConfirmationStatus::Confirmed),
        send_config().encoding == Some(Encoding::Base64),
        send_config().max_retries == Some(0usize),
        send_config().min_context_slot is None,
{
}

/// The signer signs alone exactly where the signer pays.
pub proof fn law_who_signs(miner: Miner)
    ensures
        miner.signer@ == miner.fee_payer@ <==> signers_of(miner) == Signers::Signer,
        miner.signer@ != miner.fee_payer@ <==> signers_of(miner) == Signers::SignerAndFeePayer,
{
}

/// Does a status say neither that the transaction failed nor that it is confirmed?
pub open spec fn tells_nothing(status: Option<SignatureStatus>) -> bool {
    status is Some ==> status->0.err is None && (status->0.confirmation_status is None
        || status->0.confirmation_status == Some(ConfirmationStatus::Processed))
}

/// Do the statuses say first that the transaction is confirmed? One of them says so without an error,
/// at the confirmed or the finalized level, and none before it says anything.
pub open spec fn first_confirms(statuses: Seq<Option<SignatureStatus>>, i: int) -> bool {
    &&& 0 <= i < statuses.len()
    &&& statuses[i] is Some
    &&& statuses[i]->0.err is None
    &&& statuses[i]->0.confirmation_status == Some(ConfirmationStatus::Confirmed)
        || statuses[i]->0.confirmation_status == Some(ConfirmationStatus::Finalized)
    &&& forall|j: int| 0 <= j < i ==> tells_nothing(#[trigger] statuses[j])
}

/// Do the statuses say first that the transaction failed? One of them has an error, and none before
/// it says anything.
pub open spec fn first_fails(statuses: Seq<Option<SignatureStatus>>, i: int) -> bool {
    &&& 0 <= i < statuses.len()
    &&& statuses[i] is Some
    &&& statuses[i]->0.err is Some
    &&& forall|j: int| 0 <= j < i ==> tells_nothing(#[trigger] statuses[j])
}

/// The statuses of a transaction count by the first that says anything.
pub proof fn law_first_word_counts(statuses: Seq<Option<SignatureStatus>>, i: int)
    ensures
        first_confirms(statuses, i) ==> first_verdict(statuses) == VerdictView::Confirmed,
        first_fails(statuses, i) ==> first_verdict(statuses) == VerdictView::Failed(
            statuses[i]->0.err->0@,
        ),
        (forall|j: int| 0 <= j < statuses.len() ==> tells_nothing(#[trigger] statuses[j]))
            ==> first_verdict(statuses) == VerdictView::Pending,
    decreases statuses.len(),
{
    if statuses.len() > 0 {
        let rest = statuses.skip(1);
        law_first_word_counts(rest, i - 1);
        assert forall|j: int| 0 <= j < rest.len() implies #[trigger] rest[j] == statuses[j + 1] by {}
        if first_confirms(statuses, i) && i > 0 {
            assert(tells_nothing(statuses[0]));
            assert forall|j: int| 0 <= j < i - 1 implies tells_nothing(#[trigger] rest[j]) by {
                assert(tells_nothing(statuses[j + 1]));
            }
            assert(first_confirms(rest, i - 1));
        }
        if first_fails(statuses, i) && i > 0 {
            assert(tells_nothing(statuses[0]));
            assert forall|j: int| 0 <= j < i - 1 implies tells_nothing(#[trigger] rest[j]) by {
                assert(tells_nothing(statuses[j + 1]));
            }
            assert(first_fails(rest, i - 1));
        }
        if forall|j: int| 0 <= j < statuses.len() ==> tells_nothing(#[trigger] statuses[j]) {
            assert(tells_nothing(statuses[0]));
            assert forall|j: int| 0 <= j < rest.len() implies tells_nothing(#[trigger] rest[j]) by {
                assert(tells_nothing(statuses[j + 1]));
            }
        }
    }
}

/// What one status says: nothing, unless it has an error, which it then says whatever else it has, or
/// a confirmation.
pub proof fn law_what_a_status_says(status: SignatureStatus)
    ensures
        verdict_of(None) == VerdictView::Pending,
        status.err is Some ==> verdict_of(Some(status)) == VerdictView::Failed(status.err->0@),
        tells_nothing(Some(status)) ==> verdict_of(Some(status)) == VerdictView::Pending,
        status.err is None && !tells_nothing(Some(status)) ==> verdict_of(Some(status))
            == VerdictView::Confirmed,
{
}

/// A submission begins with its instructions, which are those of its transaction, and without an
/// attempt, a question or a signature.
pub proof fn law_submission_begins(ixs: Seq<InstructionView>, skip_confirm: bool)
    ensures
        fresh(ixs, skip_confirm).phase == SendPhase::Balance,
        fresh(ixs, skip_confirm).attempts == 0,
        fresh(ixs, skip_confirm).polls == 0,
        fresh(ixs, skip_confirm).skip_confirm == skip_confirm,
        fresh(ixs, skip_confirm).transaction == ixs,
        fresh(ixs, skip_confirm).instructions == ixs,
        fresh(ixs, skip_confirm).signature is None,
        ixs.len() >= 2 ==> fresh(ixs, skip_confirm).valid(),
{
}

/// Is an attempt begun from `s` in this way? Where the attempts that failed are a multiple of five,
/// the blockhash is renewed, and before that the fee where there is a strategy for it; else the
/// transaction is sent at once. Nothing else changes.
pub open spec fn attempt_begins(
    miner: Miner,
    s: SubmissionView,
    t: SubmissionView,
    action: SendActionView,
) -> bool {
    &&& s.attempts % 5 == 0 && miner.dynamic_fee_strategy is Some ==> action is FetchFee && t
        == SubmissionView { phase: SendPhase::Fee, ..s }
    &&& s.attempts % 5 == 0 && miner.dynamic_fee_strategy is None ==> action is FetchBlockhash && t
        == SubmissionView { phase: SendPhase::Blockhash, ..s }
    &&& s.attempts % 5 != 0 ==> is_sent(miner, s, t, action)
}

/// Is the transaction of `s` sent in this way? The fee payer pays, and nothing else changes.
pub open spec fn is_sent(
    miner: Miner,
    s: SubmissionView,
    t: SubmissionView,
    action: SendActionView,
) -> bool {
    &&& t == SubmissionView { phase: SendPhase::Sending, ..s }
    &&& action is Send
    &&& action->attempt == s.attempts
    &&& action->payer == miner.fee_payer
    &&& action->config == send_config()
}

/// Has a submission ended in this way? Nothing else changes.
pub open spec fn is_over(
    s: SubmissionView,
    outcome: SendOutcomeView,
    t: SubmissionView,
    action: SendActionView,
) -> bool {
    t == (SubmissionView { phase: SendPhase::Done, ..s }) && action == SendActionView::Finish(
        outcome,
    )
}

/// More than half a million lamports let the first attempt begin, any less end the submission, and so
/// does a balance that cannot be had.
pub proof fn law_balance_decides(miner: Miner, s: SubmissionView, balance: u64)
    requires
        s.phase == SendPhase::Balance,
    ensures
        ({
            let (t, action) = send_next(miner, s, SendEvent::Balance(Some(balance)));
            &&& balance > 500_000 ==> attempt_begins(miner, s, t, action)
            &&& balance <= 500_000 ==> is_over(
                s,
                SendOutcomeView::InsufficientBalance(balance),
                t,
                action,
            )
        }),
        ({
            let (t, action) = send_next(miner, s, SendEvent::Balance(None));
            is_over(s, SendOutcomeView::RequestFailed, t, action)
        }),
{
}

/// An estimate becomes the price, the second instruction; all others stay, and without an estimate
/// that one does too. Then the blockhash is asked for.
pub proof fn law_estimate_becomes_the_price(miner: Miner, s: SubmissionView, fee: u64, i: int)
    requires
        s.phase == SendPhase::Fee,
        s.instructions.len() >= 2,
    ensures
        ({
            let (t, action) = send_next(miner, s, SendEvent::Fee(Some(fee)));
            &&& action is FetchBlockhash
            &&& t == SubmissionView {
                phase: SendPhase::Blockhash,
                instructions: t.instructions,
                ..s
            }
            &&& t.instructions.len() == s.instructions.len()
            &&& t.instructions[1] == price_instruction(fee)
            &&& 0 <= i < s.instructions.len() && i != 1 ==> t.instructions[i] == s.instructions[i]
        }),
        ({
            let (t, action) = send_next(miner, s, SendEvent::Fee(None));
            action is FetchBlockhash && t == SubmissionView { phase: SendPhase::Blockhash, ..s }
        }),
{
}

/// With a blockhash the transaction is signed, by the signer and by the fee payer, who may be one;
/// then it is sent. Without a blockhash the submission ends.
pub proof fn law_blockhash_then_signed_then_sent(
    miner: Miner,
    s: SubmissionView,
    u: SubmissionView,
    blockhash: [u8; 32],
)
    requires
        s.phase == SendPhase::Blockhash,
        u.phase == SendPhase::Signature,
    ensures
        ({
            let (t, action) = send_next(miner, s, SendEvent::Blockhash(Some(blockhash)));
            &&& t == SubmissionView { phase: SendPhase::Signature, ..s }
            &&& action is Sign
            &&& action->blockhash == blockhash
            &&& action->signers == Signers::Signer <==> miner.signer@ == miner.fee_payer@
        }),
        ({
            let (t, action) = send_next(miner, s, SendEvent::Blockhash(None));
            is_over(s, SendOutcomeView::RequestFailed, t, action)
        }),
        ({
            let (t, action) = send_next(miner, u, SendEvent::Signed);
            is_sent(miner, u, t, action)
        }),
{
}

/// A transaction that was sent is asked about, under its signature and without delay, or left alone
/// where that is wanted. One that was not sent is retried after three hundred milliseconds.
pub proof fn law_sent_or_retried(miner: Miner, s: SubmissionView, signature: [u8; 64])
    requires
        s.phase == SendPhase::Sending,
    ensures
        ({
            let (t, action) = send_next(miner, s, SendEvent::Sent(Some(signature)));
            let noted = SubmissionView { signature: Some(signature), ..s };
            &&& s.skip_confirm ==> is_over(noted, SendOutcomeView::Sent(signature), t, action)
            &&& !s.skip_confirm ==> {
                &&& t == SubmissionView { phase: SendPhase::Polling, ..noted }
                &&& action is Poll
                &&& action->delay_millis == 0
                &&& action->signature == signature
            }
        }),
        ({
            let (t, action) = send_next(miner, s, SendEvent::Sent(None));
            &&& t == SubmissionView { phase: SendPhase::Waiting, ..s }
            &&& action is Wait
            &&& action->millis == 300
        }),
{
}

/// After the wait one more attempt has failed. There is another after each of the first hundred and
/// fifty that failed, and none after the next.
pub proof fn law_retries_are_a_hundred_and_fifty(miner: Miner, s: SubmissionView)
    requires
        s.phase == SendPhase::Waiting,
        s.attempts <= 150,
    ensures
        ({
            let (t, action) = send_next(miner, s, SendEvent::Waited);
            let failed = SubmissionView { attempts: (s.attempts + 1) as u64, ..s };
            &&& s.attempts < 150 ==> attempt_begins(miner, failed, t, action)
            &&& s.attempts == 150 ==> is_over(failed, SendOutcomeView::MaxRetries, t, action)
        }),
{
}

/// Is a question that told nothing followed up in this way? It is the last where it is the eighth;
/// else the same question is asked again. Nothing else changes.
pub open spec fn is_asked_again(
    s: SubmissionView,
    t: SubmissionView,
    action: SendActionView,
) -> bool {
    let asked = SubmissionView { polls: (s.polls + 1) as u64, ..s };
    &&& s.polls < 7 ==> {
        &&& t == asked
        &&& action is Poll
        &&& action->delay_millis == 0
        &&& Some(action->signature) == s.signature
    }
    &&& s.polls == 7 ==> is_over(asked, SendOutcomeView::ConfirmationFailed, t, action)
}

/// An answer ends the submission at once if its first word is a confirmation or an error, however
/// many questions were asked before: with the signature under which the transaction was sent, or with
/// that error. An answer that says nothing, and none, lead to another question, up to the eighth.
pub proof fn law_an_answer_counts_at_once(
    miner: Miner,
    s: SubmissionView,
    statuses: Vec<Option<SignatureStatus>>,
    i: int,
)
    requires
        s.phase == SendPhase::Polling,
        s.polls < 8,
        s.signature is Some,
    ensures
        ({
            let (t, action) = send_next(miner, s, SendEvent::Statuses(Some(statuses)));
            &&& first_confirms(statuses@, i) ==> is_over(
                s,
                SendOutcomeView::Confirmed(s.signature->0),
                t,
                action,
            )
            &&& first_fails(statuses@, i) ==> is_over(
                s,
                SendOutcomeView::TransactionFailed(statuses@[i]->0.err->0@),
                t,
                action,
            )
            &&& (forall|j: int| 0 <= j < statuses@.len() ==> tells_nothing(#[trigger] statuses@[j]))
                ==> is_asked_again(s, t, action)
        }),
        ({
            let (t, action) = send_next(miner, s, SendEvent::Statuses(None));
            is_asked_again(s, t, action)
        }),
{
    law_first_word_counts(statuses@, i);
}

/// Nothing else that happens changes a submission, and one that has ended does nothing more.
pub proof fn law_submission_ignores_the_rest(miner: Miner, s: SubmissionView, e: SendEvent)
    requires
        s.phase == SendPhase::Balance ==> e !is Balance,
        s.phase == SendPhase::Fee ==> e !is Fee,
        s.phase == SendPhase::Blockhash ==> e !is Blockhash,
        s.phase == SendPhase::Signature ==> e !is Signed,
        s.phase == SendPhase::Sending ==> e !is Sent,
        s.phase == SendPhase::Waiting ==> e !is Waited,
        s.phase == SendPhase::Polling ==> e !is Statuses,
    ensures
        send_next(miner, s, e) == (s, SendActionView::Ignore),
{
}

/// The message of an attempt begins and ends with fixed words; what is between them reads back as the
/// number of the attempt, without needless zeros.
pub proof fn law_attempt_message_reads_back(attempt: u64)
    ensures
        ({
            let front = "Submitting transaction... (attempt "@;
            let back = ")"@;
            let text = attempt_text(attempt);
            let number = text.subrange(front.len() as int, text.len() - back.len());
            &&& text.take(front.len() as int) == front
            &&& text.skip(text.len() - back.len()) == back
            &&& parsed_u64(number) == Some(attempt)
            &&& number == decimal(attempt as nat)
        }),
{
    let front = "Submitting transaction... (attempt "@;
    let back = ")"@;
    let text = attempt_text(attempt);
    assert(text.take(front.len() as int) =~= front);
    assert(text.skip(text.len() - back.len()) =~= back);
    assert(text.subrange(front.len() as int, text.len() - back.len()) =~= decimal(attempt as nat));
    law_decimal_round_trip(attempt);
}

/// Three ends are errors with a text of their own: a failed transaction has the text of its failure.
pub proof fn law_errors_have_their_text(
    err: Seq<char>,
    signature: [u8; 64],
    balance: u64,
)
    ensures
        error_text(SendOutcomeView::TransactionFailed(err)) == Some(err),
        error_text(SendOutcomeView::MaxRetries) == Some("Max retries"@),
        error_text(SendOutcomeView::ConfirmationFailed) == Some("Confirmation failed"@),
        error_text(SendOutcomeView::Sent(signature)) is None,
        error_text(SendOutcomeView::Confirmed(signature)) is None,
        error_text(SendOutcomeView::RequestFailed) is None,
        error_text(SendOutcomeView::InsufficientBalance(balance)) is None,
{
}

/// A verdict and an end are seen as what they are.
pub proof fn law_ends_are_seen_as_they_are(verdict: Verdict, outcome: SendOutcome)
    ensures
        verdict is Failed <==> verdict@ is Failed,
        verdict is Failed ==> verdict@->Failed_0 == verdict->Failed_0@,
        verdict is Confirmed <==> verdict@ is Confirmed,
        verdict is Pending <==> verdict@ is Pending,
        outcome is InsufficientBalance <==> outcome@ is InsufficientBalance,
        outcome is InsufficientBalance ==> outcome@->InsufficientBalance_0
            == outcome->InsufficientBalance_0,
        outcome is RequestFailed <==> outcome@ is RequestFailed,
        outcome is Sent <==> outcome@ is Sent,
        outcome is Sent ==> outcome@->Sent_0 == outcome->Sent_0,
        outcome is Confirmed <==> outcome@ is Confirmed,
        outcome is Confirmed ==> outcome@->Confirmed_0 == outcome->Confirmed_0,
        outcome is TransactionFailed <==> outcome@ is TransactionFailed,
        outcome is TransactionFailed ==> outcome@->TransactionFailed_0
            == outcome->TransactionFailed_0@,
        outcome is MaxRetries <==> outcome@ is MaxRetries,
        outcome is ConfirmationFailed <==> outcome@ is ConfirmationFailed,
{
}

/// An action is seen as what it is.
pub proof fn law_send_actions_are_seen_as_they_are(action: SendAction)
    ensures
        action is FetchBalance <==> action@ is FetchBalance,
        action is FetchBalance ==> action@->address == action->address,
        action is FetchFee <==> action@ is FetchFee,
        action is FetchBlockhash <==> action@ is FetchBlockhash,
        action is Sign <==> action@ is Sign,
        action is Sign ==> action@->signers == action->signers && action@->blockhash
            == action->blockhash,
        action is Send <==> action@ is Send,
        action is Send ==> {
            &&& action@->attempt == action->attempt
            &&& action@->payer == action->payer
            &&& action@->config == action->config
        },
        action is Wait <==> action@ is Wait,
        action is Wait ==> action@->millis == action->millis,
        action is Poll <==> action@ is Poll,
        action is Poll ==> action@->delay_millis == action->delay_millis && action@->signature
            == action->signature,
        action is Finish <==> action@ is Finish,
        action is Finish ==> action@->Finish_0 == action->Finish_0@,
        action is Ignore <==> action@ is Ignore,
{
}

} // verus!
