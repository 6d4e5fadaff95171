//! The way of a transaction as a whole: how often it is sent, signed and asked about, and what every
//! sending of it is.

use vstd::prelude::*;

use crate::chain::InstructionView;
use crate::miner::Miner;
use crate::sending::{
    prepared, send_config, ComputeBudget, CONFIRM_RETRIES, GATEWAY_RETRIES, MIN_BALANCE_LAMPORTS,
};
use crate::submission::{
    fresh, law_submission_makes_progress, send_next, SendActionView, SendEvent, SendOutcomeView,
    SendPhase, SubmissionView,
};

verus! {

/// The submission after the given events.
pub open spec fn submission_after(
    miner: Miner,
    s: SubmissionView,
    events: Seq<SendEvent>,
) -> SubmissionView
    decreases events.len(),
{
    if events.len() == 0 {
        s
    } else {
        submission_after(miner, send_next(miner, s, events[0]).0, events.skip(1))
    }
}

/// The number of times that a submission sends its transaction while the given events happen.
pub open spec fn sends(miner: Miner, s: SubmissionView, events: Seq<SendEvent>) -> nat
    decreases events.len(),
{
    if events.len() == 0 {
        0
    } else {
        let (t, action) = send_next(miner, s, events[0]);
        (if action is Send {
            1nat
        } else {
            0nat
        }) + sends(miner, t, events.skip(1))
    }
}

/// The number of times that a submission asks for the status while the given events happen.
pub open spec fn polls(miner: Miner, s: SubmissionView, events: Seq<SendEvent>) -> nat
    decreases events.len(),
{
    if events.len() == 0 {
        0
    } else {
        let (t, action) = send_next(miner, s, events[0]);
        (if action is Poll {
            1nat
        } else {
            0nat
        }) + polls(miner, t, events.skip(1))
    }
}

/// The most times that a submission can still send its transaction.
pub open spec fn sends_left(s: SubmissionView) -> int {
    match s.phase {
        SendPhase::Balance | SendPhase::Fee | SendPhase::Blockhash | SendPhase::Signature =>
            GATEWAY_RETRIES + 1 - s.attempts,
        SendPhase::Sending | SendPhase::Waiting => GATEWAY_RETRIES - s.attempts,
        SendPhase::Polling | SendPhase::Done => 0,
    }
}

/// The most times that a submission can still ask for the status.
pub open spec fn polls_left(s: SubmissionView) -> int {
    match s.phase {
        SendPhase::Polling => CONFIRM_RETRIES - 1 - s.polls,
        SendPhase::Done => 0,
        _ => CONFIRM_RETRIES - s.polls,
    }
}

proof fn lemma_sends_left(miner: Miner, s: SubmissionView, events: Seq<SendEvent>)
    requires
        s.valid(),
    ensures
        sends(miner, s, events) <= sends_left(s),
        polls(miner, s, events) <= polls_left(s),
    decreases events.len(),
{
    if events.len() > 0 {
        law_submission_makes_progress(miner, s, events[0]);
        lemma_sends_left(miner, send_next(miner, s, events[0]).0, events.skip(1));
    }
}

/// Whatever happens, a transaction is sent once and retried a hundred and fifty times at most, and
/// its status is asked for eight times at most.
pub proof fn law_attempts_are_bounded(
    miner: Miner,
    instructions: Seq<InstructionView>,
    skip_confirm: bool,
    events: Seq<SendEvent>,
)
    requires
        instructions.len() >= 2,
    ensures
        sends(miner, fresh(instructions, skip_confirm), events) <= GATEWAY_RETRIES + 1,
        polls(miner, fresh(instructions, skip_confirm), events) <= CONFIRM_RETRIES,
{
    lemma_sends_left(miner, fresh(instructions, skip_confirm), events);
}

/// The number of times that a submission renews the blockhash while the given events happen.
pub open spec fn refreshes(miner: Miner, s: SubmissionView, events: Seq<SendEvent>) -> nat
    decreases events.len(),
{
    if events.len() == 0 {
        0
    } else {
        let (t, action) = send_next(miner, s, events[0]);
        (if action is FetchBlockhash {
            1nat
        } else {
            0nat
        }) + refreshes(miner, t, events.skip(1))
    }
}

/// The number of sendings that succeed while the given events happen.
pub open spec fn successes(miner: Miner, s: SubmissionView, events: Seq<SendEvent>) -> nat
    decreases events.len(),
{
    if events.len() == 0 {
        0
    } else {
        let succeeds = s.phase == SendPhase::Sending && events[0] is Sent && events[0]->Sent_0 is Some;
        (if succeeds {
            1nat
        } else {
            0nat
        }) + successes(miner, send_next(miner, s, events[0]).0, events.skip(1))
    }
}

/// Does the blockhash come whenever it is asked for?
pub open spec fn no_refresh_fails(events: Seq<SendEvent>) -> bool {
    forall|i: int| 0 <= i < events.len() ==> #[trigger] events[i] != SendEvent::Blockhash(None)
}

/// One where the blockhash has been asked for and the transaction has not been sent with it yet.
pub open spec fn refresh_pending(s: SubmissionView) -> nat {
    if s.phase == SendPhase::Blockhash || s.phase == SendPhase::Signature {
        1
    } else {
        0
    }
}

/// The number of times that a submission that has not ended has sent its transaction.
spec fn sent_before(s: SubmissionView) -> nat {
    if s.phase == SendPhase::Sending || s.phase == SendPhase::Waiting || s.phase
        == SendPhase::Polling {
        (s.attempts + 1) as nat
    } else {
        s.attempts as nat
    }
}

/// A submission that has sent its transaction with success, or has ended, sends it no more.
proof fn lemma_no_more_sends(miner: Miner, s: SubmissionView, events: Seq<SendEvent>)
    requires
        s.phase == SendPhase::Polling || s.phase == SendPhase::Done,
    ensures
        sends(miner, s, events) == 0,
        successes(miner, s, events) == 0,
        refreshes(miner, s, events) == 0,
        submission_after(miner, s, events).phase == SendPhase::Polling || submission_after(
            miner,
            s,
            events,
        ).phase == SendPhase::Done,
    decreases events.len(),
{
    if events.len() > 0 {
        lemma_no_more_sends(miner, send_next(miner, s, events[0]).0, events.skip(1));
    }
}

/// A sending that succeeds is the last: whatever happens after it, the transaction is not sent again,
/// and the blockhash is not renewed.
pub proof fn law_success_is_the_last_send(
    miner: Miner,
    s: SubmissionView,
    signature: [u8; 64],
    events: Seq<SendEvent>,
)
    requires
        s.phase == SendPhase::Sending,
    ensures
        ({
            let t = send_next(miner, s, SendEvent::Sent(Some(signature))).0;
            &&& sends(miner, t, events) == 0
            &&& successes(miner, t, events) == 0
            &&& refreshes(miner, t, events) == 0
        }),
{
    lemma_no_more_sends(miner, send_next(miner, s, SendEvent::Sent(Some(signature))).0, events);
}

/// The counts of a run that begins anywhere before the end.
proof fn lemma_refreshes(miner: Miner, s: SubmissionView, events: Seq<SendEvent>)
    requires
        s.valid(),
        s.phase != SendPhase::Balance,
        s.phase != SendPhase::Done,
        no_refresh_fails(events),
    ensures
        ({
            let t = submission_after(miner, s, events);
            let n = sends(miner, s, events) + sent_before(s);
            &&& refreshes(miner, s, events) + (sent_before(s) + 4) / 5 + refresh_pending(s) == (n + 4)
                / 5 + refresh_pending(t)
            &&& t.phase == SendPhase::Done ==> n >= 1
            &&& successes(miner, s, events) <= 1
        }),
    decreases events.len(),
{
    if events.len() > 0 {
        let e = events[0];
        let (t, action) = send_next(miner, s, e);
        assert(e != SendEvent::Blockhash(None));
        law_submission_makes_progress(miner, s, e);
        assert forall|i: int| 0 <= i < events.skip(1).len() implies #[trigger] events.skip(1)[i]
            != SendEvent::Blockhash(None) by {
            assert(events.skip(1)[i] == events[i + 1]);
        }
        if t.phase == SendPhase::Done || t.phase == SendPhase::Polling {
            lemma_no_more_sends(miner, t, events.skip(1));
        } else {
            lemma_refreshes(miner, t, events.skip(1));
        }
    }
}

/// Where the balance is enough and the blockhash comes whenever it is asked for, `n` sendings go with
/// `n / 5` renewals of it, rounded up, and one more while a renewal waits for its sending. At most
/// one sending succeeds. A submission that has ended has sent its transaction between once and a
/// hundred and fifty-one times, and no renewal was for nothing.
pub proof fn law_refreshes_go_with_sends(
    miner: Miner,
    instructions: Seq<InstructionView>,
    skip_confirm: bool,
    balance: u64,
    events: Seq<SendEvent>,
)
    requires
        instructions.len() >= 2,
        events.len() > 0,
        events[0] == SendEvent::Balance(Some(balance)),
        balance > MIN_BALANCE_LAMPORTS,
        no_refresh_fails(events),
    ensures
        ({
            let s = fresh(instructions, skip_confirm);
            let t = submission_after(miner, s, events);
            let n = sends(miner, s, events);
            &&& refreshes(miner, s, events) == (n + 4) / 5 + refresh_pending(t)
            &&& n <= GATEWAY_RETRIES + 1
            &&& successes(miner, s, events) <= 1
            &&& t.phase == SendPhase::Done ==> n >= 1 && refreshes(miner, s, events) == (n + 4) / 5
        }),
{
    let s = fresh(instructions, skip_confirm);
    let t = send_next(miner, s, events[0]).0;
    law_attempts_are_bounded(miner, instructions, skip_confirm, events);
    law_submission_makes_progress(miner, s, events[0]);
    assert forall|i: int| 0 <= i < events.skip(1).len() implies #[trigger] events.skip(1)[i]
        != SendEvent::Blockhash(None) by {
        assert(events.skip(1)[i] == events[i + 1]);
    }
    lemma_refreshes(miner, t, events.skip(1));
}

/// What no event changes.
proof fn lemma_transaction_stays(miner: Miner, s: SubmissionView, events: Seq<SendEvent>)
    ensures
        ({
            let t = submission_after(miner, s, events);
            &&& t.transaction == s.transaction
            &&& t.skip_confirm == s.skip_confirm
            &&& miner.dynamic_fee_strategy is None && s.phase != SendPhase::Fee ==> {
                &&& t.phase != SendPhase::Fee
                &&& t.instructions == s.instructions
            }
        }),
    decreases events.len(),
{
    if events.len() > 0 {
        lemma_transaction_stays(miner, send_next(miner, s, events[0]).0, events.skip(1));
    }
}

/// Every sending of a transaction, after whatever events: the fee payer of the miner pays, the
/// transaction holds the limit and the price of the compute units and then the given instructions,
/// and it is sent as all transactions are. Where no fees are estimated, the price is the latest one
/// too.
pub proof fn law_every_transaction_sent(
    miner: Miner,
    ixs: Seq<InstructionView>,
    compute_budget: ComputeBudget,
    skip_confirm: bool,
    events: Seq<SendEvent>,
    e: SendEvent,
)
    ensures
        ({
            let built = prepared(miner.priority_fee, compute_budget, ixs);
            let s = submission_after(miner, fresh(built, skip_confirm), events);
            let (t, action) = send_next(miner, s, e);
            &&& t.transaction == built
            &&& miner.dynamic_fee_strategy is None ==> t.instructions == built
            &&& action is Send ==> {
                &&& action->payer == miner.fee_payer
                &&& action->config == send_config()
                &&& action->attempt == t.attempts
            }
        }),
{
    let built = prepared(miner.priority_fee, compute_budget, ixs);
    lemma_transaction_stays(miner, fresh(built, skip_confirm), events);
}

/// Where a signature comes from.
proof fn lemma_signature(miner: Miner, s: SubmissionView, events: Seq<SendEvent>)
    ensures
        ({
            let t = submission_after(miner, s, events);
            t.signature == s.signature || exists|i: int|
                0 <= i < events.len() && #[trigger] events[i] == SendEvent::Sent(t.signature)
        }),
    decreases events.len(),
{
    if events.len() > 0 {
        let t1 = send_next(miner, s, events[0]).0;
        let rest = events.skip(1);
        lemma_signature(miner, t1, rest);
        let t = submission_after(miner, s, events);
        if t.signature != t1.signature {
            let i = choose|i: int|
                0 <= i < rest.len() && #[trigger] rest[i] == SendEvent::Sent(t.signature);
            assert(events[i + 1] == rest[i]);
        } else if t1.signature != s.signature {
            assert(events[0] == SendEvent::Sent(t.signature));
        }
    }
}

/// The signature that a submission asks about, and the one that it ends with, is one under which the
/// transaction was sent.
pub proof fn law_signature_is_that_of_the_sending(
    miner: Miner,
    instructions: Seq<InstructionView>,
    skip_confirm: bool,
    events: Seq<SendEvent>,
    e: SendEvent,
)
    requires
        instructions.len() >= 2,
    ensures
        ({
            let s = submission_after(miner, fresh(instructions, skip_confirm), events);
            let asked = match send_next(miner, s, e).1 {
                SendActionView::Poll { signature, .. } => Some(signature),
                SendActionView::Finish(SendOutcomeView::Sent(signature)) => Some(signature),
                SendActionView::Finish(SendOutcomeView::Confirmed(signature)) => Some(signature),
                _ => None,
            };
            asked is Some ==> e == SendEvent::Sent(asked) || exists|i: int|
                0 <= i < events.len() && #[trigger] events[i] == SendEvent::Sent(asked)
        }),
{
    let s0 = fresh(instructions, skip_confirm);
    lemma_signature(miner, s0, events);
    lemma_stays_valid(miner, s0, events);
}

/// A submission that is valid stays so.
proof fn lemma_stays_valid(miner: Miner, s: SubmissionView, events: Seq<SendEvent>)
    requires
        s.valid(),
    ensures
        submission_after(miner, s, events).valid(),
    decreases events.len(),
{
    if events.len() > 0 {
        law_submission_makes_progress(miner, s, events[0]);
        lemma_stays_valid(miner, send_next(miner, s, events[0]).0, events.skip(1));
    }
}

} // verus!
