use myore::chain::{AccountMeta, Instruction};
use myore::miner::Miner;
use myore::sending::{
    check_balance, judge, transaction_config, ComputeBudget, ConfirmationStatus, Encoding,
    SignatureStatus, Signers, Verdict, MIN_BALANCE_LAMPORTS,
};
use myore::submission::{attempt_message, SendAction, SendEvent, SendOutcome, Submission};
use solana_sdk::compute_budget::ComputeBudgetInstruction;

fn miner(priority_fee: Option<u64>, payer: u8, strategy: Option<&str>) -> Miner {
    Miner {
        signer: [1; 32],
        fee_payer: [payer; 32],
        priority_fee,
        dynamic_fee: false,
        dynamic_fee_url: None,
        dynamic_fee_max: None,
        dynamic_fee_strategy: strategy.map(|s| s.to_string()),
    }
}

fn instruction(tag: u8) -> Instruction {
    Instruction {
        program_id: [tag; 32],
        accounts: vec![AccountMeta { pubkey: [tag; 32], is_signer: true, is_writable: false }],
        data: vec![tag, tag],
    }
}

fn status(err: Option<&str>, confirmation: Option<ConfirmationStatus>) -> Option<SignatureStatus> {
    Some(SignatureStatus { err: err.map(|e| e.to_string()), confirmation_status: confirmation })
}

fn same(ix: &Instruction, expected: &solana_program::instruction::Instruction) -> bool {
    ix.program_id == expected.program_id.to_bytes()
        && ix.data == expected.data
        && ix.accounts.len() == expected.accounts.len()
        && ix.accounts.iter().zip(expected.accounts.iter()).all(|(account, other)| {
            account.pubkey == other.pubkey.to_bytes()
                && account.is_signer == other.is_signer
                && account.is_writable == other.is_writable
        })
}

const HASH: [u8; 32] = [42; 32];

const SIGNATURE: [u8; 64] = [43; 64];

fn started(m: &Miner, skip_confirm: bool) -> Submission {
    let (submission, action) =
        m.send_and_confirm(&[instruction(7)], ComputeBudget::Fixed(600_000), skip_confirm);
    match action {
        SendAction::FetchBalance { address } => assert_eq!(address, m.fee_payer),
        _ => panic!("no question for the balance"),
    }
    submission
}

/// Brings a submission that does not estimate fees to its first sending.
fn sending(m: &Miner, skip_confirm: bool) -> Submission {
    let mut s = started(m, skip_confirm);
    assert!(matches!(s.advance(m, SendEvent::Balance(Some(1_000_000))), SendAction::FetchBlockhash));
    match s.advance(m, SendEvent::Blockhash(Some(HASH))) {
        SendAction::Sign { blockhash, .. } => assert_eq!(blockhash, HASH),
        _ => panic!("not signed"),
    }
    assert!(matches!(s.advance(m, SendEvent::Signed), SendAction::Send { attempt: 0, .. }));
    s
}

#[test]
fn the_least_balance_is_a_half_thousandth() {
    assert_eq!(solana_program::native_token::sol_to_lamports(0.0005), MIN_BALANCE_LAMPORTS);
    assert!(!check_balance(0));
    assert!(!check_balance(500_000));
    assert!(check_balance(500_001));
}

#[test]
fn limit_and_price_come_first() {
    let m = miner(Some(1234), 1, None);
    let ixs = m.prepare_instructions(&[instruction(7), instruction(8)], ComputeBudget::Fixed(600_000));
    assert_eq!(ixs.len(), 4);
    assert!(same(&ixs[0], &ComputeBudgetInstruction::set_compute_unit_limit(600_000)));
    assert!(same(&ixs[1], &ComputeBudgetInstruction::set_compute_unit_price(1234)));
    assert_eq!(ixs[0].data, vec![2, 0xc0, 0x27, 0x09, 0x00]);
    assert_eq!(ixs[1].data, vec![3, 0xd2, 0x04, 0, 0, 0, 0, 0, 0]);
    assert_eq!(ixs[2].program_id, [7; 32]);
    assert_eq!(ixs[2].accounts[0].pubkey, [7; 32]);
    assert!(ixs[2].accounts[0].is_signer && !ixs[2].accounts[0].is_writable);
    assert_eq!(ixs[3].data, vec![8, 8]);
}

#[test]
fn a_dynamic_budget_has_the_largest_limit() {
    let ixs = miner(None, 1, None).prepare_instructions(&[], ComputeBudget::Dynamic);
    assert_eq!(ixs.len(), 2);
    assert!(same(&ixs[0], &ComputeBudgetInstruction::set_compute_unit_limit(1_400_000)));
    assert!(same(&ixs[1], &ComputeBudgetInstruction::set_compute_unit_price(0)));
}

#[test]
fn transactions_are_sent_without_preflight() {
    let config = transaction_config();
    assert!(config.skip_preflight);
    assert!(config.preflight_commitment == Some(ConfirmationStatus::Confirmed));
    assert!(config.encoding == Some(Encoding::Base64));
    assert_eq!(config.max_retries, Some(0));
    assert_eq!(config.min_context_slot, None);
}

#[test]
fn one_who_signs_and_pays_signs_once() {
    assert!(miner(None, 1, None).signers() == Signers::Signer);
    assert!(miner(None, 2, None).signers() == Signers::SignerAndFeePayer);
}

#[test]
fn the_first_telling_status_counts() {
    let confirmed = Some(ConfirmationStatus::Confirmed);
    assert!(matches!(judge(&vec![]), Verdict::Pending));
    assert!(matches!(judge(&vec![None, status(None, None)]), Verdict::Pending));
    let processed = status(None, Some(ConfirmationStatus::Processed));
    assert!(matches!(judge(&vec![processed]), Verdict::Pending));
    let finalized = status(None, Some(ConfirmationStatus::Finalized));
    assert!(matches!(judge(&vec![None, finalized]), Verdict::Confirmed));
    assert!(matches!(judge(&vec![status(None, confirmed)]), Verdict::Confirmed));
    match judge(&vec![status(Some("boom"), confirmed)]) {
        Verdict::Failed(err) => assert_eq!(err, "boom"),
        _ => panic!("not failed"),
    }
    let statuses = vec![status(None, confirmed), status(Some("late"), None)];
    assert!(matches!(judge(&statuses), Verdict::Confirmed));
}

#[test]
fn a_small_balance_sends_nothing() {
    let m = miner(None, 1, None);
    let mut s = started(&m, false);
    match s.advance(&m, SendEvent::Balance(Some(500_000))) {
        SendAction::Finish(outcome) => {
            assert!(matches!(outcome, SendOutcome::InsufficientBalance(500_000)));
            assert_eq!(outcome.error_message(), None);
        }
        _ => panic!("not finished"),
    }
    assert!(matches!(s.advance(&m, SendEvent::Signed), SendAction::Ignore));
}

#[test]
fn a_failed_request_ends_the_submission() {
    let m = miner(None, 1, None);
    let mut s = started(&m, false);
    let action = s.advance(&m, SendEvent::Balance(None));
    assert!(matches!(action, SendAction::Finish(SendOutcome::RequestFailed)));
    let mut s = started(&m, false);
    s.advance(&m, SendEvent::Balance(Some(1_000_000)));
    let action = s.advance(&m, SendEvent::Blockhash(None));
    assert!(matches!(action, SendAction::Finish(SendOutcome::RequestFailed)));
}

#[test]
fn a_sent_transaction_may_be_left_alone() {
    let m = miner(None, 1, None);
    let mut s = sending(&m, true);
    match s.advance(&m, SendEvent::Sent(Some(SIGNATURE))) {
        SendAction::Finish(SendOutcome::Sent(signature)) => assert_eq!(signature, SIGNATURE),
        _ => panic!("not finished"),
    }
}

#[test]
fn the_payer_signs_too() {
    let m = miner(None, 2, None);
    let mut s = started(&m, false);
    s.advance(&m, SendEvent::Balance(Some(1_000_000)));
    let action = s.advance(&m, SendEvent::Blockhash(Some(HASH)));
    assert!(matches!(action, SendAction::Sign { signers: Signers::SignerAndFeePayer, .. }));
}

#[test]
fn the_fee_payer_pays() {
    let m = miner(None, 2, None);
    let mut s = started(&m, false);
    s.advance(&m, SendEvent::Balance(Some(1_000_000)));
    s.advance(&m, SendEvent::Blockhash(Some(HASH)));
    match s.advance(&m, SendEvent::Signed) {
        SendAction::Send { attempt, payer, config } => {
            assert_eq!(attempt, 0);
            assert_eq!(payer, [2; 32]);
            assert!(config.skip_preflight);
            assert!(config.encoding == Some(Encoding::Base64));
            assert_eq!(config.max_retries, Some(0));
        }
        _ => panic!("not sent"),
    }
}

#[test]
fn an_estimate_changes_the_price_alone() {
    let m = miner(Some(9), 1, Some("helius"));
    let mut s = started(&m, false);
    assert!(matches!(s.advance(&m, SendEvent::Balance(Some(1_000_000))), SendAction::FetchFee));
    assert!(matches!(s.advance(&m, SendEvent::Fee(Some(4321))), SendAction::FetchBlockhash));
    let ixs = s.instructions();
    assert_eq!(ixs.len(), 3);
    assert!(same(&ixs[0], &ComputeBudgetInstruction::set_compute_unit_limit(600_000)));
    assert!(same(&ixs[1], &ComputeBudgetInstruction::set_compute_unit_price(4321)));
    assert_eq!(ixs[2].data, vec![7, 7]);
    let built = s.transaction();
    assert_eq!(built.len(), 3);
    assert!(same(&built[0], &ComputeBudgetInstruction::set_compute_unit_limit(600_000)));
    assert!(same(&built[1], &ComputeBudgetInstruction::set_compute_unit_price(9)));
    assert_eq!(built[2].data, vec![7, 7]);
    assert_eq!(built[2].accounts[0].pubkey, [7; 32]);
}

#[test]
fn without_an_estimate_the_price_stays() {
    let m = miner(Some(9), 1, Some("helius"));
    let mut s = started(&m, false);
    s.advance(&m, SendEvent::Balance(Some(1_000_000)));
    s.advance(&m, SendEvent::Fee(None));
    assert!(same(&s.instructions()[1], &ComputeBudgetInstruction::set_compute_unit_price(9)));
}

#[test]
fn a_transaction_is_tried_a_hundred_and_fifty_one_times() {
    let m = miner(None, 1, None);
    let mut s = started(&m, false);
    let mut sends = 0u64;
    let mut refreshes = Vec::new();
    let mut action = s.advance(&m, SendEvent::Balance(Some(1_000_000)));
    loop {
        action = match action {
            SendAction::FetchBlockhash => {
                refreshes.push(s.attempts());
                s.advance(&m, SendEvent::Blockhash(Some(HASH)))
            }
            SendAction::Sign { .. } => s.advance(&m, SendEvent::Signed),
            SendAction::Send { attempt, payer, .. } => {
                assert_eq!(attempt, sends);
                assert_eq!(payer, m.fee_payer);
                sends += 1;
                assert_eq!(refreshes.len() as u64, (sends + 4) / 5);
                s.advance(&m, SendEvent::Sent(None))
            }
            SendAction::Wait { millis } => {
                assert_eq!(millis, 300);
                s.advance(&m, SendEvent::Waited)
            }
            SendAction::Finish(outcome) => {
                assert!(matches!(outcome, SendOutcome::MaxRetries));
                assert_eq!(outcome.error_message(), Some("Max retries".to_string()));
                break;
            }
            _ => panic!("unexpected"),
        };
    }
    assert_eq!(sends, 151);
    assert_eq!(refreshes.len(), 31);
    assert!(refreshes.iter().all(|attempt| attempt % 5 == 0));
}

#[test]
fn a_confirmation_is_awaited_eight_times() {
    let m = miner(None, 1, None);
    let mut s = sending(&m, false);
    let mut action = s.advance(&m, SendEvent::Sent(Some(SIGNATURE)));
    for i in 0..8 {
        match action {
            SendAction::Poll { delay_millis, signature } => {
                assert_eq!(delay_millis, 0);
                assert_eq!(signature, SIGNATURE);
            }
            _ => panic!("no question for the status"),
        }
        let statuses = if i % 2 == 0 { None } else { Some(vec![None]) };
        action = s.advance(&m, SendEvent::Statuses(statuses));
    }
    match action {
        SendAction::Finish(outcome) => {
            assert!(matches!(outcome, SendOutcome::ConfirmationFailed));
            assert_eq!(outcome.error_message(), Some("Confirmation failed".to_string()));
        }
        _ => panic!("not finished"),
    }
}

#[test]
fn a_confirmed_transaction_succeeds() {
    let m = miner(None, 1, None);
    let mut s = sending(&m, false);
    s.advance(&m, SendEvent::Sent(Some(SIGNATURE)));
    let finalized = vec![status(None, Some(ConfirmationStatus::Finalized))];
    match s.advance(&m, SendEvent::Statuses(Some(finalized))) {
        SendAction::Finish(SendOutcome::Confirmed(signature)) => assert_eq!(signature, SIGNATURE),
        _ => panic!("not confirmed"),
    }
}

#[test]
fn a_success_is_the_last_sending() {
    let m = miner(None, 1, None);
    let mut s = sending(&m, false);
    s.advance(&m, SendEvent::Sent(None));
    assert!(matches!(s.advance(&m, SendEvent::Waited), SendAction::Send { attempt: 1, .. }));
    s.advance(&m, SendEvent::Sent(Some(SIGNATURE)));
    assert!(matches!(s.advance(&m, SendEvent::Sent(None)), SendAction::Ignore));
    assert!(matches!(s.advance(&m, SendEvent::Waited), SendAction::Ignore));
    assert_eq!(s.attempts(), 1);
}

#[test]
fn a_failed_transaction_tells_why() {
    let m = miner(None, 1, None);
    let mut s = sending(&m, false);
    s.advance(&m, SendEvent::Sent(Some(SIGNATURE)));
    let failed = vec![status(Some("custom program error"), None)];
    match s.advance(&m, SendEvent::Statuses(Some(failed))) {
        SendAction::Finish(outcome) => {
            assert!(matches!(outcome, SendOutcome::TransactionFailed(_)));
            assert_eq!(outcome.error_message(), Some("custom program error".to_string()));
        }
        _ => panic!("not finished"),
    }
}

#[test]
fn attempts_are_announced() {
    assert_eq!(attempt_message(0), "Submitting transaction... (attempt 0)");
    assert_eq!(attempt_message(150), "Submitting transaction... (attempt 150)");
}
