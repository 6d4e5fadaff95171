use myore::buses::{find_bus, random_bus_address, top_bus, top_bus_address};
use myore::chain::{
    decode_bus, Bus, COMPUTE_BUDGET_ID, EPOCH_SECONDS, INSTRUCTIONS_SYSVAR_ID, Instruction, NOOP_PROGRAM_ID,
    ORE_PROGRAM_ID, SLOT_HASHES_SYSVAR_ID, TOKEN_PROGRAM_ID,
};
use myore::epoch::{get_cutoff, should_reset};
use myore::miner::Miner;
use myore::mining::{
    compute_budget, draw_lottery, lottery_won, Config, MineAction, MineArgs, MineEvent, MineFault,
    MinePhase, MineState, Proof,
};
use myore::search::Solution;

const SIGNER: [u8; 32] = [5; 32];

fn miner(priority_fee: Option<u64>, dynamic_fee: bool, max: Option<u64>) -> Miner {
    Miner {
        signer: SIGNER,
        fee_payer: SIGNER,
        priority_fee,
        dynamic_fee,
        dynamic_fee_url: None,
        dynamic_fee_max: max,
        dynamic_fee_strategy: None,
    }
}

fn config() -> Config {
    Config { last_reset_at: 0, min_difficulty: (1u64 << 32) + 8, top_balance: 900 }
}

fn stake_of(balance: u64) -> Proof {
    Proof { balance, challenge: [9; 32], last_hash_at: 1000 }
}

const ARGS: MineArgs = MineArgs { cores: 4, buffer_time: 5 };

fn bus_account(id: u64, rewards: u64) -> Option<Vec<u8>> {
    let mut data = vec![100u8, 0, 0, 0, 0, 0, 0, 0];
    data.extend_from_slice(&id.to_le_bytes());
    data.extend_from_slice(&rewards.to_le_bytes());
    data.extend_from_slice(&[0; 16]);
    Some(data)
}

fn bus_bytes(index: usize) -> [u8; 32] {
    ore_api::consts::BUS_ADDRESSES[index].to_bytes()
}

fn assert_same(ix: &Instruction, expected: &solana_program::instruction::Instruction) {
    assert_eq!(ix.program_id, expected.program_id.to_bytes());
    assert_eq!(ix.data, expected.data);
    assert_eq!(ix.accounts.len(), expected.accounts.len());
    for (account, other) in ix.accounts.iter().zip(expected.accounts.iter()) {
        assert_eq!(account.pubkey, other.pubkey.to_bytes());
        assert_eq!(account.is_signer, other.is_signer);
        assert_eq!(account.is_writable, other.is_writable);
    }
}

#[test]
fn constants_are_those_of_the_program() {
    assert_eq!(NOOP_PROGRAM_ID, ore_api::consts::NOOP_PROGRAM_ID.to_bytes());
    assert_eq!(ORE_PROGRAM_ID, ore_api::ID.to_bytes());
    assert_eq!(COMPUTE_BUDGET_ID, solana_sdk::compute_budget::id().to_bytes());
    assert_eq!(INSTRUCTIONS_SYSVAR_ID, solana_program::sysvar::instructions::id().to_bytes());
    assert_eq!(SLOT_HASHES_SYSVAR_ID, solana_program::sysvar::slot_hashes::id().to_bytes());
    assert_eq!(EPOCH_SECONDS as i64, ore_api::consts::EPOCH_DURATION);
}

#[test]
fn a_search_ends_whole_epochs_after_the_last_hash() {
    assert_eq!(get_cutoff(1000, 2000, 5), 1905);
    assert_eq!(get_cutoff(1000, 1100, 0), 1000);
    assert_eq!(get_cutoff(1000, 1200, 0), 1300);
    assert_eq!(get_cutoff(0, 0, 7), 7);
    assert_eq!(get_cutoff(1000, 500, 7), 407);
}

#[test]
fn cutoff_times_wrap_around() {
    let last = -1i64;
    let expected = (last as u64)
        .wrapping_add((5u64 / 300).wrapping_sub(last as u64 / 300).wrapping_mul(300))
        .wrapping_add(2);
    assert_eq!(get_cutoff(last, 5, 2), expected);
}

#[test]
fn a_reset_is_due_after_ten_epochs() {
    assert!(!should_reset(2999, 0));
    assert!(should_reset(3000, 0));
    assert!(!should_reset(3000, 1));
    assert!(should_reset(3300, 1));
    assert!(should_reset(1_726_000_000, 1_725_999_000));
    let wrapped = (300u64 / 300).wrapping_sub((-1i64 as u64).wrapping_mul(300) / 300) >= 10;
    assert_eq!(should_reset(300, -1), wrapped);
}

#[test]
fn the_fee_adds_to_the_compute_units() {
    assert_eq!(compute_budget(0), 500_000);
    assert_eq!(compute_budget(1), 500_001);
    assert_eq!(compute_budget(u64::MAX), 499_999);
}

#[test]
fn zero_wins_the_lottery() {
    assert!(lottery_won(0));
    assert!(!lottery_won(1));
    let wins = (0..2000).filter(|_| draw_lottery()).count();
    assert!(wins < 200);
}

#[test]
fn the_richest_bus_is_chosen() {
    let buses = vec![
        None,
        Some(Bus { id: 2, rewards: 10 }),
        Some(Bus { id: 5, rewards: 30 }),
        Some(Bus { id: 6, rewards: 30 }),
        Some(Bus { id: 9, rewards: 20 }),
    ];
    assert_eq!(top_bus(&buses), Some(5));
    assert_eq!(top_bus(&vec![]), Some(0));
    assert_eq!(top_bus(&vec![Some(Bus { id: 3, rewards: 0 })]), Some(0));
    assert_eq!(top_bus(&vec![Some(Bus { id: 8, rewards: 1 })]), None);
}

#[test]
fn bus_accounts_are_decoded() {
    let accounts = vec![
        bus_account(0, 3),
        None,
        bus_account(2, 1_000_000_007),
        Some(vec![101; 40]),
        Some(vec![100; 41]),
        bus_account(3, 9),
    ];
    assert_eq!(top_bus_address(&accounts), Some(bus_bytes(2)));
    assert_eq!(find_bus(Some(&accounts)), Some(bus_bytes(2)));
    assert_eq!(find_bus(Some(&vec![None, None])), Some(bus_bytes(0)));
}

#[test]
fn accounts_of_the_program_are_decoded() {
    let bus = ore_api::state::Bus {
        id: 6,
        rewards: 0x0102_0304_0506_0708,
        theoretical_rewards: 11,
        top_balance: 12,
    };
    let mut data = vec![<ore_api::state::Bus as ore_utils::Discriminator>::discriminator()];
    data.extend_from_slice(&[0; 7]);
    data.extend_from_slice(bus.to_bytes());
    let decoded = decode_bus(&data).unwrap();
    assert_eq!((decoded.id, decoded.rewards), (bus.id, bus.rewards));
    assert_eq!(top_bus_address(&vec![Some(data.clone())]), Some(bus_bytes(6)));
    data.push(0);
    assert!(decode_bus(&data).is_none());
    assert!(decode_bus(&vec![101; 40]).is_none());
    assert!(decode_bus(&vec![]).is_none());
}

#[test]
fn unreadable_bus_accounts_are_refused() {
    assert_eq!(top_bus_address(&vec![Some(vec![])]), None);
    assert_eq!(top_bus_address(&vec![Some(vec![100, 0, 0])]), None);
    assert_eq!(top_bus_address(&vec![Some(vec![7, 0, 0])]), Some(bus_bytes(0)));
    assert_eq!(top_bus_address(&vec![bus_account(8, 1)]), None);
}

#[test]
fn without_accounts_a_bus_is_drawn() {
    for _ in 0..20 {
        let drawn = random_bus_address();
        assert!((0..8).any(|i| bus_bytes(i) == drawn));
        let found = find_bus(None).unwrap();
        assert!((0..8).any(|i| bus_bytes(i) == found));
    }
}

/// Runs a loop up to the submission of its first round.
fn submit(m: &Miner, answer: &str, reset_clock: i64, won: bool) -> (MineState, MineAction) {
    let (mut state, first) = MineState::start();
    assert!(matches!(first, MineAction::FetchConfig));
    let action = m.mine(&ARGS, &mut state, MineEvent::Config(config()));
    match action {
        MineAction::FetchProof { authority, last_hash_at } => {
            assert_eq!((authority, last_hash_at), (SIGNER, 0));
        }
        _ => panic!("no question for the account"),
    }
    let mut action = m.mine(&ARGS, &mut state, MineEvent::Proof(stake_of(50)));
    if m.dynamic_fee {
        assert!(matches!(action, MineAction::FetchFeeText));
        action = m.mine(&ARGS, &mut state, MineEvent::FeeText(answer.to_string()));
    }
    assert!(matches!(action, MineAction::FetchClock));
    let mut action = m.mine(&ARGS, &mut state, MineEvent::Clock(reset_clock));
    if reset_clock >= 3000 {
        assert!(matches!(action, MineAction::DrawLottery));
        action = m.mine(&ARGS, &mut state, MineEvent::Lottery(won));
    }
    assert!(matches!(action, MineAction::FetchClock));
    match m.mine(&ARGS, &mut state, MineEvent::Clock(2000)) {
        MineAction::Search { challenge, cutoff_time, cores, min_difficulty } => {
            assert_eq!(challenge, [9; 32]);
            assert_eq!(cutoff_time, 1905);
            assert_eq!(cores, 4);
            assert_eq!(min_difficulty, 8);
        }
        _ => panic!("no search"),
    }
    let solution = Solution { d: [1; 16], n: [2; 8] };
    let action = m.mine(&ARGS, &mut state, MineEvent::Found(solution));
    assert!(matches!(action, MineAction::FetchBuses));
    let action = m.mine(&ARGS, &mut state, MineEvent::Bus(bus_bytes(4)));
    (state, action)
}

#[test]
fn a_round_submits_auth_and_mine() {
    let m = miner(Some(25), false, None);
    let (_, action) = submit(&m, "", 100, false);
    let signer = solana_program::pubkey::Pubkey::new_from_array(SIGNER);
    match action {
        MineAction::Submit { instructions, compute_units, skip_confirm } => {
            assert!(!skip_confirm);
            assert_eq!(compute_units, 500_025);
            assert_eq!(instructions.len(), 2);
            let proof = ore_api::state::proof_pda(signer).0;
            assert_same(&instructions[0], &ore_api::instruction::auth(proof));
            assert_same(
                &instructions[1],
                &ore_api::instruction::mine(
                    signer,
                    signer,
                    ore_api::consts::BUS_ADDRESSES[4],
                    drillx::Solution::new([1; 16], [2; 8]),
                ),
            );
            let mut data = vec![2u8];
            data.extend_from_slice(&[1; 16]);
            data.extend_from_slice(&[2; 8]);
            assert_eq!(instructions[1].data, data);
            let accounts = &instructions[1].accounts;
            assert_eq!(accounts[1].pubkey, bus_bytes(4));
            assert_eq!(accounts[3].pubkey, proof.to_bytes());
            assert_eq!(accounts[4].pubkey, INSTRUCTIONS_SYSVAR_ID);
            assert_eq!(accounts[5].pubkey, SLOT_HASHES_SYSVAR_ID);
        }
        _ => panic!("no submission"),
    }
}

#[test]
fn a_won_lottery_adds_a_reset() {
    let m = miner(None, false, None);
    let signer = solana_program::pubkey::Pubkey::new_from_array(SIGNER);
    match submit(&m, "", 3000, true).1 {
        MineAction::Submit { instructions, compute_units, .. } => {
            assert_eq!(compute_units, 500_000);
            assert_eq!(instructions.len(), 3);
            assert_same(&instructions[1], &ore_api::instruction::reset(signer));
            assert_eq!(instructions[1].data, vec![4]);
            let accounts = &instructions[1].accounts;
            assert_eq!(accounts.len(), 14);
            assert!(accounts[0].pubkey == SIGNER && accounts[0].is_signer);
            for i in 0..8 {
                assert_eq!(accounts[i + 1].pubkey, bus_bytes(i));
            }
            assert!(accounts[..13].iter().all(|account| account.is_writable));
            assert!(accounts[13].pubkey == TOKEN_PROGRAM_ID && !accounts[13].is_writable);
        }
        _ => panic!("no submission"),
    }
    match submit(&m, "", 3000, false).1 {
        MineAction::Submit { instructions, .. } => assert_eq!(instructions.len(), 2),
        _ => panic!("no submission"),
    }
}

#[test]
fn a_dynamic_fee_is_read_and_capped() {
    let cases = [
        (None, "1000", 501_000u32),
        (Some(300), "1000", 500_300),
        (Some(3000), "1000", 501_000),
        (Some(100_000), "900000", 600_000),
        (None, "no number", 500_000),
        (Some(5), "", 500_000),
    ];
    for (max, answer, expected) in cases {
        match submit(&miner(Some(77), true, max), answer, 0, false).1 {
            MineAction::Submit { compute_units, skip_confirm, .. } => {
                assert_eq!(compute_units, expected);
                assert!(!skip_confirm);
            }
            _ => panic!("no submission"),
        }
    }
}

#[test]
fn a_budget_beyond_its_type_aborts() {
    let (state, action) = submit(&miner(Some(u32::MAX as u64), false, None), "", 0, false);
    assert!(matches!(action, MineAction::Abort(MineFault::BudgetTooLarge)));
    assert!(state.phase == MinePhase::Stopped);
}

#[test]
fn a_round_is_reported_and_the_next_begins() {
    let m = miner(None, false, None);
    let (mut state, _) = submit(&m, "", 0, false);
    let action = m.mine(&ARGS, &mut state, MineEvent::Submitted);
    match action {
        MineAction::FetchBalance { address } => assert_eq!(address, SIGNER),
        _ => panic!("no question for the balance"),
    }
    match m.mine(&ARGS, &mut state, MineEvent::Balance(Some(123))) {
        MineAction::Report { sol_balance, stake, change, top_balance } => {
            assert_eq!((sol_balance, stake, change, top_balance), (123, 50, 50, 900));
        }
        _ => panic!("no report"),
    }
    assert_eq!(state.last_balance, 50);
    let action = m.mine(&ARGS, &mut state, MineEvent::Reported);
    assert!(matches!(action, MineAction::FetchConfig));
    let action = m.mine(&ARGS, &mut state, MineEvent::Config(config()));
    assert!(matches!(action, MineAction::FetchProof { last_hash_at: 1000, .. }));
}

#[test]
fn a_smaller_stake_is_no_change() {
    let m = miner(None, false, None);
    let (mut state, _) = submit(&m, "", 0, false);
    state.last_balance = 80;
    m.mine(&ARGS, &mut state, MineEvent::Submitted);
    match m.mine(&ARGS, &mut state, MineEvent::Balance(Some(0))) {
        MineAction::Report { change, .. } => assert_eq!(change, 0),
        _ => panic!("no report"),
    }
    assert_eq!(state.last_balance, 50);
}

#[test]
fn without_a_balance_mining_stops() {
    let m = miner(None, false, None);
    let (mut state, _) = submit(&m, "", 0, false);
    m.mine(&ARGS, &mut state, MineEvent::Submitted);
    let action = m.mine(&ARGS, &mut state, MineEvent::Balance(None));
    assert!(matches!(action, MineAction::Stop));
    let action = m.mine(&ARGS, &mut state, MineEvent::Reported);
    assert!(matches!(action, MineAction::Ignore));
}

#[test]
fn events_out_of_turn_are_ignored() {
    let m = miner(None, false, None);
    let (mut state, _) = MineState::start();
    let action = m.mine(&ARGS, &mut state, MineEvent::Submitted);
    assert!(matches!(action, MineAction::Ignore));
    assert!(state.phase == MinePhase::Config);
}
