use ece_token::account::{AccountData, AccountInfo, AccountMeta, Instruction, Invocation, Outcome, SignerSeeds};
use ece_token::error::{EceTokenError, ProgramError};
use ece_token::instruction::EceTokenInstruction;
use ece_token::process_instruction;
use ece_token::processor::{mint_authority_seed, sign, treasury_authority_seed, Processor};
use ece_token::pubkey::{token_program_id, Pubkey};
use ece_token::state::TreasuryState;

fn key(n: u8) -> Pubkey {
    Pubkey::new_from_array([n; 32])
}

fn program() -> Pubkey {
    key(200)
}

fn treasury() -> TreasuryState {
    TreasuryState::new(vec![key(1), key(2), key(3)], 2, key(9)).unwrap()
}

fn plain(n: u8) -> AccountInfo {
    AccountInfo { key: key(n), is_signer: false, rent_exempt: true, data: AccountData::Other }
}

fn signer(n: u8) -> AccountInfo {
    AccountInfo { key: key(n), is_signer: true, rent_exempt: true, data: AccountData::Other }
}

fn record(n: u8, state: &TreasuryState) -> AccountInfo {
    AccountInfo {
        key: key(n),
        is_signer: false,
        rent_exempt: true,
        data: AccountData::Treasury(state.clone()),
    }
}

fn clock(now: i64) -> AccountInfo {
    AccountInfo { key: key(77), is_signer: false, rent_exempt: true, data: AccountData::Clock(now) }
}

fn rent(minimum_balance: u64) -> AccountInfo {
    AccountInfo {
        key: key(78),
        is_signer: false,
        rent_exempt: true,
        data: AccountData::Rent(minimum_balance),
    }
}

fn token_program() -> AccountInfo {
    AccountInfo {
        key: token_program_id(),
        is_signer: false,
        rent_exempt: true,
        data: AccountData::Other,
    }
}

fn custom(e: EceTokenError) -> ProgramError {
    ProgramError::Custom(e.code())
}

fn movement(kind: u8, first: Pubkey, second: Pubkey, authority: Pubkey, amount: u64) -> Instruction {
    let mut data = vec![kind];
    data.extend_from_slice(&amount.to_le_bytes());
    Instruction {
        program_id: token_program_id(),
        accounts: vec![
            AccountMeta { pubkey: first, is_signer: false, is_writable: true },
            AccountMeta { pubkey: second, is_signer: false, is_writable: true },
            AccountMeta { pubkey: authority, is_signer: true, is_writable: false },
        ],
        data,
    }
}

fn stored(outcome: &Outcome) -> &TreasuryState {
    &outcome.store.as_ref().unwrap().1
}

// authority, ece mint, destination ece, source usdc, treasury usdc, treasury state, token program, clock
fn mint_accounts(state: &TreasuryState, now: i64) -> Vec<AccountInfo> {
    vec![signer(10), plain(11), plain(12), plain(13), plain(14), record(15, state), token_program(), clock(now)]
}

// authority, ece mint, source ece, destination usdc, treasury usdc, treasury state, token program, clock
fn burn_accounts(state: &TreasuryState, now: i64) -> Vec<AccountInfo> {
    vec![signer(20), plain(21), plain(22), plain(23), plain(24), record(25, state), token_program(), clock(now)]
}

// authority, company ece, company usdc, treasury usdc, treasury state, ece mint, token program, clock
fn payout_accounts(state: &TreasuryState, now: i64) -> Vec<AccountInfo> {
    vec![signer(30), plain(31), plain(32), plain(33), record(34, state), plain(35), token_program(), clock(now)]
}

// depositor, source usdc, treasury usdc, treasury state, token program, clock
fn deposit_accounts(state: &TreasuryState, now: i64) -> Vec<AccountInfo> {
    vec![signer(40), plain(41), plain(42), record(43, state), token_program(), clock(now)]
}

// authority, treasury usdc, destination usdc, treasury state, token program, clock
fn withdraw_accounts(state: &TreasuryState) -> Vec<AccountInfo> {
    vec![signer(50), plain(51), plain(52), record(53, state), token_program(), clock(0)]
}

#[test]
fn seeds_spell_their_names() {
    assert_eq!(mint_authority_seed(), b"ece-mint-authority".to_vec());
    assert_eq!(treasury_authority_seed(), b"ece-treasury-authority".to_vec());
}

#[test]
fn sign_attaches_seed_and_bump() {
    let instruction = movement(3, key(1), key(2), key(3), 5);
    let call = sign(instruction.clone(), vec![4, 3], vec![7, 8], Some((key(60), 251))).unwrap();
    assert_eq!(
        call,
        Invocation {
            instruction: instruction.clone(),
            accounts: vec![4, 3],
            signer: Some(SignerSeeds { seed: vec![7, 8], bump: 251 }),
        }
    );
    assert_eq!(sign(instruction, vec![4, 3], vec![7, 8], None), Err(ProgramError::InvalidSeeds));
}

#[test]
fn withdraw_below_minimum_ratio_is_rejected() {
    let mut state = treasury();
    state.usdc_reserves = 1_000_000_000;
    state.ece_circulation = 1_000_000_000;
    state.min_reserve_ratio = 10000;
    let accounts = withdraw_accounts(&state);
    assert_eq!(
        Processor::process_withdraw_usdc(&program(), &accounts, 100_000_000),
        Err(custom(EceTokenError::ReserveRatioBelowMinimum))
    );
    assert_eq!(custom(EceTokenError::ReserveRatioBelowMinimum), ProgramError::Custom(13));
}

#[test]
fn withdraw_above_minimum_ratio_is_accepted() {
    let mut state = treasury();
    state.usdc_reserves = 1_000_000_000;
    state.ece_circulation = 1_000_000_000;
    state.min_reserve_ratio = 8000;
    let accounts = withdraw_accounts(&state);
    let outcome = Processor::process_withdraw_usdc(&program(), &accounts, 100_000_000).unwrap();
    let (position, after) = outcome.store.clone().unwrap();
    assert_eq!(position, 3);
    assert_eq!(after.usdc_reserves, 900_000_000);
    assert_eq!(after.ece_circulation, 1_000_000_000);
    assert_eq!(after.reserve_ratio(), 9000);
    let mut expected = state.clone();
    expected.usdc_reserves = 900_000_000;
    assert_eq!(after, expected);
    assert_eq!(outcome.invocations.len(), 1);
    let call = &outcome.invocations[0];
    assert_eq!(call.instruction, movement(3, key(51), key(52), program(), 100_000_000));
    assert_eq!(call.accounts, vec![1, 2, 3, 4]);
    let seeds = call.signer.clone().unwrap();
    assert_eq!(seeds.seed, b"ece-treasury-authority".to_vec());
}

#[test]
fn withdraw_does_not_read_the_clock() {
    let mut state = treasury();
    state.usdc_reserves = 10;
    let mut accounts = withdraw_accounts(&state);
    accounts[5] = plain(99);
    assert!(Processor::process_withdraw_usdc(&program(), &accounts, 10).is_ok());
}

#[test]
fn withdraw_rejections_in_order() {
    let mut state = treasury();
    state.usdc_reserves = 10;
    let accounts = withdraw_accounts(&state);
    assert_eq!(
        Processor::process_withdraw_usdc(&program(), &accounts[..5], 1),
        Err(ProgramError::NotEnoughAccountKeys)
    );
    let mut unsigned = accounts.clone();
    unsigned[0].is_signer = false;
    unsigned[3] = plain(53);
    assert_eq!(
        Processor::process_withdraw_usdc(&program(), &unsigned, 1),
        Err(ProgramError::MissingRequiredSignature)
    );
    let mut no_record = accounts.clone();
    no_record[3] = clock(5);
    assert_eq!(
        Processor::process_withdraw_usdc(&program(), &no_record, 1),
        Err(ProgramError::BorshIoError)
    );
    let mut wrong_program = accounts.clone();
    wrong_program[4] = plain(54);
    assert_eq!(
        Processor::process_withdraw_usdc(&program(), &wrong_program, 11),
        Err(custom(EceTokenError::UsdcReserveInsufficient))
    );
    assert_eq!(
        Processor::process_withdraw_usdc(&program(), &wrong_program, 1),
        Err(ProgramError::IncorrectProgramId)
    );
    assert_eq!(
        Processor::withdraw_usdc_signed(&program(), &wrong_program, 1, None),
        Err(ProgramError::IncorrectProgramId)
    );
    assert_eq!(
        Processor::withdraw_usdc_signed(&program(), &accounts, 1, None),
        Err(ProgramError::InvalidSeeds)
    );
    let outcome = Processor::withdraw_usdc_signed(&program(), &accounts, 1, Some((key(3), 250))).unwrap();
    assert_eq!(outcome.invocations[0].signer.clone().unwrap().bump, 250);
}

#[test]
fn mint_over_transaction_cap_is_refused() {
    let mut state = treasury();
    state.max_transaction_amount = 40;
    let accounts = mint_accounts(&state, 1000);
    assert_eq!(
        Processor::process_mint_tokens(&program(), &accounts, 50),
        Err(custom(EceTokenError::ComplianceCheckFailed))
    );
}

#[test]
fn mint_over_daily_limit_is_refused() {
    let mut state = treasury();
    state.daily_volume_limit = 1000;
    state.current_daily_volume = 900;
    state.last_volume_reset = 500;
    let accounts = mint_accounts(&state, 1000);
    assert_eq!(
        Processor::process_mint_tokens(&program(), &accounts, 150),
        Err(custom(EceTokenError::ComplianceCheckFailed))
    );
    let outcome = Processor::process_mint_tokens(&program(), &accounts, 100).unwrap();
    assert_eq!(stored(&outcome).current_daily_volume, 1000);
    assert_eq!(stored(&outcome).ece_circulation, 100);
    assert_eq!(stored(&outcome).usdc_reserves, 100);
}

#[test]
fn mint_moves_usdc_in_and_ece_out() {
    let state = treasury();
    let accounts = mint_accounts(&state, 1000);
    let outcome = Processor::process_mint_tokens(&program(), &accounts, 2500).unwrap();
    assert_eq!(outcome.invocations.len(), 2);
    assert_eq!(
        outcome.invocations[0],
        Invocation {
            instruction: movement(3, key(13), key(14), key(10), 2500),
            accounts: vec![3, 4, 0, 6],
            signer: None,
        }
    );
    assert_eq!(outcome.invocations[1].instruction, movement(7, key(11), key(12), program(), 2500));
    assert_eq!(outcome.invocations[1].accounts, vec![1, 2, 5, 6]);
    assert_eq!(
        outcome.invocations[1].signer.clone().unwrap().seed,
        b"ece-mint-authority".to_vec()
    );
    let mut expected = state.clone();
    expected.ece_circulation = 2500;
    expected.usdc_reserves = 2500;
    expected.current_daily_volume = 2500;
    assert_eq!(outcome.store, Some((5, expected)));
}

#[test]
fn mint_on_new_day_resets_volume() {
    let mut state = treasury();
    state.current_daily_volume = 900;
    state.last_volume_reset = 500;
    let accounts = mint_accounts(&state, 500 + 86400);
    let outcome = Processor::process_mint_tokens(&program(), &accounts, 100).unwrap();
    assert_eq!(stored(&outcome).current_daily_volume, 100);
    assert_eq!(stored(&outcome).last_volume_reset, 500 + 86400);
}

#[test]
fn mint_rejections_in_order() {
    let state = treasury();
    let accounts = mint_accounts(&state, 1000);
    assert_eq!(
        Processor::process_mint_tokens(&program(), &accounts[..7], 1),
        Err(ProgramError::NotEnoughAccountKeys)
    );
    assert_eq!(
        Processor::process_mint_tokens(&program(), &[], 1),
        Err(ProgramError::NotEnoughAccountKeys)
    );
    let mut broken = accounts.clone();
    broken[0].is_signer = false;
    broken[7] = plain(7);
    broken[5] = plain(5);
    broken[6] = plain(6);
    assert_eq!(
        Processor::process_mint_tokens(&program(), &broken, 1),
        Err(ProgramError::MissingRequiredSignature)
    );
    broken[0].is_signer = true;
    assert_eq!(
        Processor::process_mint_tokens(&program(), &broken, 1),
        Err(ProgramError::InvalidArgument)
    );
    broken[7] = clock(1000);
    assert_eq!(
        Processor::process_mint_tokens(&program(), &broken, 1),
        Err(ProgramError::BorshIoError)
    );
    let mut paused = state.clone();
    paused.is_paused = true;
    broken[5] = record(15, &paused);
    assert_eq!(
        Processor::process_mint_tokens(&program(), &broken, 1),
        Err(custom(EceTokenError::EmergencyPauseActive))
    );
    broken[5] = record(15, &state);
    assert_eq!(
        Processor::process_mint_tokens(&program(), &broken, 1),
        Err(ProgramError::IncorrectProgramId)
    );
    broken[6] = token_program();
    assert_eq!(
        Processor::mint_tokens_signed(&program(), &broken, 1, None),
        Err(ProgramError::InvalidSeeds)
    );
    assert!(Processor::process_mint_tokens(&program(), &broken, 1).is_ok());
}

#[test]
fn mint_overflow_is_refused() {
    let mut state = treasury();
    state.max_transaction_amount = u64::MAX;
    state.daily_volume_limit = u64::MAX;
    state.usdc_reserves = u64::MAX - 1;
    let accounts = mint_accounts(&state, 1000);
    assert_eq!(
        Processor::process_mint_tokens(&program(), &accounts, 2),
        Err(custom(EceTokenError::NumericalOverflow))
    );
    assert!(Processor::process_mint_tokens(&program(), &accounts, 1).is_ok());
}

#[test]
fn one_signature_suffices_whatever_the_threshold() {
    // The threshold is a policy for whoever submits requests: a handler
    // asks only that the caller has signed, not for `threshold` signers.
    let state = TreasuryState::new(vec![key(1), key(2), key(3)], 3, key(9)).unwrap();
    assert!(!state.validate_signatures(&[key(10)]));
    let accounts = mint_accounts(&state, 1000);
    assert!(Processor::process_mint_tokens(&program(), &accounts, 5).is_ok());
    let mut funded = state.clone();
    funded.usdc_reserves = 10;
    funded.ece_circulation = 0;
    assert!(Processor::process_withdraw_usdc(&program(), &withdraw_accounts(&funded), 5).is_ok());
}

#[test]
fn burn_releases_usdc() {
    let mut state = treasury();
    state.ece_circulation = 1000;
    state.usdc_reserves = 1000;
    let accounts = burn_accounts(&state, 1000);
    let outcome = Processor::process_burn_tokens(&program(), &accounts, 400).unwrap();
    assert_eq!(outcome.invocations.len(), 2);
    assert_eq!(outcome.invocations[0].instruction, movement(8, key(22), key(21), program(), 400));
    assert_eq!(outcome.invocations[0].accounts, vec![2, 1, 5, 6]);
    assert_eq!(
        outcome.invocations[0].signer.clone().unwrap().seed,
        b"ece-mint-authority".to_vec()
    );
    assert_eq!(outcome.invocations[1].instruction, movement(3, key(24), key(23), program(), 400));
    assert_eq!(outcome.invocations[1].accounts, vec![4, 3, 5, 6]);
    assert_eq!(
        outcome.invocations[1].signer.clone().unwrap().seed,
        b"ece-treasury-authority".to_vec()
    );
    let mut expected = state.clone();
    expected.ece_circulation = 600;
    expected.usdc_reserves = 600;
    assert_eq!(outcome.store, Some((5, expected)));
}

#[test]
fn burn_rejections_in_order() {
    let mut state = treasury();
    state.ece_circulation = 10;
    state.usdc_reserves = 100;
    state.max_transaction_amount = 50;
    let accounts = burn_accounts(&state, 1000);
    assert_eq!(
        Processor::process_burn_tokens(&program(), &accounts[..7], 1),
        Err(ProgramError::NotEnoughAccountKeys)
    );
    let mut broken = accounts.clone();
    broken[0].is_signer = false;
    assert_eq!(
        Processor::process_burn_tokens(&program(), &broken, 1),
        Err(ProgramError::MissingRequiredSignature)
    );
    let mut broken = accounts.clone();
    broken[7] = plain(7);
    assert_eq!(
        Processor::process_burn_tokens(&program(), &broken, 1),
        Err(ProgramError::InvalidArgument)
    );
    let mut broken = accounts.clone();
    broken[5] = plain(5);
    assert_eq!(
        Processor::process_burn_tokens(&program(), &broken, 1),
        Err(ProgramError::BorshIoError)
    );
    assert_eq!(
        Processor::process_burn_tokens(&program(), &accounts, 101),
        Err(custom(EceTokenError::UsdcReserveInsufficient))
    );
    assert_eq!(
        Processor::process_burn_tokens(&program(), &accounts, 51),
        Err(custom(EceTokenError::ComplianceCheckFailed))
    );
    assert_eq!(
        Processor::process_burn_tokens(&program(), &accounts, 11),
        Err(custom(EceTokenError::NumericalOverflow))
    );
    let mut broken = accounts.clone();
    broken[6] = plain(6);
    assert_eq!(
        Processor::process_burn_tokens(&program(), &broken, 10),
        Err(ProgramError::IncorrectProgramId)
    );
    assert_eq!(
        Processor::burn_tokens_signed(&program(), &accounts, 10, None, None),
        Err(ProgramError::InvalidSeeds)
    );
    assert_eq!(
        Processor::burn_tokens_signed(&program(), &accounts, 10, None, Some((key(61), 250))),
        Err(ProgramError::InvalidSeeds)
    );
    assert_eq!(
        Processor::burn_tokens_signed(&program(), &accounts, 10, Some((key(60), 251)), None),
        Err(ProgramError::InvalidSeeds)
    );
    let outcome = Processor::burn_tokens_signed(
        &program(),
        &accounts,
        10,
        Some((key(60), 251)),
        Some((key(61), 250)),
    )
    .unwrap();
    assert_eq!(
        outcome.invocations[0].signer,
        Some(SignerSeeds { seed: b"ece-mint-authority".to_vec(), bump: 251 })
    );
    assert_eq!(
        outcome.invocations[1].signer,
        Some(SignerSeeds { seed: b"ece-treasury-authority".to_vec(), bump: 250 })
    );
}

#[test]
fn payout_before_window_is_refused() {
    let mut state = treasury();
    state.last_payout_timestamp = 1_700_000_000;
    state.usdc_reserves = 300;
    state.ece_circulation = 300;
    let accounts = payout_accounts(&state, 1_700_000_000 + 604799);
    assert_eq!(
        Processor::process_weekly_payout(&program(), &accounts, 1000, 30),
        Err(custom(EceTokenError::WeeklyPayoutWindowNotActive))
    );
}

#[test]
fn payout_at_window_is_accepted() {
    let mut state = treasury();
    state.last_payout_timestamp = 1_700_000_000;
    state.usdc_reserves = 300;
    state.ece_circulation = 300;
    let now = 1_700_000_000 + 604800;
    let accounts = payout_accounts(&state, now);
    let outcome = Processor::process_weekly_payout(&program(), &accounts, 1000, 30).unwrap();
    assert_eq!(outcome.invocations.len(), 2);
    assert_eq!(outcome.invocations[0].instruction, movement(8, key(31), key(35), program(), 300));
    assert_eq!(outcome.invocations[0].accounts, vec![1, 5, 4, 6]);
    assert_eq!(
        outcome.invocations[0].signer.clone().unwrap().seed,
        b"ece-mint-authority".to_vec()
    );
    assert_eq!(outcome.invocations[1].instruction, movement(3, key(33), key(32), program(), 300));
    assert_eq!(outcome.invocations[1].accounts, vec![3, 2, 4, 6]);
    assert_eq!(
        outcome.invocations[1].signer.clone().unwrap().seed,
        b"ece-treasury-authority".to_vec()
    );
    let mut expected = state.clone();
    expected.usdc_reserves = 0;
    expected.ece_circulation = 0;
    expected.last_payout_timestamp = now;
    expected.total_revenue_processed = 1000;
    expected.payout_count = 1;
    assert_eq!(outcome.store, Some((4, expected)));
}

#[test]
fn payout_needs_reserves_for_amount_paid() {
    let mut state = treasury();
    state.usdc_reserves = 299;
    state.ece_circulation = 1000;
    let accounts = payout_accounts(&state, 604800);
    assert_eq!(
        Processor::process_weekly_payout(&program(), &accounts, 1000, 30),
        Err(custom(EceTokenError::UsdcReserveInsufficient))
    );
}

#[test]
fn payout_percentage_is_checked_after_the_pause() {
    let mut state = treasury();
    state.usdc_reserves = 1000;
    state.ece_circulation = 1000;
    let accounts = payout_accounts(&state, 604800);
    assert_eq!(
        Processor::process_weekly_payout(&program(), &accounts, 1000, 101),
        Err(custom(EceTokenError::InvalidPayoutPercentage))
    );
    assert_eq!(custom(EceTokenError::InvalidPayoutPercentage), ProgramError::Custom(21));
    let early = payout_accounts(&state, 5);
    assert_eq!(
        Processor::process_weekly_payout(&program(), &early, 1000, 101),
        Err(custom(EceTokenError::InvalidPayoutPercentage))
    );
    state.is_paused = true;
    for percentage in [0u8, 30, 100, 101, 255] {
        for now in [0i64, 5, 604800, i64::MAX] {
            for revenue in [0u64, 1000, u64::MAX] {
                assert_eq!(
                    Processor::process_weekly_payout(
                        &program(),
                        &payout_accounts(&state, now),
                        revenue,
                        percentage
                    ),
                    Err(custom(EceTokenError::EmergencyPauseActive))
                );
            }
        }
    }
    assert_eq!(custom(EceTokenError::EmergencyPauseActive), ProgramError::Custom(15));
}

#[test]
fn payout_reads_clock_and_record_before_the_percentage() {
    let state = treasury();
    let mut accounts = payout_accounts(&state, 604800);
    accounts[7] = plain(7);
    accounts[4] = plain(4);
    assert_eq!(
        Processor::process_weekly_payout(&program(), &accounts, 1000, 101),
        Err(ProgramError::InvalidArgument)
    );
    accounts[7] = clock(604800);
    assert_eq!(
        Processor::process_weekly_payout(&program(), &accounts, 1000, 101),
        Err(ProgramError::BorshIoError)
    );
    accounts[0].is_signer = false;
    assert_eq!(
        Processor::process_weekly_payout(&program(), &accounts, 1000, 101),
        Err(ProgramError::MissingRequiredSignature)
    );
    assert_eq!(
        Processor::process_weekly_payout(&program(), &accounts[..7], 1000, 101),
        Err(ProgramError::NotEnoughAccountKeys)
    );
}

#[test]
fn payout_other_rejections() {
    let mut state = treasury();
    state.usdc_reserves = 1000;
    state.ece_circulation = 1000;
    let mut accounts = payout_accounts(&state, 604800);
    accounts[6] = plain(6);
    assert_eq!(
        Processor::process_weekly_payout(&program(), &accounts, 1000, 30),
        Err(ProgramError::IncorrectProgramId)
    );
    accounts[6] = token_program();
    assert_eq!(
        Processor::weekly_payout_signed(&program(), &accounts, 1000, 30, None, None),
        Err(ProgramError::InvalidSeeds)
    );
    assert_eq!(
        Processor::weekly_payout_signed(&program(), &accounts, 1000, 30, Some((key(60), 251)), None),
        Err(ProgramError::InvalidSeeds)
    );
    assert_eq!(
        Processor::weekly_payout_signed(&program(), &accounts, 1000, 30, None, Some((key(61), 250))),
        Err(ProgramError::InvalidSeeds)
    );
    let outcome = Processor::weekly_payout_signed(
        &program(),
        &accounts,
        1000,
        30,
        Some((key(60), 251)),
        Some((key(61), 250)),
    )
    .unwrap();
    assert_eq!(
        outcome.invocations[0].signer,
        Some(SignerSeeds { seed: b"ece-mint-authority".to_vec(), bump: 251 })
    );
    assert_eq!(
        outcome.invocations[1].signer,
        Some(SignerSeeds { seed: b"ece-treasury-authority".to_vec(), bump: 250 })
    );
    state.is_paused = true;
    accounts[4] = record(34, &state);
    assert_eq!(
        Processor::process_weekly_payout(&program(), &accounts, 1000, 30),
        Err(custom(EceTokenError::EmergencyPauseActive))
    );
}

#[test]
fn deposit_grows_reserves() {
    let mut state = treasury();
    state.ece_circulation = 10;
    let accounts = deposit_accounts(&state, 1000);
    let outcome = Processor::process_deposit_usdc(&program(), &accounts, 75).unwrap();
    assert_eq!(
        outcome.invocations,
        vec![Invocation {
            instruction: movement(3, key(41), key(42), key(40), 75),
            accounts: vec![1, 2, 0, 4],
            signer: None,
        }]
    );
    let mut expected = state.clone();
    expected.usdc_reserves = 75;
    assert_eq!(outcome.store, Some((3, expected)));
}

#[test]
fn deposit_rejections_in_order() {
    let mut state = treasury();
    state.usdc_reserves = u64::MAX;
    let accounts = deposit_accounts(&state, 1000);
    assert_eq!(
        Processor::process_deposit_usdc(&program(), &accounts[..5], 1),
        Err(ProgramError::NotEnoughAccountKeys)
    );
    let mut broken = accounts.clone();
    broken[0].is_signer = false;
    assert_eq!(
        Processor::process_deposit_usdc(&program(), &broken, 1),
        Err(ProgramError::MissingRequiredSignature)
    );
    let mut broken = accounts.clone();
    broken[5] = plain(5);
    broken[3] = plain(3);
    assert_eq!(
        Processor::process_deposit_usdc(&program(), &broken, 1),
        Err(ProgramError::InvalidArgument)
    );
    broken[5] = clock(0);
    assert_eq!(
        Processor::process_deposit_usdc(&program(), &broken, 1),
        Err(ProgramError::BorshIoError)
    );
    assert_eq!(
        Processor::process_deposit_usdc(&program(), &accounts, 1),
        Err(custom(EceTokenError::NumericalOverflow))
    );
    let mut broken = accounts.clone();
    broken[4] = plain(4);
    assert_eq!(
        Processor::process_deposit_usdc(&program(), &broken, 0),
        Err(ProgramError::IncorrectProgramId)
    );
    let mut paused = state.clone();
    paused.is_paused = true;
    let accounts = deposit_accounts(&paused, 1000);
    assert_eq!(
        Processor::process_deposit_usdc(&program(), &accounts, 0),
        Err(custom(EceTokenError::EmergencyPauseActive))
    );
}

#[test]
fn paused_treasury_refuses_every_value_move() {
    let mut state = treasury();
    state.is_paused = true;
    state.usdc_reserves = 1_000_000;
    state.ece_circulation = 1_000_000;
    state.min_reserve_ratio = 0;
    let refused = Err(custom(EceTokenError::EmergencyPauseActive));
    assert_eq!(Processor::process_mint_tokens(&program(), &mint_accounts(&state, 700_000), 1), refused);
    assert_eq!(Processor::process_burn_tokens(&program(), &burn_accounts(&state, 700_000), 1), refused);
    assert_eq!(
        Processor::process_deposit_usdc(&program(), &deposit_accounts(&state, 700_000), 1),
        refused
    );
    assert_eq!(Processor::process_withdraw_usdc(&program(), &withdraw_accounts(&state), 1), refused);
    assert_eq!(
        Processor::process_weekly_payout(&program(), &payout_accounts(&state, 700_000), 100, 10),
        refused
    );
    state.is_paused = false;
    assert!(Processor::process_mint_tokens(&program(), &mint_accounts(&state, 700_000), 1).is_ok());
    assert!(Processor::process_burn_tokens(&program(), &burn_accounts(&state, 700_000), 1).is_ok());
    assert!(Processor::process_deposit_usdc(&program(), &deposit_accounts(&state, 700_000), 1).is_ok());
    assert!(Processor::process_withdraw_usdc(&program(), &withdraw_accounts(&state), 1).is_ok());
    assert!(
        Processor::process_weekly_payout(&program(), &payout_accounts(&state, 700_000), 100, 10).is_ok()
    );
}

#[test]
fn no_mint_or_burn_is_made_under_the_callers_identity() {
    let mut state = treasury();
    state.usdc_reserves = 1_000_000;
    state.ece_circulation = 1_000_000;
    let pid = program();
    let minted = Processor::process_mint_tokens(&pid, &mint_accounts(&state, 700_000), 10).unwrap();
    let burned = Processor::process_burn_tokens(&pid, &burn_accounts(&state, 700_000), 10).unwrap();
    let paid =
        Processor::process_weekly_payout(&pid, &payout_accounts(&state, 700_000), 100, 50).unwrap();
    for outcome in [&minted, &burned, &paid] {
        for call in outcome.invocations.iter() {
            let kind = call.instruction.data[0];
            if kind == 7 || kind == 8 {
                assert_eq!(call.instruction.accounts[2].pubkey, pid);
                assert!(call.instruction.accounts[2].is_signer);
                assert_eq!(call.signer.clone().unwrap().seed, b"ece-mint-authority".to_vec());
                assert!(!call.accounts.contains(&0));
            }
        }
    }
    assert_eq!(minted.invocations[1].instruction.data[0], 7);
    assert_eq!(burned.invocations[0].instruction.data[0], 8);
    assert_eq!(paid.invocations[0].instruction.data[0], 8);
}

#[test]
fn unpause_while_running_is_refused() {
    let state = treasury();
    let accounts = vec![signer(9), record(60, &state)];
    assert_eq!(
        Processor::process_emergency_unpause(&program(), &accounts),
        Err(custom(EceTokenError::NotPaused))
    );
    assert_eq!(custom(EceTokenError::NotPaused), ProgramError::Custom(16));
}

#[test]
fn pause_then_unpause() {
    let state = treasury();
    let accounts = vec![signer(9), record(60, &state)];
    let outcome = Processor::process_emergency_pause(&program(), &accounts).unwrap();
    assert!(outcome.invocations.is_empty());
    let mut expected = state.clone();
    expected.is_paused = true;
    assert_eq!(outcome.store, Some((1, expected.clone())));
    let accounts = vec![signer(9), record(60, &expected)];
    assert_eq!(
        Processor::process_emergency_pause(&program(), &accounts),
        Err(custom(EceTokenError::EmergencyPauseActive))
    );
    let outcome = Processor::process_emergency_unpause(&program(), &accounts).unwrap();
    assert!(outcome.invocations.is_empty());
    assert_eq!(outcome.store, Some((1, state)));
}

#[test]
fn only_emergency_authority_pauses() {
    let mut state = treasury();
    for caller in [1u8, 2, 3, 10, 0] {
        let accounts = vec![signer(caller), record(60, &state)];
        assert_eq!(
            Processor::process_emergency_pause(&program(), &accounts),
            Err(custom(EceTokenError::UnauthorizedSigner))
        );
    }
    state.is_paused = true;
    for caller in [1u8, 2, 3, 10, 0] {
        let accounts = vec![signer(caller), record(60, &state)];
        assert_eq!(
            Processor::process_emergency_unpause(&program(), &accounts),
            Err(custom(EceTokenError::UnauthorizedSigner))
        );
    }
    let mut accounts = vec![plain(9), record(60, &state)];
    assert_eq!(
        Processor::process_emergency_unpause(&program(), &accounts),
        Err(ProgramError::MissingRequiredSignature)
    );
    accounts[0].is_signer = true;
    accounts[1] = plain(60);
    assert_eq!(
        Processor::process_emergency_unpause(&program(), &accounts),
        Err(ProgramError::BorshIoError)
    );
    assert_eq!(
        Processor::process_emergency_pause(&program(), &accounts),
        Err(ProgramError::BorshIoError)
    );
    assert_eq!(
        Processor::process_emergency_pause(&program(), &accounts[..1]),
        Err(ProgramError::NotEnoughAccountKeys)
    );
    assert_eq!(
        Processor::process_emergency_unpause(&program(), &accounts[..1]),
        Err(ProgramError::NotEnoughAccountKeys)
    );
}

#[test]
fn update_treasury_by_signer() {
    let state = treasury();
    let accounts = vec![signer(2), record(60, &state)];
    let outcome =
        Processor::process_update_treasury(&program(), &accounts, vec![key(5), key(6), key(7), key(8)], 4)
            .unwrap();
    assert!(outcome.invocations.is_empty());
    let mut expected = state.clone();
    expected.signers = vec![key(5), key(6), key(7), key(8)];
    expected.threshold = 4;
    assert_eq!(outcome.store, Some((1, expected)));
}

#[test]
fn update_treasury_rejections_in_order() {
    let state = treasury();
    let accounts = vec![signer(9), record(60, &state)];
    assert_eq!(
        Processor::process_update_treasury(&program(), &accounts, vec![key(5)], 0),
        Err(custom(EceTokenError::UnauthorizedSigner))
    );
    let accounts = vec![signer(1), record(60, &state)];
    assert_eq!(
        Processor::process_update_treasury(&program(), &accounts, vec![key(5)], 0),
        Err(custom(EceTokenError::InvalidSignatureThreshold))
    );
    assert_eq!(
        Processor::process_update_treasury(&program(), &accounts, vec![key(5)], 2),
        Err(custom(EceTokenError::InvalidSignatureThreshold))
    );
    assert_eq!(
        Processor::process_update_treasury(&program(), &accounts, vec![], 1),
        Err(custom(EceTokenError::InvalidSignatureThreshold))
    );
    let accounts = vec![plain(1), record(60, &state)];
    assert_eq!(
        Processor::process_update_treasury(&program(), &accounts, vec![key(5)], 1),
        Err(ProgramError::MissingRequiredSignature)
    );
    let accounts = vec![signer(1), clock(5)];
    assert_eq!(
        Processor::process_update_treasury(&program(), &accounts, vec![key(5)], 1),
        Err(ProgramError::BorshIoError)
    );
    assert_eq!(
        Processor::process_update_treasury(&program(), &accounts[..1], vec![key(5)], 1),
        Err(ProgramError::NotEnoughAccountKeys)
    );
}

#[test]
fn update_treasury_with_more_than_five_signers_is_refused() {
    let state = treasury();
    let accounts = vec![signer(1), record(60, &state)];
    let six = vec![key(4), key(5), key(6), key(7), key(8), key(9)];
    assert_eq!(
        Processor::process_update_treasury(&program(), &accounts, six.clone(), 1),
        Err(custom(EceTokenError::InvalidSignatureThreshold))
    );
    assert_eq!(
        Processor::process_update_treasury(&program(), &accounts, six.clone(), 6),
        Err(custom(EceTokenError::InvalidSignatureThreshold))
    );
    assert_eq!(
        process_instruction(
            &program(),
            &accounts,
            Some(EceTokenInstruction::UpdateTreasury { new_signers: six, new_threshold: 2 })
        ),
        Err(ProgramError::Custom(10))
    );
    let five = vec![key(4), key(5), key(6), key(7), key(8)];
    let outcome = Processor::process_update_treasury(&program(), &accounts, five.clone(), 5).unwrap();
    assert_eq!(stored(&outcome).signers, five);
    assert_eq!(stored(&outcome).threshold, 5);
}

#[test]
fn initialize_treasury_with_more_than_five_signers_is_refused() {
    let accounts = vec![signer(70), plain(71), plain(0), rent(4_238_880)];
    let six = vec![key(1), key(2), key(3), key(4), key(5), key(6)];
    assert_eq!(
        Processor::process_initialize_treasury(&program(), &accounts, six.clone(), 1),
        Err(custom(EceTokenError::InvalidSignatureThreshold))
    );
    assert_eq!(
        Processor::process_initialize_treasury(&program(), &accounts, six, 6),
        Err(custom(EceTokenError::InvalidSignatureThreshold))
    );
    let five = vec![key(1), key(2), key(3), key(4), key(5)];
    let outcome = Processor::process_initialize_treasury(&program(), &accounts, five.clone(), 3).unwrap();
    assert_eq!(stored(&outcome).signers, five);
}

#[test]
fn burn_and_payout_and_others_leave_the_daily_volume() {
    let mut state = treasury();
    state.usdc_reserves = 1_000_000;
    state.ece_circulation = 1_000_000;
    state.min_reserve_ratio = 0;
    state.current_daily_volume = 123;
    state.last_volume_reset = 5;
    state.daily_volume_limit = 124;
    let pid = program();
    let burned = Processor::process_burn_tokens(&pid, &burn_accounts(&state, 700_000), 500).unwrap();
    assert_eq!(stored(&burned).current_daily_volume, 123);
    assert_eq!(stored(&burned).last_volume_reset, 5);
    let paid = Processor::process_weekly_payout(&pid, &payout_accounts(&state, 700_000), 1000, 50).unwrap();
    assert_eq!(stored(&paid).current_daily_volume, 123);
    assert_eq!(stored(&paid).last_volume_reset, 5);
    let deposited = Processor::process_deposit_usdc(&pid, &deposit_accounts(&state, 700_000), 500).unwrap();
    assert_eq!(stored(&deposited).current_daily_volume, 123);
    let withdrawn = Processor::process_withdraw_usdc(&pid, &withdraw_accounts(&state), 500).unwrap();
    assert_eq!(stored(&withdrawn).current_daily_volume, 123);
    let minted = Processor::process_mint_tokens(&pid, &mint_accounts(&state, 10), 1).unwrap();
    assert_eq!(stored(&minted).current_daily_volume, 124);
    assert_eq!(
        Processor::process_mint_tokens(&pid, &mint_accounts(&state, 10), 2),
        Err(custom(EceTokenError::ComplianceCheckFailed))
    );
}

#[test]
fn payout_is_not_held_to_the_transaction_cap() {
    let mut state = treasury();
    state.usdc_reserves = 1_000_000;
    state.ece_circulation = 1_000_000;
    state.max_transaction_amount = 10;
    let outcome =
        Processor::process_weekly_payout(&program(), &payout_accounts(&state, 700_000), 1000, 50).unwrap();
    assert_eq!(stored(&outcome).usdc_reserves, 999_500);
    assert_eq!(
        Processor::process_burn_tokens(&program(), &burn_accounts(&state, 700_000), 11),
        Err(custom(EceTokenError::ComplianceCheckFailed))
    );
}

#[test]
fn update_treasury_while_paused_is_allowed() {
    let mut state = treasury();
    state.is_paused = true;
    let accounts = vec![signer(3), record(60, &state)];
    let outcome = Processor::process_update_treasury(&program(), &accounts, vec![key(5)], 1).unwrap();
    assert!(stored(&outcome).is_paused);
    assert_eq!(stored(&outcome).signers, vec![key(5)]);
}

#[test]
fn initialize_treasury_creates_record() {
    // initializer, treasury account, system program, rent sysvar
    let accounts = vec![signer(70), plain(71), plain(0), rent(4_238_880)];
    let outcome =
        Processor::process_initialize_treasury(&program(), &accounts, vec![key(1), key(2)], 2).unwrap();
    let expected = TreasuryState::new(vec![key(1), key(2)], 2, key(70)).unwrap();
    assert_eq!(outcome.store, Some((1, expected)));
    assert_eq!(outcome.invocations.len(), 1);
    let call = &outcome.invocations[0];
    assert_eq!(call.accounts, vec![0, 1, 2]);
    assert_eq!(call.signer, None);
    assert_eq!(call.instruction.program_id, Pubkey::default());
    assert_eq!(
        call.instruction.accounts,
        vec![
            AccountMeta { pubkey: key(70), is_signer: true, is_writable: true },
            AccountMeta { pubkey: key(71), is_signer: true, is_writable: true },
        ]
    );
    let mut data = vec![0u8, 0, 0, 0];
    data.extend_from_slice(&4_238_880u64.to_le_bytes());
    data.extend_from_slice(&481u64.to_le_bytes());
    data.extend_from_slice(&[200u8; 32]);
    assert_eq!(call.instruction.data, data);
}

#[test]
fn initialize_treasury_rejections_in_order() {
    let accounts = vec![signer(70), plain(71), plain(0), plain(78)];
    assert_eq!(
        Processor::process_initialize_treasury(&program(), &accounts[..3], vec![key(1)], 0),
        Err(ProgramError::NotEnoughAccountKeys)
    );
    assert_eq!(
        Processor::process_initialize_treasury(&program(), &accounts, vec![key(1)], 0),
        Err(custom(EceTokenError::InvalidSignatureThreshold))
    );
    assert_eq!(
        Processor::process_initialize_treasury(&program(), &accounts, vec![key(1)], 2),
        Err(custom(EceTokenError::InvalidSignatureThreshold))
    );
    assert_eq!(
        Processor::process_initialize_treasury(&program(), &accounts, vec![key(1)], 1),
        Err(ProgramError::InvalidArgument)
    );
    let mut unsigned = accounts.clone();
    unsigned[0].is_signer = false;
    assert_eq!(
        Processor::process_initialize_treasury(&program(), &unsigned, vec![key(1)], 0),
        Err(ProgramError::MissingRequiredSignature)
    );
}

#[test]
fn initialize_token_builds_mint_instruction() {
    // initializer, mint, rent sysvar, token program
    let accounts = vec![signer(80), plain(81), rent(0), token_program()];
    let outcome = Processor::process_initialize_token(&program(), &accounts, 6, Some(key(82))).unwrap();
    assert_eq!(outcome.store, None);
    assert_eq!(outcome.invocations.len(), 1);
    let call = &outcome.invocations[0];
    assert_eq!(call.accounts, vec![1, 2]);
    assert_eq!(call.signer, None);
    assert_eq!(call.instruction.program_id, token_program_id());
    assert_eq!(call.instruction.accounts.len(), 2);
    assert_eq!(
        call.instruction.accounts[0],
        AccountMeta { pubkey: key(81), is_signer: false, is_writable: true }
    );
    assert!(!call.instruction.accounts[1].is_signer);
    assert!(!call.instruction.accounts[1].is_writable);
    let mut data = vec![0u8, 6];
    data.extend_from_slice(&[200u8; 32]);
    data.push(1);
    data.extend_from_slice(&[82u8; 32]);
    assert_eq!(call.instruction.data, data);
    let outcome = Processor::process_initialize_token(&program(), &accounts, 9, None).unwrap();
    let mut data = vec![0u8, 9];
    data.extend_from_slice(&[200u8; 32]);
    data.push(0);
    assert_eq!(outcome.invocations[0].instruction.data, data);
}

#[test]
fn initialize_token_rejections_in_order() {
    let accounts = vec![signer(80), plain(81), rent(0), token_program()];
    assert_eq!(
        Processor::process_initialize_token(&program(), &accounts[..3], 6, None),
        Err(ProgramError::NotEnoughAccountKeys)
    );
    let mut broken = accounts.clone();
    broken[0].is_signer = false;
    broken[2] = plain(2);
    broken[1].rent_exempt = false;
    broken[3] = plain(3);
    assert_eq!(
        Processor::process_initialize_token(&program(), &broken, 6, None),
        Err(ProgramError::MissingRequiredSignature)
    );
    broken[0].is_signer = true;
    assert_eq!(
        Processor::process_initialize_token(&program(), &broken, 6, None),
        Err(ProgramError::InvalidArgument)
    );
    broken[2] = rent(0);
    assert_eq!(
        Processor::process_initialize_token(&program(), &broken, 6, None),
        Err(custom(EceTokenError::NotRentExempt))
    );
    assert_eq!(custom(EceTokenError::NotRentExempt), ProgramError::Custom(1));
    broken[1].rent_exempt = true;
    assert_eq!(
        Processor::process_initialize_token(&program(), &broken, 6, None),
        Err(ProgramError::IncorrectProgramId)
    );
}

#[test]
fn process_instruction_dispatches() {
    let mut state = treasury();
    state.usdc_reserves = 1000;
    state.ece_circulation = 1000;
    state.min_reserve_ratio = 0;
    let pid = program();
    assert_eq!(
        process_instruction(&pid, &mint_accounts(&state, 5), Some(EceTokenInstruction::MintTokens { amount: 7 })),
        Processor::process_mint_tokens(&pid, &mint_accounts(&state, 5), 7)
    );
    assert_eq!(
        process_instruction(&pid, &burn_accounts(&state, 5), Some(EceTokenInstruction::BurnTokens { amount: 7 })),
        Processor::process_burn_tokens(&pid, &burn_accounts(&state, 5), 7)
    );
    assert_eq!(
        process_instruction(&pid, &deposit_accounts(&state, 5), Some(EceTokenInstruction::DepositUsdc { amount: 7 })),
        Processor::process_deposit_usdc(&pid, &deposit_accounts(&state, 5), 7)
    );
    assert_eq!(
        process_instruction(&pid, &withdraw_accounts(&state), Some(EceTokenInstruction::WithdrawUsdc { amount: 7 })),
        Processor::process_withdraw_usdc(&pid, &withdraw_accounts(&state), 7)
    );
    assert_eq!(
        process_instruction(
            &pid,
            &payout_accounts(&state, 700_000),
            Some(EceTokenInstruction::WeeklyPayout { revenue_amount: 100, payout_percentage: 50 })
        ),
        Processor::process_weekly_payout(&pid, &payout_accounts(&state, 700_000), 100, 50)
    );
    let admin = vec![signer(9), record(60, &state)];
    assert_eq!(
        process_instruction(&pid, &admin, Some(EceTokenInstruction::EmergencyPause)),
        Processor::process_emergency_pause(&pid, &admin)
    );
    assert_eq!(
        process_instruction(&pid, &admin, Some(EceTokenInstruction::EmergencyUnpause)),
        Processor::process_emergency_unpause(&pid, &admin)
    );
    let member = vec![signer(1), record(60, &state)];
    assert_eq!(
        process_instruction(
            &pid,
            &member,
            Some(EceTokenInstruction::UpdateTreasury { new_signers: vec![key(4)], new_threshold: 1 })
        ),
        Processor::process_update_treasury(&pid, &member, vec![key(4)], 1)
    );
    let creation = vec![signer(70), plain(71), plain(0), rent(10)];
    assert_eq!(
        process_instruction(
            &pid,
            &creation,
            Some(EceTokenInstruction::InitializeTreasury { signers: vec![key(4)], threshold: 1 })
        ),
        Processor::process_initialize_treasury(&pid, &creation, vec![key(4)], 1)
    );
    let minting = vec![signer(80), plain(81), rent(0), token_program()];
    assert_eq!(
        process_instruction(
            &pid,
            &minting,
            Some(EceTokenInstruction::InitializeToken { decimals: 6, freeze_authority: None })
        ),
        Processor::process_initialize_token(&pid, &minting, 6, None)
    );
    assert!(process_instruction(&pid, &mint_accounts(&state, 5), Some(EceTokenInstruction::MintTokens { amount: 7 })).is_ok());
    assert!(process_instruction(&pid, &admin, Some(EceTokenInstruction::EmergencyPause)).is_ok());
}

#[test]
fn process_instruction_rejects_undecodable_request() {
    let state = treasury();
    assert_eq!(
        process_instruction(&program(), &mint_accounts(&state, 5), None),
        Err(ProgramError::InvalidInstructionData)
    );
    assert_eq!(process_instruction(&program(), &[], None), Err(ProgramError::InvalidInstructionData));
}

#[test]
fn requests_replayed_keep_circulation_and_signers() {
    let pid = program();
    let mut state = treasury();
    state.min_reserve_ratio = 5000;
    let mut net: i128 = 0;
    let mut now = 1_000_000;
    for step in 0u64..30 {
        now += 50_000;
        let amount = 10_000 + step * 11;
        let before = state.clone();
        let result = match step % 6 {
            0 | 1 => Processor::process_mint_tokens(&pid, &mint_accounts(&state, now), amount),
            2 => Processor::process_burn_tokens(&pid, &burn_accounts(&state, now), amount / 3),
            3 => Processor::process_weekly_payout(&pid, &payout_accounts(&state, now), amount, 20),
            4 => Processor::process_withdraw_usdc(&pid, &withdraw_accounts(&state), amount),
            _ => Processor::process_deposit_usdc(&pid, &deposit_accounts(&state, now), amount),
        };
        if let Ok(outcome) = result {
            state = outcome.store.unwrap().1;
            match step % 6 {
                0 | 1 => net += amount as i128,
                2 => net -= (amount / 3) as i128,
                3 => net -= (amount as i128) * 20 / 100,
                _ => {}
            }
        } else {
            assert_eq!(state, before);
        }
        assert_eq!(state.ece_circulation as i128, net);
        assert_eq!(state.is_paused, before.is_paused);
        assert!(state.signers.len() >= state.threshold as usize && state.threshold >= 1);
        assert!(state.signers.len() <= 5);
        assert!(state.reserve_ratio() <= 10000);
    }
    assert!(net > 0);
    assert!(state.payout_count >= 1);
}
