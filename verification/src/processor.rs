//! One handler for each request: it authorizes the caller, reads the clock
//! and the treasury record, asks the record's guards, the pause first, and
//! hands back the calls to make and the record to store. The caller signs
//! for what leaves the caller's own accounts; the program signs, with an
//! identity that it derives, for every mint and burn of ECE and for all that
//! leaves the reserves.

use vstd::prelude::*;

use crate::account::{AccountData, AccountInfo, Instruction, InstructionView, Invocation, InvocationView, Outcome, OutcomeView, SignerSeeds};
use crate::error::{EceTokenError, ProgramError};
use crate::instruction::EceTokenInstructionView;
use crate::pubkey::{find_program_address, program_address, spec_token_program_id, Pubkey};
use crate::state::{check_signers, payout_amount, signers_are_valid, TreasuryState, TreasuryView};
use crate::token::{account_creation, burn, create_account, initialize_mint, mint_initialization, mint_to, token_movement, transfer, BURN, MINT_TO, TRANSFER};

verus! {

/// Seed of the identity under which the program signs for the mint:
/// the bytes of `ece-mint-authority`.
pub open spec fn spec_mint_authority_seed() -> Seq<u8> {
    seq![101u8, 99, 101, 45, 109, 105, 110, 116, 45, 97, 117, 116, 104, 111, 114, 105, 116, 121]
}

/// Seed of the identity under which the program signs for the reserves:
/// the bytes of `ece-treasury-authority`.
pub open spec fn spec_treasury_authority_seed() -> Seq<u8> {
    seq![
        101u8, 99, 101, 45, 116, 114, 101, 97, 115, 117, 114, 121, 45, 97, 117, 116, 104, 111,
        114, 105, 116, 121,
    ]
}

pub fn mint_authority_seed() -> (r: Vec<u8>)
    ensures
        r@ == spec_mint_authority_seed(),
{
    let r: Vec<u8> = vec![
        101, 99, 101, 45, 109, 105, 110, 116, 45, 97, 117, 116, 104, 111, 114, 105, 116, 121,
    ];
    assert(r@ =~= spec_mint_authority_seed());
    r
}

pub fn treasury_authority_seed() -> (r: Vec<u8>)
    ensures
        r@ == spec_treasury_authority_seed(),
{
    let r: Vec<u8> = vec![
        101, 99, 101, 45, 116, 114, 101, 97, 115, 117, 114, 121, 45, 97, 117, 116, 104, 111, 114,
        105, 116, 121,
    ];
    assert(r@ =~= spec_treasury_authority_seed());
    r
}

/// The bump of a derived address, where there is one.
pub open spec fn bump_of(found: Option<(Pubkey, u8)>) -> Option<u8> {
    match found {
        Some((_, bump)) => Some(bump),
        None => None,
    }
}

/// The bump that completes `seed` to an address of the program `program_id`,
/// where there is one.
pub open spec fn derived_bump(seed: Seq<u8>, program_id: Pubkey) -> Option<u8> {
    match program_address(seed, program_id@) {
        Some((_, bump)) => Some(bump),
        None => None,
    }
}

/// The error with which the host reports a refusal of the treasury.
pub open spec fn custom(e: EceTokenError) -> ProgramError {
    ProgramError::Custom(e.spec_code())
}

/// Why a request is refused before anything is read: it names fewer than
/// `needed` accounts, or its first account, the caller, has not signed.
pub open spec fn caller_rejection(accounts: Seq<AccountInfo>, needed: nat) -> Option<ProgramError> {
    if accounts.len() < needed {
        Some(ProgramError::NotEnoughAccountKeys)
    } else if !accounts[0].is_signer {
        Some(ProgramError::MissingRequiredSignature)
    } else {
        None
    }
}

/// A call that needs no signature of the program.
pub open spec fn plain(instruction: InstructionView, accounts: Seq<usize>) -> InvocationView {
    InvocationView { instruction, accounts, signer: None }
}

/// A call that the program signs with the identity derived from `seed` and
/// `bump`.
pub open spec fn signed(
    instruction: InstructionView,
    accounts: Seq<usize>,
    seed: Seq<u8>,
    bump: u8,
) -> InvocationView {
    InvocationView { instruction, accounts, signer: Some((seed, bump)) }
}

/// Whether `r` is the refusal `rejection`, or, where there is none, the
/// outcome `outcome`.
pub open spec fn conforms(
    r: Result<Outcome, ProgramError>,
    rejection: Option<ProgramError>,
    outcome: OutcomeView,
) -> bool {
    match r {
        Ok(o) => rejection is None && o@ == outcome,
        Err(e) => rejection == Some(e),
    }
}

fn check_caller(accounts: &[AccountInfo], needed: usize) -> (r: Result<(), ProgramError>)
    requires
        needed >= 1,
    ensures
        match r {
            Ok(()) => caller_rejection(accounts@, needed as nat) is None,
            Err(e) => caller_rejection(accounts@, needed as nat) == Some(e),
        },
{
    if accounts.len() < needed {
        return Err(ProgramError::NotEnoughAccountKeys);
    }
    if !accounts[0].is_signer {
        return Err(ProgramError::MissingRequiredSignature);
    }
    Ok(())
}

fn load_clock(account: &AccountInfo) -> (r: Result<i64, ProgramError>)
    ensures
        match r {
            Ok(now) => account.clock() == Some(now),
            Err(e) => account.clock() is None && e == ProgramError::InvalidArgument,
        },
{
    match account.data {
        AccountData::Clock(unix_timestamp) => Ok(unix_timestamp),
        _ => Err(ProgramError::InvalidArgument),
    }
}

fn load_rent(account: &AccountInfo) -> (r: Result<u64, ProgramError>)
    ensures
        match r {
            Ok(minimum_balance) => account.rent() == Some(minimum_balance),
            Err(e) => account.rent() is None && e == ProgramError::InvalidArgument,
        },
{
    match account.data {
        AccountData::Rent(minimum_balance) => Ok(minimum_balance),
        _ => Err(ProgramError::InvalidArgument),
    }
}

fn load_treasury(account: &AccountInfo) -> (r: Result<TreasuryState, ProgramError>)
    ensures
        match r {
            Ok(state) => account.treasury() == Some(state@),
            Err(e) => account.treasury() is None && e == ProgramError::BorshIoError,
        },
{
    match &account.data {
        AccountData::Treasury(state) => Ok(state.duplicate()),
        _ => Err(ProgramError::BorshIoError),
    }
}

/// The call `instruction` on `accounts`, signed by the program with the
/// identity that it derives from `seed`. `found` is what the search for that
/// identity gave: where it gave nothing, there is no such call.
pub fn sign(
    instruction: Instruction,
    accounts: Vec<usize>,
    seed: Vec<u8>,
    found: Option<(Pubkey, u8)>,
) -> (r: Result<Invocation, ProgramError>)
    ensures
        match r {
            Ok(call) => found matches Some((_, bump)) && call@ == signed(
                instruction@,
                accounts@,
                seed@,
                bump,
            ),
            Err(e) => found is None && e == ProgramError::InvalidSeeds,
        },
{
    match found {
        Some((_, bump)) => Ok(Invocation { instruction, accounts, signer: Some(SignerSeeds { seed, bump }) }),
        None => Err(ProgramError::InvalidSeeds),
    }
}

fn one_call(first: Invocation, store: Option<(usize, TreasuryState)>) -> (r: Outcome)
    ensures
        r@.invocations == seq![first@],
        r.store == store,
{
    let mut invocations: Vec<Invocation> = Vec::new();
    invocations.push(first);
    assert(invocations@.map_values(|i: Invocation| i@) =~= seq![first@]);
    Outcome { invocations, store }
}

fn two_calls(first: Invocation, second: Invocation, store: Option<(usize, TreasuryState)>) -> (r:
    Outcome)
    ensures
        r@.invocations == seq![first@, second@],
        r.store == store,
{
    let mut invocations: Vec<Invocation> = Vec::new();
    invocations.push(first);
    invocations.push(second);
    assert(invocations@.map_values(|i: Invocation| i@) =~= seq![first@, second@]);
    Outcome { invocations, store }
}

pub struct Processor;

impl Processor {
    // ----- Initialize the ECE token mint -----
    pub open spec fn initialize_token_rejection(accounts: Seq<AccountInfo>) -> Option<ProgramError> {
        if caller_rejection(accounts, 4) is Some {
            caller_rejection(accounts, 4)
        } else if accounts[2].rent() is None {
            Some(ProgramError::InvalidArgument)
        } else if !accounts[1].rent_exempt {
            Some(custom(EceTokenError::NotRentExempt))
        } else if accounts[3].key != spec_token_program_id() {
            Some(ProgramError::IncorrectProgramId)
        } else {
            None
        }
    }

    pub open spec fn initialize_token_outcome(
        program_id: Pubkey,
        accounts: Seq<AccountInfo>,
        decimals: u8,
        freeze_authority: Option<Pubkey>,
    ) -> OutcomeView {
        OutcomeView {
            invocations: seq![
                plain(
                    mint_initialization(
                        accounts[3].key,
                        accounts[1].key,
                        program_id,
                        freeze_authority,
                        decimals,
                    ),
                    seq![1usize, 2usize],
                ),
            ],
            store: None,
        }
    }

    /// Initialize the ECE token mint, with the program as its mint
    /// authority. The caller must have signed and the mint account must be
    /// exempt from rent.
    pub fn process_initialize_token(
        program_id: &Pubkey,
        accounts: &[AccountInfo],
        decimals: u8,
        freeze_authority: Option<Pubkey>,
    ) -> (r: Result<Outcome, ProgramError>)
        ensures
            conforms(
                r,
                Self::initialize_token_rejection(accounts@),
                Self::initialize_token_outcome(*program_id, accounts@, decimals, freeze_authority),
            ),
    {
        check_caller(accounts, 4)?;
        let _ = load_rent(&accounts[2])?;
        if !accounts[1].rent_exempt {
            return Err(ProgramError::from(EceTokenError::NotRentExempt));
        }
        // Initialize the mint with the program as mint authority
        let init_mint_ix = initialize_mint(
            &accounts[3].key,
            &accounts[1].key,
            program_id,
            freeze_authority,
            decimals,
        )?;
        let call = Invocation { instruction: init_mint_ix, accounts: vec![1, 2], signer: None };
        Ok(one_call(call, None))
    }

    // ----- Initialize the multi-signature treasury -----
    pub open spec fn initialize_treasury_rejection(
        accounts: Seq<AccountInfo>,
        signers: Seq<Pubkey>,
        threshold: u8,
    ) -> Option<ProgramError> {
        if caller_rejection(accounts, 4) is Some {
            caller_rejection(accounts, 4)
        } else if !signers_are_valid(signers.len(), threshold) {
            Some(custom(EceTokenError::InvalidSignatureThreshold))
        } else if accounts[3].rent() is None {
            Some(ProgramError::InvalidArgument)
        } else {
            None
        }
    }

    pub open spec fn initialize_treasury_outcome(
        program_id: Pubkey,
        accounts: Seq<AccountInfo>,
        signers: Seq<Pubkey>,
        threshold: u8,
    ) -> OutcomeView {
        OutcomeView {
            invocations: seq![
                plain(
                    account_creation(
                        accounts[0].key,
                        accounts[1].key,
                        accounts[3].rent().unwrap(),
                        TreasuryState::LEN as u64,
                        program_id,
                    ),
                    seq![0usize, 1usize, 2usize],
                ),
            ],
            store: Some((1usize, TreasuryView::created(signers, threshold, accounts[0].key))),
        }
    }

    /// Initialize the multi-signature treasury: the caller pays for the
    /// treasury account and becomes its emergency and compliance authority.
    /// More than `MAX_SIGNERS` signers, or a threshold that does not go with
    /// their number, are refused as an invalid signature threshold.
    pub fn process_initialize_treasury(
        program_id: &Pubkey,
        accounts: &[AccountInfo],
        signers: Vec<Pubkey>,
        threshold: u8,
    ) -> (r: Result<Outcome, ProgramError>)
        ensures
            conforms(
                r,
                Self::initialize_treasury_rejection(accounts@, signers@, threshold),
                Self::initialize_treasury_outcome(*program_id, accounts@, signers@, threshold),
            ),
            r matches Ok(o) ==> (o@.store matches Some((_, t)) && t.wf()),
    {
        check_caller(accounts, 4)?;
        if !check_signers(signers.len(), threshold) {
            return Err(ProgramError::from(EceTokenError::InvalidSignatureThreshold));
        }
        let required_lamports = load_rent(&accounts[3])?;
        let required_space = TreasuryState::LEN;
        // Create treasury account
        let create = create_account(
            &accounts[0].key,
            &accounts[1].key,
            required_lamports,
            required_space as u64,
            program_id,
        );
        let call = Invocation { instruction: create, accounts: vec![0, 1, 2], signer: None };
        // Initialize treasury state
        let treasury_state = match TreasuryState::new(signers, threshold, accounts[0].key) {
            Ok(state) => state,
            Err(e) => { return Err(ProgramError::from(e)); },
        };
        Ok(one_call(call, Some((1, treasury_state))))
    }

    // ----- Mint ECE tokens backed by USDC deposits -----
    pub open spec fn mint_tokens_rejection(
        accounts: Seq<AccountInfo>,
        amount: u64,
        bump: Option<u8>,
    ) -> Option<ProgramError> {
        if caller_rejection(accounts, 8) is Some {
            caller_rejection(accounts, 8)
        } else if accounts[7].clock() is None {
            Some(ProgramError::InvalidArgument)
        } else if accounts[5].treasury() is None {
            Some(ProgramError::BorshIoError)
        } else if accounts[5].treasury().unwrap().mint_rejection(
            amount,
            accounts[7].clock().unwrap(),
        ) is Some {
            Some(
                custom(
                    accounts[5].treasury().unwrap().mint_rejection(
                        amount,
                        accounts[7].clock().unwrap(),
                    ).unwrap(),
                ),
            )
        } else if accounts[6].key != spec_token_program_id() {
            Some(ProgramError::IncorrectProgramId)
        } else if bump is None {
            Some(ProgramError::InvalidSeeds)
        } else {
            None
        }
    }

    pub open spec fn mint_tokens_outcome(
        program_id: Pubkey,
        accounts: Seq<AccountInfo>,
        amount: u64,
        bump: Option<u8>,
    ) -> OutcomeView {
        OutcomeView {
            invocations: seq![
                plain(
                    token_movement(
                        accounts[6].key,
                        TRANSFER,
                        accounts[3].key,
                        accounts[4].key,
                        accounts[0].key,
                        amount,
                    ),
                    seq![3usize, 4usize, 0usize, 6usize],
                ),
                signed(
                    token_movement(
                        accounts[6].key,
                        MINT_TO,
                        accounts[1].key,
                        accounts[2].key,
                        program_id,
                        amount,
                    ),
                    seq![1usize, 2usize, 5usize, 6usize],
                    spec_mint_authority_seed(),
                    bump.unwrap(),
                ),
            ],
            store: Some(
                (5usize, accounts[5].treasury().unwrap().minted(amount, accounts[7].clock().unwrap())),
            ),
        }
    }

    /// Mint ECE tokens backed by USDC deposits: the caller's USDC goes to
    /// the reserves, and the program mints the same amount of ECE under the
    /// identity that it derives from the mint-authority seed. Mints are held
    /// to the cap on one transaction and to the day's limit, and are counted
    /// into the day's volume.
    pub fn process_mint_tokens(program_id: &Pubkey, accounts: &[AccountInfo], amount: u64) -> (r:
        Result<Outcome, ProgramError>)
        ensures
            conforms(
                r,
                Self::mint_tokens_rejection(
                    accounts@,
                    amount,
                    derived_bump(spec_mint_authority_seed(), *program_id),
                ),
                Self::mint_tokens_outcome(
                    *program_id,
                    accounts@,
                    amount,
                    derived_bump(spec_mint_authority_seed(), *program_id),
                ),
            ),
    {
        let seed = mint_authority_seed();
        let found = find_program_address(seed.as_slice(), program_id);
        Self::mint_tokens_signed(program_id, accounts, amount, found)
    }

    /// Mint, given what the search for the program's mint identity gave.
    pub fn mint_tokens_signed(
        program_id: &Pubkey,
        accounts: &[AccountInfo],
        amount: u64,
        mint_authority: Option<(Pubkey, u8)>,
    ) -> (r: Result<Outcome, ProgramError>)
        ensures
            conforms(
                r,
                Self::mint_tokens_rejection(accounts@, amount, bump_of(mint_authority)),
                Self::mint_tokens_outcome(*program_id, accounts@, amount, bump_of(mint_authority)),
            ),
    {
        check_caller(accounts, 8)?;
        let now = load_clock(&accounts[7])?;
        let mut treasury_state = load_treasury(&accounts[5])?;
        // Check compliance limits, then update treasury state
        match treasury_state.apply_mint(amount, now) {
            Ok(()) => {},
            Err(e) => { return Err(ProgramError::from(e)); },
        }
        // Transfer USDC from user to treasury reserves (1:1 ratio)
        let transfer_usdc_ix = transfer(
            &accounts[6].key,
            &accounts[3].key,
            &accounts[4].key,
            &accounts[0].key,
            amount,
        )?;
        // Mint ECE tokens to user; the program is mint authority
        let mint_ece_ix = mint_to(
            &accounts[6].key,
            &accounts[1].key,
            &accounts[2].key,
            program_id,
            amount,
        )?;
        let first = Invocation { instruction: transfer_usdc_ix, accounts: vec![3, 4, 0, 6], signer: None };
        let second = sign(mint_ece_ix, vec![1, 2, 5, 6], mint_authority_seed(), mint_authority)?;
        Ok(two_calls(first, second, Some((5, treasury_state))))
    }

    // ----- Burn ECE tokens and release USDC -----
    pub open spec fn burn_tokens_rejection(
        accounts: Seq<AccountInfo>,
        amount: u64,
        mint_bump: Option<u8>,
        treasury_bump: Option<u8>,
    ) -> Option<ProgramError> {
        if caller_rejection(accounts, 8) is Some {
            caller_rejection(accounts, 8)
        } else if accounts[7].clock() is None {
            Some(ProgramError::InvalidArgument)
        } else if accounts[5].treasury() is None {
            Some(ProgramError::BorshIoError)
        } else if accounts[5].treasury().unwrap().burn_rejection(amount) is Some {
            Some(custom(accounts[5].treasury().unwrap().burn_rejection(amount).unwrap()))
        } else if accounts[6].key != spec_token_program_id() {
            Some(ProgramError::IncorrectProgramId)
        } else if mint_bump is None || treasury_bump is None {
            Some(ProgramError::InvalidSeeds)
        } else {
            None
        }
    }

    pub open spec fn burn_tokens_outcome(
        program_id: Pubkey,
        accounts: Seq<AccountInfo>,
        amount: u64,
        mint_bump: Option<u8>,
        treasury_bump: Option<u8>,
    ) -> OutcomeView {
        OutcomeView {
            invocations: seq![
                signed(
                    token_movement(
                        accounts[6].key,
                        BURN,
                        accounts[2].key,
                        accounts[1].key,
                        program_id,
                        amount,
                    ),
                    seq![2usize, 1usize, 5usize, 6usize],
                    spec_mint_authority_seed(),
                    mint_bump.unwrap(),
                ),
                signed(
                    token_movement(
                        accounts[6].key,
                        TRANSFER,
                        accounts[4].key,
                        accounts[3].key,
                        program_id,
                        amount,
                    ),
                    seq![4usize, 3usize, 5usize, 6usize],
                    spec_treasury_authority_seed(),
                    treasury_bump.unwrap(),
                ),
            ],
            store: Some((5usize, accounts[5].treasury().unwrap().burned(amount))),
        }
    }

    /// Burn ECE tokens and release USDC. The program burns the ECE under
    /// the identity that it derives from the mint-authority seed, not under
    /// the caller's, and releases the same amount of USDC from the reserves
    /// under the identity that it derives from the treasury-authority seed.
    /// Burns are held to the cap on one transaction but are not counted
    /// into the day's volume.
    pub fn process_burn_tokens(program_id: &Pubkey, accounts: &[AccountInfo], amount: u64) -> (r:
        Result<Outcome, ProgramError>)
        ensures
            conforms(
                r,
                Self::burn_tokens_rejection(
                    accounts@,
                    amount,
                    derived_bump(spec_mint_authority_seed(), *program_id),
                    derived_bump(spec_treasury_authority_seed(), *program_id),
                ),
                Self::burn_tokens_outcome(
                    *program_id,
                    accounts@,
                    amount,
                    derived_bump(spec_mint_authority_seed(), *program_id),
                    derived_bump(spec_treasury_authority_seed(), *program_id),
                ),
            ),
    {
        let mint_seed = mint_authority_seed();
        let mint_authority = find_program_address(mint_seed.as_slice(), program_id);
        let treasury_seed = treasury_authority_seed();
        let treasury_authority = find_program_address(treasury_seed.as_slice(), program_id);
        Self::burn_tokens_signed(program_id, accounts, amount, mint_authority, treasury_authority)
    }

    /// Burn, given what the searches for the program's mint identity and
    /// for its treasury identity gave.
    pub fn burn_tokens_signed(
        program_id: &Pubkey,
        accounts: &[AccountInfo],
        amount: u64,
        mint_authority: Option<(Pubkey, u8)>,
        treasury_authority: Option<(Pubkey, u8)>,
    ) -> (r: Result<Outcome, ProgramError>)
        ensures
            conforms(
                r,
                Self::burn_tokens_rejection(
                    accounts@,
                    amount,
                    bump_of(mint_authority),
                    bump_of(treasury_authority),
                ),
                Self::burn_tokens_outcome(
                    *program_id,
                    accounts@,
                    amount,
                    bump_of(mint_authority),
                    bump_of(treasury_authority),
                ),
            ),
    {
        check_caller(accounts, 8)?;
        let _ = load_clock(&accounts[7])?;
        let mut treasury_state = load_treasury(&accounts[5])?;
        // Check reserves and compliance limits, then update treasury state
        match treasury_state.apply_burn(amount) {
            Ok(()) => {},
            Err(e) => { return Err(ProgramError::from(e)); },
        }
        // Burn ECE tokens; the program is mint authority
        let burn_ece_ix = burn(
            &accounts[6].key,
            &accounts[2].key,
            &accounts[1].key,
            program_id,
            amount,
        )?;
        // Transfer USDC from treasury to user; the program is treasury authority
        let transfer_usdc_ix = transfer(
            &accounts[6].key,
            &accounts[4].key,
            &accounts[3].key,
            program_id,
            amount,
        )?;
        let first = sign(burn_ece_ix, vec![2, 1, 5, 6], mint_authority_seed(), mint_authority)?;
        let second = sign(
            transfer_usdc_ix,
            vec![4, 3, 5, 6],
            treasury_authority_seed(),
            treasury_authority,
        )?;
        Ok(two_calls(first, second, Some((5, treasury_state))))
    }

    // ----- Process weekly company payout -----
    pub open spec fn weekly_payout_rejection(
        accounts: Seq<AccountInfo>,
        revenue_amount: u64,
        payout_percentage: u8,
        mint_bump: Option<u8>,
        treasury_bump: Option<u8>,
    ) -> Option<ProgramError> {
        if caller_rejection(accounts, 8) is Some {
            caller_rejection(accounts, 8)
        } else if accounts[7].clock() is None {
            Some(ProgramError::InvalidArgument)
        } else if accounts[4].treasury() is None {
            Some(ProgramError::BorshIoError)
        } else if accounts[4].treasury().unwrap().payout_rejection(
            revenue_amount,
            payout_percentage,
            accounts[7].clock().unwrap(),
        ) is Some {
            Some(
                custom(
                    accounts[4].treasury().unwrap().payout_rejection(
                        revenue_amount,
                        payout_percentage,
                        accounts[7].clock().unwrap(),
                    ).unwrap(),
                ),
            )
        } else if accounts[6].key != spec_token_program_id() {
            Some(ProgramError::IncorrectProgramId)
        } else if mint_bump is None || treasury_bump is None {
            Some(ProgramError::InvalidSeeds)
        } else {
            None
        }
    }

    pub open spec fn weekly_payout_outcome(
        program_id: Pubkey,
        accounts: Seq<AccountInfo>,
        revenue_amount: u64,
        payout_percentage: u8,
        mint_bump: Option<u8>,
        treasury_bump: Option<u8>,
    ) -> OutcomeView {
        OutcomeView {
            invocations: seq![
                signed(
                    token_movement(
                        accounts[6].key,
                        BURN,
                        accounts[1].key,
                        accounts[5].key,
                        program_id,
                        payout_amount(revenue_amount, payout_percentage) as u64,
                    ),
                    seq![1usize, 5usize, 4usize, 6usize],
                    spec_mint_authority_seed(),
                    mint_bump.unwrap(),
                ),
                signed(
                    token_movement(
                        accounts[6].key,
                        TRANSFER,
                        accounts[3].key,
                        accounts[2].key,
                        program_id,
                        payout_amount(revenue_amount, payout_percentage) as u64,
                    ),
                    seq![3usize, 2usize, 4usize, 6usize],
                    spec_treasury_authority_seed(),
                    treasury_bump.unwrap(),
                ),
            ],
            store: Some(
                (
                    4usize,
                    accounts[4].treasury().unwrap().paid_out(
                        revenue_amount,
                        payout_percentage,
                        accounts[7].clock().unwrap(),
                    ),
                ),
            ),
        }
    }

    /// Process weekly company payout: the share of the revenue that the
    /// percentage gives is burned from the company's ECE, under the identity
    /// that the program derives from the mint-authority seed, and the
    /// program releases the same amount of USDC from the reserves to the
    /// company, under the identity that it derives from the
    /// treasury-authority seed. A paused treasury refuses before the
    /// percentage is looked at. Payouts are held neither to the cap on one
    /// transaction nor to the day's limit, and are not counted into the
    /// day's volume.
    pub fn process_weekly_payout(
        program_id: &Pubkey,
        accounts: &[AccountInfo],
        revenue_amount: u64,
        payout_percentage: u8,
    ) -> (r: Result<Outcome, ProgramError>)
        ensures
            conforms(
                r,
                Self::weekly_payout_rejection(
                    accounts@,
                    revenue_amount,
                    payout_percentage,
                    derived_bump(spec_mint_authority_seed(), *program_id),
                    derived_bump(spec_treasury_authority_seed(), *program_id),
                ),
                Self::weekly_payout_outcome(
                    *program_id,
                    accounts@,
                    revenue_amount,
                    payout_percentage,
                    derived_bump(spec_mint_authority_seed(), *program_id),
                    derived_bump(spec_treasury_authority_seed(), *program_id),
                ),
            ),
    {
        let mint_seed = mint_authority_seed();
        let mint_authority = find_program_address(mint_seed.as_slice(), program_id);
        let treasury_seed = treasury_authority_seed();
        let treasury_authority = find_program_address(treasury_seed.as_slice(), program_id);
        Self::weekly_payout_signed(
            program_id,
            accounts,
            revenue_amount,
            payout_percentage,
            mint_authority,
            treasury_authority,
        )
    }

    /// Pay out, given what the searches for the program's mint identity and
    /// for its treasury identity gave.
    pub fn weekly_payout_signed(
        program_id: &Pubkey,
        accounts: &[AccountInfo],
        revenue_amount: u64,
        payout_percentage: u8,
        mint_authority: Option<(Pubkey, u8)>,
        treasury_authority: Option<(Pubkey, u8)>,
    ) -> (r: Result<Outcome, ProgramError>)
        ensures
            conforms(
                r,
                Self::weekly_payout_rejection(
                    accounts@,
                    revenue_amount,
                    payout_percentage,
                    bump_of(mint_authority),
                    bump_of(treasury_authority),
                ),
                Self::weekly_payout_outcome(
                    *program_id,
                    accounts@,
                    revenue_amount,
                    payout_percentage,
                    bump_of(mint_authority),
                    bump_of(treasury_authority),
                ),
            ),
    {
        check_caller(accounts, 8)?;
        let now = load_clock(&accounts[7])?;
        let mut treasury_state = load_treasury(&accounts[4])?;
        // Check the pause, the percentage, the window and the reserves,
        // then update treasury state
        let paid = match treasury_state.apply_payout(revenue_amount, payout_percentage, now) {
            Ok(paid) => paid,
            Err(e) => { return Err(ProgramError::from(e)); },
        };
        // Burn ECE tokens from company revenue; the program is mint authority
        let burn_ece_ix = burn(
            &accounts[6].key,
            &accounts[1].key,
            &accounts[5].key,
            program_id,
            paid,
        )?;
        // Transfer equivalent USDC to company
        let transfer_usdc_ix = transfer(
            &accounts[6].key,
            &accounts[3].key,
            &accounts[2].key,
            program_id,
            paid,
        )?;
        let first = sign(burn_ece_ix, vec![1, 5, 4, 6], mint_authority_seed(), mint_authority)?;
        let second = sign(
            transfer_usdc_ix,
            vec![3, 2, 4, 6],
            treasury_authority_seed(),
            treasury_authority,
        )?;
        Ok(two_calls(first, second, Some((4, treasury_state))))
    }

    // ----- Deposit USDC to treasury reserves -----
    pub open spec fn deposit_usdc_rejection(accounts: Seq<AccountInfo>, amount: u64) -> Option<
        ProgramError,
    > {
        if caller_rejection(accounts, 6) is Some {
            caller_rejection(accounts, 6)
        } else if accounts[5].clock() is None {
            Some(ProgramError::InvalidArgument)
        } else if accounts[3].treasury() is None {
            Some(ProgramError::BorshIoError)
        } else if accounts[3].treasury().unwrap().deposit_rejection(amount) is Some {
            Some(custom(accounts[3].treasury().unwrap().deposit_rejection(amount).unwrap()))
        } else if accounts[4].key != spec_token_program_id() {
            Some(ProgramError::IncorrectProgramId)
        } else {
            None
        }
    }

    pub open spec fn deposit_usdc_outcome(accounts: Seq<AccountInfo>, amount: u64) -> OutcomeView {
        OutcomeView {
            invocations: seq![
                plain(
                    token_movement(
                        accounts[4].key,
                        TRANSFER,
                        accounts[1].key,
                        accounts[2].key,
                        accounts[0].key,
                        amount,
                    ),
                    seq![1usize, 2usize, 0usize, 4usize],
                ),
            ],
            store: Some((3usize, accounts[3].treasury().unwrap().deposited(amount))),
        }
    }

    /// Deposit USDC to treasury reserves. Deposits are not counted into the
    /// day's volume.
    pub fn process_deposit_usdc(program_id: &Pubkey, accounts: &[AccountInfo], amount: u64) -> (r:
        Result<Outcome, ProgramError>)
        ensures
            conforms(
                r,
                Self::deposit_usdc_rejection(accounts@, amount),
                Self::deposit_usdc_outcome(accounts@, amount),
            ),
    {
        check_caller(accounts, 6)?;
        let _ = load_clock(&accounts[5])?;
        let mut treasury_state = load_treasury(&accounts[3])?;
        // Update treasury reserves
        match treasury_state.apply_deposit(amount) {
            Ok(()) => {},
            Err(e) => { return Err(ProgramError::from(e)); },
        }
        // Transfer USDC to treasury
        let transfer_ix = transfer(
            &accounts[4].key,
            &accounts[1].key,
            &accounts[2].key,
            &accounts[0].key,
            amount,
        )?;
        let call = Invocation { instruction: transfer_ix, accounts: vec![1, 2, 0, 4], signer: None };
        Ok(one_call(call, Some((3, treasury_state))))
    }

    // ----- Withdraw USDC from treasury reserves -----
    pub open spec fn withdraw_usdc_rejection(
        accounts: Seq<AccountInfo>,
        amount: u64,
        bump: Option<u8>,
    ) -> Option<ProgramError> {
        if caller_rejection(accounts, 6) is Some {
            caller_rejection(accounts, 6)
        } else if accounts[3].treasury() is None {
            Some(ProgramError::BorshIoError)
        } else if accounts[3].treasury().unwrap().withdrawal_rejection(amount) is Some {
            Some(custom(accounts[3].treasury().unwrap().withdrawal_rejection(amount).unwrap()))
        } else if accounts[4].key != spec_token_program_id() {
            Some(ProgramError::IncorrectProgramId)
        } else if bump is None {
            Some(ProgramError::InvalidSeeds)
        } else {
            None
        }
    }

    pub open spec fn withdraw_usdc_outcome(
        program_id: Pubkey,
        accounts: Seq<AccountInfo>,
        amount: u64,
        bump: Option<u8>,
    ) -> OutcomeView {
        OutcomeView {
            invocations: seq![
                signed(
                    token_movement(
                        accounts[4].key,
                        TRANSFER,
                        accounts[1].key,
                        accounts[2].key,
                        program_id,
                        amount,
                    ),
                    seq![1usize, 2usize, 3usize, 4usize],
                    spec_treasury_authority_seed(),
                    bump.unwrap(),
                ),
            ],
            store: Some((3usize, accounts[3].treasury().unwrap().withdrawn(amount))),
        }
    }

    /// Withdraw USDC from treasury reserves, as far as the minimum reserve
    /// ratio allows. Withdrawals are not counted into the day's volume.
    pub fn process_withdraw_usdc(program_id: &Pubkey, accounts: &[AccountInfo], amount: u64) -> (r:
        Result<Outcome, ProgramError>)
        ensures
            conforms(
                r,
                Self::withdraw_usdc_rejection(
                    accounts@,
                    amount,
                    derived_bump(spec_treasury_authority_seed(), *program_id),
                ),
                Self::withdraw_usdc_outcome(
                    *program_id,
                    accounts@,
                    amount,
                    derived_bump(spec_treasury_authority_seed(), *program_id),
                ),
            ),
    {
        let seed = treasury_authority_seed();
        let found = find_program_address(seed.as_slice(), program_id);
        Self::withdraw_usdc_signed(program_id, accounts, amount, found)
    }

    /// Withdraw, given what the search for the program's treasury identity
    /// gave.
    pub fn withdraw_usdc_signed(
        program_id: &Pubkey,
        accounts: &[AccountInfo],
        amount: u64,
        treasury_authority: Option<(Pubkey, u8)>,
    ) -> (r: Result<Outcome, ProgramError>)
        ensures
            conforms(
                r,
                Self::withdraw_usdc_rejection(accounts@, amount, bump_of(treasury_authority)),
                Self::withdraw_usdc_outcome(
                    *program_id,
                    accounts@,
                    amount,
                    bump_of(treasury_authority),
                ),
            ),
    {
        check_caller(accounts, 6)?;
        let mut treasury_state = load_treasury(&accounts[3])?;
        // Check the reserves and the reserve ratio, then update treasury reserves
        match treasury_state.apply_withdrawal(amount) {
            Ok(()) => {},
            Err(e) => { return Err(ProgramError::from(e)); },
        }
        // Transfer USDC from treasury
        let transfer_ix = transfer(
            &accounts[4].key,
            &accounts[1].key,
            &accounts[2].key,
            program_id,
            amount,
        )?;
        let call = sign(transfer_ix, vec![1, 2, 3, 4], treasury_authority_seed(), treasury_authority)?;
        Ok(one_call(call, Some((3, treasury_state))))
    }

    // ----- Emergency pause and unpause -----
    pub open spec fn emergency_pause_rejection(accounts: Seq<AccountInfo>) -> Option<ProgramError> {
        if caller_rejection(accounts, 2) is Some {
            caller_rejection(accounts, 2)
        } else if accounts[1].treasury() is None {
            Some(ProgramError::BorshIoError)
        } else if accounts[1].treasury().unwrap().pause_rejection(accounts[0].key) is Some {
            Some(custom(accounts[1].treasury().unwrap().pause_rejection(accounts[0].key).unwrap()))
        } else {
            None
        }
    }

    pub open spec fn emergency_unpause_rejection(accounts: Seq<AccountInfo>) -> Option<
        ProgramError,
    > {
        if caller_rejection(accounts, 2) is Some {
            caller_rejection(accounts, 2)
        } else if accounts[1].treasury() is None {
            Some(ProgramError::BorshIoError)
        } else if accounts[1].treasury().unwrap().unpause_rejection(accounts[0].key) is Some {
            Some(
                custom(accounts[1].treasury().unwrap().unpause_rejection(accounts[0].key).unwrap()),
            )
        } else {
            None
        }
    }

    /// The outcome of a request that changes the treasury record in the
    /// account at position 1 and makes no call.
    pub open spec fn record_outcome(record: TreasuryView) -> OutcomeView {
        OutcomeView { invocations: Seq::empty(), store: Some((1usize, record)) }
    }

    /// Emergency pause all operations. Only the emergency authority may,
    /// and only while the treasury is running.
    pub fn process_emergency_pause(program_id: &Pubkey, accounts: &[AccountInfo]) -> (r: Result<
        Outcome,
        ProgramError,
    >)
        ensures
            conforms(
                r,
                Self::emergency_pause_rejection(accounts@),
                Self::record_outcome(accounts@[1].treasury().unwrap().with_paused(true)),
            ),
    {
        check_caller(accounts, 2)?;
        let mut treasury_state = load_treasury(&accounts[1])?;
        match treasury_state.apply_pause(&accounts[0].key) {
            Ok(()) => {},
            Err(e) => { return Err(ProgramError::from(e)); },
        }
        Ok(Self::store_record(treasury_state))
    }

    /// Emergency unpause operations. Only the emergency authority may, and
    /// only while the treasury is paused.
    pub fn process_emergency_unpause(program_id: &Pubkey, accounts: &[AccountInfo]) -> (r: Result<
        Outcome,
        ProgramError,
    >)
        ensures
            conforms(
                r,
                Self::emergency_unpause_rejection(accounts@),
                Self::record_outcome(accounts@[1].treasury().unwrap().with_paused(false)),
            ),
    {
        check_caller(accounts, 2)?;
        let mut treasury_state = load_treasury(&accounts[1])?;
        match treasury_state.apply_unpause(&accounts[0].key) {
            Ok(()) => {},
            Err(e) => { return Err(ProgramError::from(e)); },
        }
        Ok(Self::store_record(treasury_state))
    }

    fn store_record(treasury_state: TreasuryState) -> (r: Outcome)
        ensures
            r@ == Self::record_outcome(treasury_state@),
    {
        let invocations: Vec<Invocation> = Vec::new();
        assert(invocations@.map_values(|i: Invocation| i@) =~= Seq::<InvocationView>::empty());
        Outcome { invocations, store: Some((1, treasury_state)) }
    }

    // ----- Update treasury signers and threshold -----
    pub open spec fn update_treasury_rejection(
        accounts: Seq<AccountInfo>,
        new_signers: Seq<Pubkey>,
        new_threshold: u8,
    ) -> Option<ProgramError> {
        if caller_rejection(accounts, 2) is Some {
            caller_rejection(accounts, 2)
        } else if accounts[1].treasury() is None {
            Some(ProgramError::BorshIoError)
        } else if accounts[1].treasury().unwrap().update_rejection(
            accounts[0].key,
            new_signers,
            new_threshold,
        ) is Some {
            Some(
                custom(
                    accounts[1].treasury().unwrap().update_rejection(
                        accounts[0].key,
                        new_signers,
                        new_threshold,
                    ).unwrap(),
                ),
            )
        } else {
            None
        }
    }

    /// Update treasury signers and threshold. The caller must be one of the
    /// present signers; the threshold is not asked of the request itself.
    /// More than `MAX_SIGNERS` new signers, or a threshold that does not go
    /// with their number, are refused as an invalid signature threshold.
    pub fn process_update_treasury(
        program_id: &Pubkey,
        accounts: &[AccountInfo],
        new_signers: Vec<Pubkey>,
        new_threshold: u8,
    ) -> (r: Result<Outcome, ProgramError>)
        ensures
            conforms(
                r,
                Self::update_treasury_rejection(accounts@, new_signers@, new_threshold),
                Self::record_outcome(
                    accounts@[1].treasury().unwrap().updated(new_signers@, new_threshold),
                ),
            ),
            r matches Ok(o) ==> accounts@[1].treasury().unwrap().signers.contains(accounts@[0].key),
            r matches Ok(o) ==> (o@.store matches Some((_, t)) && t.wf()),
    {
        check_caller(accounts, 2)?;
        let mut treasury_state = load_treasury(&accounts[1])?;
        match treasury_state.apply_update(&accounts[0].key, new_signers, new_threshold) {
            Ok(()) => {},
            Err(e) => { return Err(ProgramError::from(e)); },
        }
        Ok(Self::store_record(treasury_state))
    }
    // ----- Any request -----
    /// Why the request is refused, if it is. `mint_bump` and `treasury_bump`
    /// are the bumps of the program's two signing identities, where they
    /// exist.
    pub open spec fn rejection(
        accounts: Seq<AccountInfo>,
        instruction: EceTokenInstructionView,
        mint_bump: Option<u8>,
        treasury_bump: Option<u8>,
    ) -> Option<ProgramError> {
        match instruction {
            EceTokenInstructionView::InitializeToken { .. } => Self::initialize_token_rejection(
                accounts,
            ),
            EceTokenInstructionView::InitializeTreasury { signers, threshold } => {
                Self::initialize_treasury_rejection(accounts, signers, threshold)
            },
            EceTokenInstructionView::MintTokens { amount } => Self::mint_tokens_rejection(
                accounts,
                amount,
                mint_bump,
            ),
            EceTokenInstructionView::BurnTokens { amount } => Self::burn_tokens_rejection(
                accounts,
                amount,
                mint_bump,
                treasury_bump,
            ),
            EceTokenInstructionView::DepositUsdc { amount } => Self::deposit_usdc_rejection(
                accounts,
                amount,
            ),
            EceTokenInstructionView::WithdrawUsdc { amount } => Self::withdraw_usdc_rejection(
                accounts,
                amount,
                treasury_bump,
            ),
            EceTokenInstructionView::WeeklyPayout { revenue_amount, payout_percentage } => {
                Self::weekly_payout_rejection(
                    accounts,
                    revenue_amount,
                    payout_percentage,
                    mint_bump,
                    treasury_bump,
                )
            },
            EceTokenInstructionView::EmergencyPause => Self::emergency_pause_rejection(accounts),
            EceTokenInstructionView::EmergencyUnpause => Self::emergency_unpause_rejection(
                accounts,
            ),
            EceTokenInstructionView::UpdateTreasury { new_signers, new_threshold } => {
                Self::update_treasury_rejection(accounts, new_signers, new_threshold)
            },
        }
    }

    /// What the request asks of the host where it is not refused.
    pub open spec fn outcome(
        program_id: Pubkey,
        accounts: Seq<AccountInfo>,
        instruction: EceTokenInstructionView,
        mint_bump: Option<u8>,
        treasury_bump: Option<u8>,
    ) -> OutcomeView {
        match instruction {
            EceTokenInstructionView::InitializeToken { decimals, freeze_authority } => {
                Self::initialize_token_outcome(program_id, accounts, decimals, freeze_authority)
            },
            EceTokenInstructionView::InitializeTreasury { signers, threshold } => {
                Self::initialize_treasury_outcome(program_id, accounts, signers, threshold)
            },
            EceTokenInstructionView::MintTokens { amount } => Self::mint_tokens_outcome(
                program_id,
                accounts,
                amount,
                mint_bump,
            ),
            EceTokenInstructionView::BurnTokens { amount } => Self::burn_tokens_outcome(
                program_id,
                accounts,
                amount,
                mint_bump,
                treasury_bump,
            ),
            EceTokenInstructionView::DepositUsdc { amount } => Self::deposit_usdc_outcome(
                accounts,
                amount,
            ),
            EceTokenInstructionView::WithdrawUsdc { amount } => Self::withdraw_usdc_outcome(
                program_id,
                accounts,
                amount,
                treasury_bump,
            ),
            EceTokenInstructionView::WeeklyPayout { revenue_amount, payout_percentage } => {
                Self::weekly_payout_outcome(
                    program_id,
                    accounts,
                    revenue_amount,
                    payout_percentage,
                    mint_bump,
                    treasury_bump,
                )
            },
            EceTokenInstructionView::EmergencyPause => Self::record_outcome(
                accounts[1].treasury().unwrap().with_paused(true),
            ),
            EceTokenInstructionView::EmergencyUnpause => Self::record_outcome(
                accounts[1].treasury().unwrap().with_paused(false),
            ),
            EceTokenInstructionView::UpdateTreasury { new_signers, new_threshold } => {
                Self::record_outcome(
                    accounts[1].treasury().unwrap().updated(new_signers, new_threshold),
                )
            },
        }
    }
}

} // verus!
