//! Builders of the requests that the treasury program takes.

use vstd::prelude::*;

use crate::account::AccountMeta;
use crate::instruction::{EceTokenInstruction, EceTokenInstructionView};
use crate::pubkey::{clock_sysvar_id, rent_sysvar_id, system_program_id, token_program_id, Pubkey};

verus! {

/// A request to the treasury program, before it is encoded: the program's
/// address, the accounts in the order in which the handler reads them, and
/// the instruction.
#[derive(Debug, Clone, PartialEq, Eq)]
pub struct Request {
    pub program_id: Pubkey,
    pub accounts: Vec<AccountMeta>,
    pub instruction: EceTokenInstruction,
}

#[verifier::ext_equal]
pub struct RequestView {
    pub program_id: Pubkey,
    pub accounts: Seq<AccountMeta>,
    pub instruction: EceTokenInstructionView,
}

impl View for Request {
    type V = RequestView;

    open spec fn view(&self) -> RequestView {
        RequestView {
            program_id: self.program_id,
            accounts: self.accounts@,
            instruction: self.instruction@,
        }
    }
}

impl RequestView {
    /// Whether the request names as many accounts as its handler reads,
    /// the first of them, the caller, as a signer.
    pub open spec fn well_addressed(self) -> bool {
        self.accounts.len() == self.instruction.accounts_needed() && self.accounts[0].is_signer
    }
}

/// Client helper functions for interacting with the ECE Token program
pub struct EceTokenClient;

impl EceTokenClient {
    /// Create instruction to initialize ECE token mint
    pub fn initialize_token(
        program_id: &Pubkey,
        initializer: &Pubkey,
        mint: &Pubkey,
        decimals: u8,
        freeze_authority: Option<Pubkey>,
    ) -> (r: Request)
        ensures
            r@ == (RequestView {
                program_id: *program_id,
                accounts: seq![
                    AccountMeta::new(*initializer, true),
                    AccountMeta::new(*mint, false),
                    AccountMeta::new_readonly(rent_sysvar_id(), false),
                    AccountMeta::new_readonly(token_program_id(), false),
                ],
                instruction: EceTokenInstructionView::InitializeToken { decimals, freeze_authority },
            }),
            r@.well_addressed(),
    {
        let accounts: Vec<AccountMeta> = vec![
            AccountMeta::new(*initializer, true),
            AccountMeta::new(*mint, false),
            AccountMeta::new_readonly(rent_sysvar_id(), false),
            AccountMeta::new_readonly(token_program_id(), false),
        ];
        assert(accounts@ =~= seq![
            AccountMeta::new(*initializer, true),
            AccountMeta::new(*mint, false),
            AccountMeta::new_readonly(rent_sysvar_id(), false),
            AccountMeta::new_readonly(token_program_id(), false),
        ]);
        Request { program_id: *program_id, accounts, instruction: EceTokenInstruction::InitializeToken { decimals, freeze_authority } }
    }

    /// Create instruction to initialize treasury
    pub fn initialize_treasury(
        program_id: &Pubkey,
        initializer: &Pubkey,
        treasury_account: &Pubkey,
        signers: Vec<Pubkey>,
        threshold: u8,
    ) -> (r: Request)
        ensures
            r@ == (RequestView {
                program_id: *program_id,
                accounts: seq![
                    AccountMeta::new(*initializer, true),
                    AccountMeta::new(*treasury_account, false),
                    AccountMeta::new_readonly(system_program_id(), false),
                    AccountMeta::new_readonly(rent_sysvar_id(), false),
                ],
                instruction: EceTokenInstructionView::InitializeTreasury { signers: signers@, threshold },
            }),
            r@.well_addressed(),
    {
        let accounts: Vec<AccountMeta> = vec![
            AccountMeta::new(*initializer, true),
            AccountMeta::new(*treasury_account, false),
            AccountMeta::new_readonly(system_program_id(), false),
            AccountMeta::new_readonly(rent_sysvar_id(), false),
        ];
        assert(accounts@ =~= seq![
            AccountMeta::new(*initializer, true),
            AccountMeta::new(*treasury_account, false),
            AccountMeta::new_readonly(system_program_id(), false),
            AccountMeta::new_readonly(rent_sysvar_id(), false),
        ]);
        Request { program_id: *program_id, accounts, instruction: EceTokenInstruction::InitializeTreasury { signers, threshold } }
    }

    /// Create instruction to mint ECE tokens
    pub fn mint_tokens(
        program_id: &Pubkey,
        authority: &Pubkey,
        ece_mint: &Pubkey,
        destination_ece_account: &Pubkey,
        source_usdc_account: &Pubkey,
        treasury_usdc_account: &Pubkey,
        treasury_state_account: &Pubkey,
        amount: u64,
    ) -> (r: Request)
        ensures
            r@ == (RequestView {
                program_id: *program_id,
                accounts: seq![
                    AccountMeta::new(*authority, true),
                    AccountMeta::new(*ece_mint, false),
                    AccountMeta::new(*destination_ece_account, false),
                    AccountMeta::new(*source_usdc_account, false),
                    AccountMeta::new(*treasury_usdc_account, false),
                    AccountMeta::new(*treasury_state_account, false),
                    AccountMeta::new_readonly(token_program_id(), false),
                    AccountMeta::new_readonly(clock_sysvar_id(), false),
                ],
                instruction: EceTokenInstructionView::MintTokens { amount },
            }),
            r@.well_addressed(),
    {
        let accounts: Vec<AccountMeta> = vec![
            AccountMeta::new(*authority, true),
            AccountMeta::new(*ece_mint, false),
            AccountMeta::new(*destination_ece_account, false),
            AccountMeta::new(*source_usdc_account, false),
            AccountMeta::new(*treasury_usdc_account, false),
            AccountMeta::new(*treasury_state_account, false),
            AccountMeta::new_readonly(token_program_id(), false),
            AccountMeta::new_readonly(clock_sysvar_id(), false),
        ];
        assert(accounts@ =~= seq![
            AccountMeta::new(*authority, true),
            AccountMeta::new(*ece_mint, false),
            AccountMeta::new(*destination_ece_account, false),
            AccountMeta::new(*source_usdc_account, false),
            AccountMeta::new(*treasury_usdc_account, false),
            AccountMeta::new(*treasury_state_account, false),
            AccountMeta::new_readonly(token_program_id(), false),
            AccountMeta::new_readonly(clock_sysvar_id(), false),
        ]);
        Request { program_id: *program_id, accounts, instruction: EceTokenInstruction::MintTokens { amount } }
    }

    /// Create instruction to burn ECE tokens
    pub fn burn_tokens(
        program_id: &Pubkey,
        authority: &Pubkey,
        ece_mint: &Pubkey,
        source_ece_account: &Pubkey,
        destination_usdc_account: &Pubkey,
        treasury_usdc_account: &Pubkey,
        treasury_state_account: &Pubkey,
        amount: u64,
    ) -> (r: Request)
        ensures
            r@ == (RequestView {
                program_id: *program_id,
                accounts: seq![
                    AccountMeta::new(*authority, true),
                    AccountMeta::new(*ece_mint, false),
                    AccountMeta::new(*source_ece_account, false),
                    AccountMeta::new(*destination_usdc_account, false),
                    AccountMeta::new(*treasury_usdc_account, false),
                    AccountMeta::new(*treasury_state_account, false),
                    AccountMeta::new_readonly(token_program_id(), false),
                    AccountMeta::new_readonly(clock_sysvar_id(), false),
                ],
                instruction: EceTokenInstructionView::BurnTokens { amount },
            }),
            r@.well_addressed(),
    {
        let accounts: Vec<AccountMeta> = vec![
            AccountMeta::new(*authority, true),
            AccountMeta::new(*ece_mint, false),
            AccountMeta::new(*source_ece_account, false),
            AccountMeta::new(*destination_usdc_account, false),
            AccountMeta::new(*treasury_usdc_account, false),
            AccountMeta::new(*treasury_state_account, false),
            AccountMeta::new_readonly(token_program_id(), false),
            AccountMeta::new_readonly(clock_sysvar_id(), false),
        ];
        assert(accounts@ =~= seq![
            AccountMeta::new(*authority, true),
            AccountMeta::new(*ece_mint, false),
            AccountMeta::new(*source_ece_account, false),
            AccountMeta::new(*destination_usdc_account, false),
            AccountMeta::new(*treasury_usdc_account, false),
            AccountMeta::new(*treasury_state_account, false),
            AccountMeta::new_readonly(token_program_id(), false),
            AccountMeta::new_readonly(clock_sysvar_id(), false),
        ]);
        Request { program_id: *program_id, accounts, instruction: EceTokenInstruction::BurnTokens { amount } }
    }

    /// Create instruction for weekly payout
    pub fn weekly_payout(
        program_id: &Pubkey,
        authority: &Pubkey,
        company_ece_account: &Pubkey,
        company_usdc_account: &Pubkey,
        treasury_usdc_account: &Pubkey,
        treasury_state_account: &Pubkey,
        ece_mint: &Pubkey,
        revenue_amount: u64,
        payout_percentage: u8,
    ) -> (r: Request)
        ensures
            r@ == (RequestView {
                program_id: *program_id,
                accounts: seq![
                    AccountMeta::new(*authority, true),
                    AccountMeta::new(*company_ece_account, false),
                    AccountMeta::new(*company_usdc_account, false),
                    AccountMeta::new(*treasury_usdc_account, false),
                    AccountMeta::new(*treasury_state_account, false),
                    AccountMeta::new(*ece_mint, false),
                    AccountMeta::new_readonly(token_program_id(), false),
                    AccountMeta::new_readonly(clock_sysvar_id(), false),
                ],
                instruction: EceTokenInstructionView::WeeklyPayout { revenue_amount, payout_percentage },
            }),
            r@.well_addressed(),
    {
        let accounts: Vec<AccountMeta> = vec![
            AccountMeta::new(*authority, true),
            AccountMeta::new(*company_ece_account, false),
            AccountMeta::new(*company_usdc_account, false),
            AccountMeta::new(*treasury_usdc_account, false),
            AccountMeta::new(*treasury_state_account, false),
            AccountMeta::new(*ece_mint, false),
            AccountMeta::new_readonly(token_program_id(), false),
            AccountMeta::new_readonly(clock_sysvar_id(), false),
        ];
        assert(accounts@ =~= seq![
            AccountMeta::new(*authority, true),
            AccountMeta::new(*company_ece_account, false),
            AccountMeta::new(*company_usdc_account, false),
            AccountMeta::new(*treasury_usdc_account, false),
            AccountMeta::new(*treasury_state_account, false),
            AccountMeta::new(*ece_mint, false),
            AccountMeta::new_readonly(token_program_id(), false),
            AccountMeta::new_readonly(clock_sysvar_id(), false),
        ]);
        Request { program_id: *program_id, accounts, instruction: EceTokenInstruction::WeeklyPayout { revenue_amount, payout_percentage } }
    }

    /// Create instruction to deposit USDC
    pub fn deposit_usdc(
        program_id: &Pubkey,
        depositor: &Pubkey,
        source_usdc_account: &Pubkey,
        treasury_usdc_account: &Pubkey,
        treasury_state_account: &Pubkey,
        amount: u64,
    ) -> (r: Request)
        ensures
            r@ == (RequestView {
                program_id: *program_id,
                accounts: seq![
                    AccountMeta::new(*depositor, true),
                    AccountMeta::new(*source_usdc_account, false),
                    AccountMeta::new(*treasury_usdc_account, false),
                    AccountMeta::new(*treasury_state_account, false),
                    AccountMeta::new_readonly(token_program_id(), false),
                    AccountMeta::new_readonly(clock_sysvar_id(), false),
                ],
                instruction: EceTokenInstructionView::DepositUsdc { amount },
            }),
            r@.well_addressed(),
    {
        let accounts: Vec<AccountMeta> = vec![
            AccountMeta::new(*depositor, true),
            AccountMeta::new(*source_usdc_account, false),
            AccountMeta::new(*treasury_usdc_account, false),
            AccountMeta::new(*treasury_state_account, false),
            AccountMeta::new_readonly(token_program_id(), false),
            AccountMeta::new_readonly(clock_sysvar_id(), false),
        ];
        assert(accounts@ =~= seq![
            AccountMeta::new(*depositor, true),
            AccountMeta::new(*source_usdc_account, false),
            AccountMeta::new(*treasury_usdc_account, false),
            AccountMeta::new(*treasury_state_account, false),
            AccountMeta::new_readonly(token_program_id(), false),
            AccountMeta::new_readonly(clock_sysvar_id(), false),
        ]);
        Request { program_id: *program_id, accounts, instruction: EceTokenInstruction::DepositUsdc { amount } }
    }

    /// Create instruction to withdraw USDC
    pub fn withdraw_usdc(
        program_id: &Pubkey,
        authority: &Pubkey,
        treasury_usdc_account: &Pubkey,
        destination_usdc_account: &Pubkey,
        treasury_state_account: &Pubkey,
        amount: u64,
    ) -> (r: Request)
        ensures
            r@ == (RequestView {
                program_id: *program_id,
                accounts: seq![
                    AccountMeta::new(*authority, true),
                    AccountMeta::new(*treasury_usdc_account, false),
                    AccountMeta::new(*destination_usdc_account, false),
                    AccountMeta::new(*treasury_state_account, false),
                    AccountMeta::new_readonly(token_program_id(), false),
                    AccountMeta::new_readonly(clock_sysvar_id(), false),
                ],
                instruction: EceTokenInstructionView::WithdrawUsdc { amount },
            }),
            r@.well_addressed(),
    {
        let accounts: Vec<AccountMeta> = vec![
            AccountMeta::new(*authority, true),
            AccountMeta::new(*treasury_usdc_account, false),
            AccountMeta::new(*destination_usdc_account, false),
            AccountMeta::new(*treasury_state_account, false),
            AccountMeta::new_readonly(token_program_id(), false),
            AccountMeta::new_readonly(clock_sysvar_id(), false),
        ];
        assert(accounts@ =~= seq![
            AccountMeta::new(*authority, true),
            AccountMeta::new(*treasury_usdc_account, false),
            AccountMeta::new(*destination_usdc_account, false),
            AccountMeta::new(*treasury_state_account, false),
            AccountMeta::new_readonly(token_program_id(), false),
            AccountMeta::new_readonly(clock_sysvar_id(), false),
        ]);
        Request { program_id: *program_id, accounts, instruction: EceTokenInstruction::WithdrawUsdc { amount } }
    }

    /// Create instruction for emergency pause
    pub fn emergency_pause(
        program_id: &Pubkey,
        emergency_authority: &Pubkey,
        treasury_state_account: &Pubkey,
    ) -> (r: Request)
        ensures
            r@ == (RequestView {
                program_id: *program_id,
                accounts: seq![
                    AccountMeta::new(*emergency_authority, true),
                    AccountMeta::new(*treasury_state_account, false),
                ],
                instruction: EceTokenInstructionView::EmergencyPause,
            }),
            r@.well_addressed(),
    {
        let accounts: Vec<AccountMeta> = vec![
            AccountMeta::new(*emergency_authority, true),
            AccountMeta::new(*treasury_state_account, false),
        ];
        assert(accounts@ =~= seq![
            AccountMeta::new(*emergency_authority, true),
            AccountMeta::new(*treasury_state_account, false),
        ]);
        Request { program_id: *program_id, accounts, instruction: EceTokenInstruction::EmergencyPause }
    }

    /// Create instruction for emergency unpause
    pub fn emergency_unpause(
        program_id: &Pubkey,
        emergency_authority: &Pubkey,
        treasury_state_account: &Pubkey,
    ) -> (r: Request)
        ensures
            r@ == (RequestView {
                program_id: *program_id,
                accounts: seq![
                    AccountMeta::new(*emergency_authority, true),
                    AccountMeta::new(*treasury_state_account, false),
                ],
                instruction: EceTokenInstructionView::EmergencyUnpause,
            }),
            r@.well_addressed(),
    {
        let accounts: Vec<AccountMeta> = vec![
            AccountMeta::new(*emergency_authority, true),
            AccountMeta::new(*treasury_state_account, false),
        ];
        assert(accounts@ =~= seq![
            AccountMeta::new(*emergency_authority, true),
            AccountMeta::new(*treasury_state_account, false),
        ]);
        Request { program_id: *program_id, accounts, instruction: EceTokenInstruction::EmergencyUnpause }
    }

    /// Create instruction to update treasury
    pub fn update_treasury(
        program_id: &Pubkey,
        authority: &Pubkey,
        treasury_state_account: &Pubkey,
        new_signers: Vec<Pubkey>,
        new_threshold: u8,
    ) -> (r: Request)
        ensures
            r@ == (RequestView {
                program_id: *program_id,
                accounts: seq![
                    AccountMeta::new(*authority, true),
                    AccountMeta::new(*treasury_state_account, false),
                ],
                instruction: EceTokenInstructionView::UpdateTreasury { new_signers: new_signers@, new_threshold },
            }),
            r@.well_addressed(),
    {
        let accounts: Vec<AccountMeta> = vec![
            AccountMeta::new(*authority, true),
            AccountMeta::new(*treasury_state_account, false),
        ];
        assert(accounts@ =~= seq![
            AccountMeta::new(*authority, true),
            AccountMeta::new(*treasury_state_account, false),
        ]);
        Request { program_id: *program_id, accounts, instruction: EceTokenInstruction::UpdateTreasury { new_signers, new_threshold } }
    }
}

} // verus!
