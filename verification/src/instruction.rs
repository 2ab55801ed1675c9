//! The requests that the treasury program takes.

use vstd::prelude::*;

use crate::pubkey::Pubkey;

verus! {

#[derive(Debug, Clone, PartialEq, Eq)]
pub enum EceTokenInstruction {
    /// Initialize the ECE token mint
    /// Accounts expected:
    /// 0. `[signer]` The account of the person initializing the token
    /// 1. `[writable]` The token mint account
    /// 2. `[]` Rent sysvar
    /// 3. `[]` Token program
    InitializeToken { decimals: u8, freeze_authority: Option<Pubkey> },
    /// Initialize the multi-signature treasury
    /// Accounts expected:
    /// 0. `[signer]` The account initializing the treasury
    /// 1. `[writable]` The treasury account
    /// 2. `[]` System program
    /// 3. `[]` Rent sysvar
    InitializeTreasury { signers: Vec<Pubkey>, threshold: u8 },
    /// Mint ECE tokens backed by USDC deposits
    /// Accounts expected:
    /// 0. `[signer]` Treasury authority (multi-sig)
    /// 1. `[writable]` ECE token mint
    /// 2. `[writable]` Destination ECE token account
    /// 3. `[writable]` Source USDC token account
    /// 4. `[writable]` Treasury USDC reserve account
    /// 5. `[writable]` Treasury state account
    /// 6. `[]` Token program
    /// 7. `[]` Clock sysvar
    MintTokens { amount: u64 },
    /// Burn ECE tokens and release USDC
    /// Accounts expected:
    /// 0. `[signer]` Token holder
    /// 1. `[writable]` ECE token mint
    /// 2. `[writable]` Source ECE token account
    /// 3. `[writable]` Destination USDC token account
    /// 4. `[writable]` Treasury USDC reserve account
    /// 5. `[writable]` Treasury state account
    /// 6. `[]` Token program
    /// 7. `[]` Clock sysvar
    BurnTokens { amount: u64 },
    /// Deposit USDC to treasury reserves
    /// Accounts expected:
    /// 0. `[signer]` Depositor
    /// 1. `[writable]` Source USDC account
    /// 2. `[writable]` Treasury USDC reserve account
    /// 3. `[writable]` Treasury state account
    /// 4. `[]` Token program
    /// 5. `[]` Clock sysvar
    DepositUsdc { amount: u64 },
    /// Withdraw USDC from treasury reserves
    /// Accounts expected:
    /// 0. `[signer]` Treasury authority (multi-sig)
    /// 1. `[writable]` Treasury USDC reserve account
    /// 2. `[writable]` Destination USDC account
    /// 3. `[writable]` Treasury state account
    /// 4. `[]` Token program
    /// 5. `[]` Clock sysvar
    WithdrawUsdc { amount: u64 },
    /// Process weekly company payout
    /// Accounts expected:
    /// 0. `[signer]` Treasury authority (multi-sig)
    /// 1. `[writable]` Company ECE revenue account
    /// 2. `[writable]` Company USDC account
    /// 3. `[writable]` Treasury USDC reserve account
    /// 4. `[writable]` Treasury state account
    /// 5. `[writable]` ECE token mint
    /// 6. `[]` Token program
    /// 7. `[]` Clock sysvar
    WeeklyPayout { revenue_amount: u64, payout_percentage: u8 },
    /// Emergency pause all operations
    /// Accounts expected:
    /// 0. `[signer]` Emergency authority
    /// 1. `[writable]` Treasury state account
    EmergencyPause,
    /// Emergency unpause operations
    /// Accounts expected:
    /// 0. `[signer]` Emergency authority
    /// 1. `[writable]` Treasury state account
    EmergencyUnpause,
    /// Update treasury signers and threshold
    /// Accounts expected:
    /// 0. `[signer]` Current treasury authority (multi-sig)
    /// 1. `[writable]` Treasury state account
    UpdateTreasury { new_signers: Vec<Pubkey>, new_threshold: u8 },
}

/// A request as a value: lists of signers as sequences.
pub enum EceTokenInstructionView {
    InitializeToken { decimals: u8, freeze_authority: Option<Pubkey> },
    InitializeTreasury { signers: Seq<Pubkey>, threshold: u8 },
    MintTokens { amount: u64 },
    BurnTokens { amount: u64 },
    DepositUsdc { amount: u64 },
    WithdrawUsdc { amount: u64 },
    WeeklyPayout { revenue_amount: u64, payout_percentage: u8 },
    EmergencyPause,
    EmergencyUnpause,
    UpdateTreasury { new_signers: Seq<Pubkey>, new_threshold: u8 },
}

impl View for EceTokenInstruction {
    type V = EceTokenInstructionView;

    open spec fn view(&self) -> EceTokenInstructionView {
        match *self {
            EceTokenInstruction::InitializeToken { decimals, freeze_authority } => {
                EceTokenInstructionView::InitializeToken { decimals, freeze_authority }
            },
            EceTokenInstruction::InitializeTreasury { signers, threshold } => {
                EceTokenInstructionView::InitializeTreasury { signers: signers@, threshold }
            },
            EceTokenInstruction::MintTokens { amount } => EceTokenInstructionView::MintTokens {
                amount,
            },
            EceTokenInstruction::BurnTokens { amount } => EceTokenInstructionView::BurnTokens {
                amount,
            },
            EceTokenInstruction::DepositUsdc { amount } => EceTokenInstructionView::DepositUsdc {
                amount,
            },
            EceTokenInstruction::WithdrawUsdc { amount } => EceTokenInstructionView::WithdrawUsdc {
                amount,
            },
            EceTokenInstruction::WeeklyPayout { revenue_amount, payout_percentage } => {
                EceTokenInstructionView::WeeklyPayout { revenue_amount, payout_percentage }
            },
            EceTokenInstruction::EmergencyPause => EceTokenInstructionView::EmergencyPause,
            EceTokenInstruction::EmergencyUnpause => EceTokenInstructionView::EmergencyUnpause,
            EceTokenInstruction::UpdateTreasury { new_signers, new_threshold } => {
                EceTokenInstructionView::UpdateTreasury { new_signers: new_signers@, new_threshold }
            },
        }
    }
}

impl EceTokenInstructionView {
    /// Whether the request moves value: a mint, a burn, a deposit, a
    /// withdrawal or a payout.
    pub open spec fn moves_value(self) -> bool {
        self is MintTokens || self is BurnTokens || self is DepositUsdc || self is WithdrawUsdc
            || self is WeeklyPayout
    }

    /// How many accounts the request has to name.
    pub open spec fn accounts_needed(self) -> nat {
        match self {
            EceTokenInstructionView::InitializeToken { .. } => 4,
            EceTokenInstructionView::InitializeTreasury { .. } => 4,
            EceTokenInstructionView::MintTokens { .. } => 8,
            EceTokenInstructionView::BurnTokens { .. } => 8,
            EceTokenInstructionView::DepositUsdc { .. } => 6,
            EceTokenInstructionView::WithdrawUsdc { .. } => 6,
            EceTokenInstructionView::WeeklyPayout { .. } => 8,
            EceTokenInstructionView::EmergencyPause => 2,
            EceTokenInstructionView::EmergencyUnpause => 2,
            EceTokenInstructionView::UpdateTreasury { .. } => 2,
        }
    }

    /// Position of the account that holds the treasury record which the
    /// request reads, where the request reads one.
    pub open spec fn treasury_account(self) -> Option<int> {
        match self {
            EceTokenInstructionView::InitializeToken { .. } => None,
            EceTokenInstructionView::InitializeTreasury { .. } => None,
            EceTokenInstructionView::MintTokens { .. } => Some(5),
            EceTokenInstructionView::BurnTokens { .. } => Some(5),
            EceTokenInstructionView::DepositUsdc { .. } => Some(3),
            EceTokenInstructionView::WithdrawUsdc { .. } => Some(3),
            EceTokenInstructionView::WeeklyPayout { .. } => Some(4),
            EceTokenInstructionView::EmergencyPause => Some(1),
            EceTokenInstructionView::EmergencyUnpause => Some(1),
            EceTokenInstructionView::UpdateTreasury { .. } => Some(1),
        }
    }

    /// Position of the account that holds the clock which the request
    /// reads, where the request reads one.
    pub open spec fn clock_account(self) -> Option<int> {
        match self {
            EceTokenInstructionView::MintTokens { .. } => Some(7),
            EceTokenInstructionView::BurnTokens { .. } => Some(7),
            EceTokenInstructionView::DepositUsdc { .. } => Some(5),
            EceTokenInstructionView::WeeklyPayout { .. } => Some(7),
            _ => None,
        }
    }
}

} // verus!
