//! Accounting core of a reserve-backed token: a treasury record that mints
//! ECE one for one against USDC, burns it on redemption and pays revenue out
//! of the reserves, under solvency, authorization and compliance guards.
//!
//! The library decides; it moves nothing. Each request is answered with a
//! refusal or with the calls to make and the record to store, which the host
//! applies as one.

use vstd::prelude::*;

use crate::account::{AccountInfo, Outcome};
use crate::error::ProgramError;
use crate::instruction::EceTokenInstruction;
use crate::processor::{conforms, derived_bump, spec_mint_authority_seed, spec_treasury_authority_seed, Processor};
use crate::pubkey::Pubkey;

pub mod account;
pub mod client;
pub mod error;
pub mod instruction;
pub mod laws;
pub mod processor;
pub mod pubkey;
pub mod records;
pub mod state;
pub mod token;

verus! {

/// Main entry point for the ECE Token program: hands the request to its
/// handler. `instruction` is `None` where the request's bytes decode to no
/// instruction, which is refused as invalid instruction data.
pub fn process_instruction(
    program_id: &Pubkey,
    accounts: &[AccountInfo],
    instruction: Option<EceTokenInstruction>,
) -> (r: Result<Outcome, ProgramError>)
    ensures
        match instruction {
            Some(i) => conforms(
                r,
                Processor::rejection(
                    accounts@,
                    i@,
                    derived_bump(spec_mint_authority_seed(), *program_id),
                    derived_bump(spec_treasury_authority_seed(), *program_id),
                ),
                Processor::outcome(
                    *program_id,
                    accounts@,
                    i@,
                    derived_bump(spec_mint_authority_seed(), *program_id),
                    derived_bump(spec_treasury_authority_seed(), *program_id),
                ),
            ),
            None => r matches Err(e) && e == ProgramError::InvalidInstructionData,
        },
{
    let instruction = match instruction {
        Some(i) => i,
        None => { return Err(ProgramError::InvalidInstructionData); },
    };
    match instruction {
        EceTokenInstruction::InitializeToken { decimals, freeze_authority } => {
            Processor::process_initialize_token(program_id, accounts, decimals, freeze_authority)
        },
        EceTokenInstruction::InitializeTreasury { signers, threshold } => {
            Processor::process_initialize_treasury(program_id, accounts, signers, threshold)
        },
        EceTokenInstruction::MintTokens { amount } => {
            Processor::process_mint_tokens(program_id, accounts, amount)
        },
        EceTokenInstruction::BurnTokens { amount } => {
            Processor::process_burn_tokens(program_id, accounts, amount)
        },
        EceTokenInstruction::DepositUsdc { amount } => {
            Processor::process_deposit_usdc(program_id, accounts, amount)
        },
        EceTokenInstruction::WithdrawUsdc { amount } => {
            Processor::process_withdraw_usdc(program_id, accounts, amount)
        },
        EceTokenInstruction::WeeklyPayout { revenue_amount, payout_percentage } => {
            Processor::process_weekly_payout(program_id, accounts, revenue_amount, payout_percentage)
        },
        EceTokenInstruction::EmergencyPause => {
            Processor::process_emergency_pause(program_id, accounts)
        },
        EceTokenInstruction::EmergencyUnpause => {
            Processor::process_emergency_unpause(program_id, accounts)
        },
        EceTokenInstruction::UpdateTreasury { new_signers, new_threshold } => {
            Processor::process_update_treasury(program_id, accounts, new_signers, new_threshold)
        },
    }
}

} // verus!
