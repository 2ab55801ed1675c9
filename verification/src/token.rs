//! Instructions for the token program and the system program.

use vstd::bytes::spec_u64_to_le_bytes;
use vstd::prelude::*;

use crate::account::{AccountMeta, Instruction, InstructionView};
use crate::error::ProgramError;
use crate::pubkey::{spec_rent_sysvar_id, spec_system_program_id, spec_token_program_id, Pubkey};

verus! {

/// First byte of a token-program instruction that creates a mint.
pub const INITIALIZE_MINT: u8 = 0;

/// First byte of a token-program instruction that transfers tokens.
pub const TRANSFER: u8 = 3;

/// First byte of a token-program instruction that mints tokens.
pub const MINT_TO: u8 = 7;

/// First byte of a token-program instruction that burns tokens.
pub const BURN: u8 = 8;

/// An instruction of the token program that moves `amount` between two
/// writable accounts on the signature of `authority`: the kind of movement,
/// then the amount in eight little-endian bytes.
pub open spec fn token_movement(
    token_program: Pubkey,
    kind: u8,
    first: Pubkey,
    second: Pubkey,
    authority: Pubkey,
    amount: u64,
) -> InstructionView {
    InstructionView {
        program_id: token_program,
        accounts: seq![
            AccountMeta::spec_new(first, false),
            AccountMeta::spec_new(second, false),
            AccountMeta::spec_new_readonly(authority, true),
        ],
        data: seq![kind] + spec_u64_to_le_bytes(amount),
    }
}

/// The instruction of the token program that makes `mint` a mint of
/// `decimals` decimals under `mint_authority`.
pub open spec fn mint_initialization(
    token_program: Pubkey,
    mint: Pubkey,
    mint_authority: Pubkey,
    freeze_authority: Option<Pubkey>,
    decimals: u8,
) -> InstructionView {
    InstructionView {
        program_id: token_program,
        accounts: seq![
            AccountMeta::spec_new(mint, false),
            AccountMeta::spec_new_readonly(spec_rent_sysvar_id(), false),
        ],
        data: seq![INITIALIZE_MINT, decimals] + mint_authority@ + match freeze_authority {
            Some(key) => seq![1u8] + key@,
            None => seq![0u8],
        },
    }
}

/// The instruction of the system program by which `from` pays `lamports`
/// for a new account `to` of `space` bytes that `owner` will own.
pub open spec fn account_creation(
    from: Pubkey,
    to: Pubkey,
    lamports: u64,
    space: u64,
    owner: Pubkey,
) -> InstructionView {
    InstructionView {
        program_id: spec_system_program_id(),
        accounts: seq![AccountMeta::spec_new(from, true), AccountMeta::spec_new(to, true)],
        data: seq![0u8, 0u8, 0u8, 0u8] + spec_u64_to_le_bytes(lamports) + spec_u64_to_le_bytes(space) + owner@,
    }
}

/// Calls `spl_token::instruction::transfer` with no multisig signers. That
/// function refuses, with `IncorrectProgramId`, any program address but the
/// token program's. Else it names the source and the destination as
/// writable, the authority as a read-only signer, and packs the byte 3 and
/// the amount.
#[verifier::external_body]
pub(crate) fn transfer(
    token_program: &Pubkey,
    source: &Pubkey,
    destination: &Pubkey,
    authority: &Pubkey,
    amount: u64,
) -> (r: Result<Instruction, ProgramError>)
    ensures
        match r {
            Ok(i) => *token_program == spec_token_program_id() && i@ == token_movement(
                *token_program,
                TRANSFER,
                *source,
                *destination,
                *authority,
                amount,
            ),
            Err(e) => *token_program != spec_token_program_id() && e
                == ProgramError::IncorrectProgramId,
        },
{
    let key = |k: &Pubkey| solana_program::pubkey::Pubkey::new_from_array(k.bytes);
    match spl_token::instruction::transfer(&key(token_program), &key(source), &key(destination), &key(authority), &[], amount) {
        Ok(i) => Ok(Instruction {
            program_id: Pubkey { bytes: i.program_id.to_bytes() },
            accounts: i.accounts.iter().map(|m| AccountMeta { pubkey: Pubkey { bytes: m.pubkey.to_bytes() }, is_signer: m.is_signer, is_writable: m.is_writable }).collect(),
            data: i.data,
        }),
        Err(_) => Err(ProgramError::IncorrectProgramId),
    }
}

/// Calls `spl_token::instruction::mint_to` with no multisig signers. That
/// function refuses, with `IncorrectProgramId`, any program address but the
/// token program's. Else it names the mint and the receiving account as
/// writable, the mint's owner as a read-only signer, and packs the byte 7
/// and the amount.
#[verifier::external_body]
pub(crate) fn mint_to(
    token_program: &Pubkey,
    mint: &Pubkey,
    account: &Pubkey,
    owner: &Pubkey,
    amount: u64,
) -> (r: Result<Instruction, ProgramError>)
    ensures
        match r {
            Ok(i) => *token_program == spec_token_program_id() && i@ == token_movement(
                *token_program,
                MINT_TO,
                *mint,
                *account,
                *owner,
                amount,
            ),
            Err(e) => *token_program != spec_token_program_id() && e
                == ProgramError::IncorrectProgramId,
        },
{
    let key = |k: &Pubkey| solana_program::pubkey::Pubkey::new_from_array(k.bytes);
    match spl_token::instruction::mint_to(&key(token_program), &key(mint), &key(account), &key(owner), &[], amount) {
        Ok(i) => Ok(Instruction {
            program_id: Pubkey { bytes: i.program_id.to_bytes() },
            accounts: i.accounts.iter().map(|m| AccountMeta { pubkey: Pubkey { bytes: m.pubkey.to_bytes() }, is_signer: m.is_signer, is_writable: m.is_writable }).collect(),
            data: i.data,
        }),
        Err(_) => Err(ProgramError::IncorrectProgramId),
    }
}

/// Calls `spl_token::instruction::burn` with no multisig signers. That
/// function refuses, with `IncorrectProgramId`, any program address but the
/// token program's. Else it names the account burned from and the mint as
/// writable, the authority as a read-only signer, and packs the byte 8 and
/// the amount.
#[verifier::external_body]
pub(crate) fn burn(
    token_program: &Pubkey,
    account: &Pubkey,
    mint: &Pubkey,
    authority: &Pubkey,
    amount: u64,
) -> (r: Result<Instruction, ProgramError>)
    ensures
        match r {
            Ok(i) => *token_program == spec_token_program_id() && i@ == token_movement(
                *token_program,
                BURN,
                *account,
                *mint,
                *authority,
                amount,
            ),
            Err(e) => *token_program != spec_token_program_id() && e
                == ProgramError::IncorrectProgramId,
        },
{
    let key = |k: &Pubkey| solana_program::pubkey::Pubkey::new_from_array(k.bytes);
    match spl_token::instruction::burn(&key(token_program), &key(account), &key(mint), &key(authority), &[], amount) {
        Ok(i) => Ok(Instruction {
            program_id: Pubkey { bytes: i.program_id.to_bytes() },
            accounts: i.accounts.iter().map(|m| AccountMeta { pubkey: Pubkey { bytes: m.pubkey.to_bytes() }, is_signer: m.is_signer, is_writable: m.is_writable }).collect(),
            data: i.data,
        }),
        Err(_) => Err(ProgramError::IncorrectProgramId),
    }
}

/// Calls `spl_token::instruction::initialize_mint`. That function refuses,
/// with `IncorrectProgramId`, any program address but the token program's.
/// Else it names the mint as writable and the rent sysvar as read-only, and
/// packs the byte 0, the decimals, the mint authority's 32 bytes, and the
/// freeze authority as 1 and its 32 bytes, or as 0 where there is none.
#[verifier::external_body]
pub(crate) fn initialize_mint(
    token_program: &Pubkey,
    mint: &Pubkey,
    mint_authority: &Pubkey,
    freeze_authority: Option<Pubkey>,
    decimals: u8,
) -> (r: Result<Instruction, ProgramError>)
    ensures
        match r {
            Ok(i) => *token_program == spec_token_program_id() && i@ == mint_initialization(
                *token_program,
                *mint,
                *mint_authority,
                freeze_authority,
                decimals,
            ),
            Err(e) => *token_program != spec_token_program_id() && e
                == ProgramError::IncorrectProgramId,
        },
{
    let key = |k: &Pubkey| solana_program::pubkey::Pubkey::new_from_array(k.bytes);
    let freeze = freeze_authority.map(|k| key(&k));
    match spl_token::instruction::initialize_mint(&key(token_program), &key(mint), &key(mint_authority), freeze.as_ref(), decimals) {
        Ok(i) => Ok(Instruction {
            program_id: Pubkey { bytes: i.program_id.to_bytes() },
            accounts: i.accounts.iter().map(|m| AccountMeta { pubkey: Pubkey { bytes: m.pubkey.to_bytes() }, is_signer: m.is_signer, is_writable: m.is_writable }).collect(),
            data: i.data,
        }),
        Err(_) => Err(ProgramError::IncorrectProgramId),
    }
}

/// Calls `solana_program::system_instruction::create_account`. That
/// function addresses the system program, names the payer and the new
/// account as writable signers, and encodes the request with bincode: the
/// number 0 of the `CreateAccount` variant in four bytes, the lamports and
/// the space in eight little-endian bytes each, and the owner's 32 bytes.
#[verifier::external_body]
pub(crate) fn create_account(
    from: &Pubkey,
    to: &Pubkey,
    lamports: u64,
    space: u64,
    owner: &Pubkey,
) -> (r: Instruction)
    ensures
        r@ == account_creation(*from, *to, lamports, space, *owner),
{
    let key = |k: &Pubkey| solana_program::pubkey::Pubkey::new_from_array(k.bytes);
    let i = solana_program::system_instruction::create_account(&key(from), &key(to), lamports, space, &key(owner));
    Instruction {
        program_id: Pubkey { bytes: i.program_id.to_bytes() },
        accounts: i.accounts.iter().map(|m| AccountMeta { pubkey: Pubkey { bytes: m.pubkey.to_bytes() }, is_signer: m.is_signer, is_writable: m.is_writable }).collect(),
        data: i.data,
    }
}

} // verus!
