//! What the host hands to an operation, and what an operation hands back.

use vstd::prelude::*;

use crate::pubkey::Pubkey;
use crate::state::{TreasuryState, TreasuryView};

verus! {

/// What an account holds, as far as the treasury reads it.
#[derive(Debug, Clone, PartialEq, Eq)]
pub enum AccountData {
    /// A treasury record.
    Treasury(TreasuryState),
    /// The clock sysvar, by its Unix timestamp in seconds.
    Clock(i64),
    /// The rent sysvar, by the balance that exempts an account of
    /// `TreasuryState::LEN` bytes from rent.
    Rent(u64),
    /// Anything else.
    Other,
}

/// An account that a request names, with the facts that the host has
/// established about it.
#[derive(Debug, Clone, PartialEq, Eq)]
pub struct AccountInfo {
    /// Address of the account
    pub key: Pubkey,
    /// Whether the request carries this account's signature
    pub is_signer: bool,
    /// Whether the account's balance exempts it from rent
    pub rent_exempt: bool,
    /// What the account holds
    pub data: AccountData,
}

impl AccountInfo {
    /// The timestamp that the account holds, where it is the clock.
    pub open spec fn clock(self) -> Option<i64> {
        match self.data {
            AccountData::Clock(unix_timestamp) => Some(unix_timestamp),
            _ => None,
        }
    }

    /// The minimum balance that the account holds, where it is the rent
    /// schedule.
    pub open spec fn rent(self) -> Option<u64> {
        match self.data {
            AccountData::Rent(minimum_balance) => Some(minimum_balance),
            _ => None,
        }
    }

    /// The treasury record that the account holds, where it holds one.
    pub open spec fn treasury(self) -> Option<TreasuryView> {
        match self.data {
            AccountData::Treasury(state) => Some(state@),
            _ => None,
        }
    }
}

/// An account as an instruction names it.
#[derive(Debug, Clone, Copy, PartialEq, Eq)]
pub struct AccountMeta {
    /// An account's public key.
    pub pubkey: Pubkey,
    /// True if the instruction requires a signature matching `pubkey`.
    pub is_signer: bool,
    /// True if the account may be changed while the instruction runs.
    pub is_writable: bool,
}

impl AccountMeta {
    pub open spec fn spec_new(pubkey: Pubkey, is_signer: bool) -> AccountMeta {
        AccountMeta { pubkey, is_signer, is_writable: true }
    }

    pub open spec fn spec_new_readonly(pubkey: Pubkey, is_signer: bool) -> AccountMeta {
        AccountMeta { pubkey, is_signer, is_writable: false }
    }

    /// Construct metadata for a writable account.
    #[verifier::when_used_as_spec(spec_new)]
    pub fn new(pubkey: Pubkey, is_signer: bool) -> (r: AccountMeta)
        ensures
            r == AccountMeta::spec_new(pubkey, is_signer),
    {
        AccountMeta { pubkey, is_signer, is_writable: true }
    }

    /// Construct metadata for a read-only account.
    #[verifier::when_used_as_spec(spec_new_readonly)]
    pub fn new_readonly(pubkey: Pubkey, is_signer: bool) -> (r: AccountMeta)
        ensures
            r == AccountMeta::spec_new_readonly(pubkey, is_signer),
    {
        AccountMeta { pubkey, is_signer, is_writable: false }
    }
}

/// A request to another program.
#[derive(Debug, Clone, PartialEq, Eq)]
pub struct Instruction {
    /// Address of the program that executes the instruction.
    pub program_id: Pubkey,
    /// The accounts that the program is to be given.
    pub accounts: Vec<AccountMeta>,
    /// What the program is asked, in its own encoding.
    pub data: Vec<u8>,
}

#[verifier::ext_equal]
pub struct InstructionView {
    pub program_id: Pubkey,
    pub accounts: Seq<AccountMeta>,
    pub data: Seq<u8>,
}

impl View for Instruction {
    type V = InstructionView;

    open spec fn view(&self) -> InstructionView {
        InstructionView { program_id: self.program_id, accounts: self.accounts@, data: self.data@ }
    }
}

/// The seed and bump under which the program signs a call with the identity
/// that it derives from them.
#[derive(Debug, Clone, PartialEq, Eq)]
pub struct SignerSeeds {
    pub seed: Vec<u8>,
    pub bump: u8,
}

/// A call that the host is to make to another program on the treasury's
/// behalf.
#[derive(Debug, Clone, PartialEq, Eq)]
pub struct Invocation {
    /// The instruction to execute
    pub instruction: Instruction,
    /// The accounts to hand to the call, by their positions in the request
    pub accounts: Vec<usize>,
    /// The program's own signature on the call, where it takes one
    pub signer: Option<SignerSeeds>,
}

#[verifier::ext_equal]
pub struct InvocationView {
    pub instruction: InstructionView,
    pub accounts: Seq<usize>,
    pub signer: Option<(Seq<u8>, u8)>,
}

impl View for Invocation {
    type V = InvocationView;

    open spec fn view(&self) -> InvocationView {
        InvocationView {
            instruction: self.instruction@,
            accounts: self.accounts@,
            signer: match self.signer {
                Some(s) => Some((s.seed@, s.bump)),
                None => None,
            },
        }
    }
}

/// What a successful operation asks of the host: the calls to make, in
/// order, and then the record to write back. The host applies all of it or
/// none.
#[derive(Debug, Clone, PartialEq, Eq)]
pub struct Outcome {
    /// Calls to other programs
    pub invocations: Vec<Invocation>,
    /// The record to store once every call has succeeded, with the position
    /// in the request of the account that holds it
    pub store: Option<(usize, TreasuryState)>,
}

#[verifier::ext_equal]
pub struct OutcomeView {
    pub invocations: Seq<InvocationView>,
    pub store: Option<(usize, TreasuryView)>,
}

impl View for Outcome {
    type V = OutcomeView;

    open spec fn view(&self) -> OutcomeView {
        OutcomeView {
            invocations: self.invocations@.map_values(|i: Invocation| i@),
            store: match self.store {
                Some((account, state)) => Some((account, state@)),
                None => None,
            },
        }
    }
}

} // verus!
