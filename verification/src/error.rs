//! Error kinds of the treasury.

use vstd::prelude::*;
use vstd::std_specs::convert::FromSpecImpl;

verus! {

/// Reasons for which the treasury refuses an operation.
#[derive(Clone, Copy, Debug, PartialEq, Eq, Structural)]
pub enum EceTokenError {
    InvalidInstruction,
    NotRentExempt,
    ExpectedAmountMismatch,
    AmountOverflow,
    InsufficientFunds,
    InvalidTokenMint,
    InvalidTokenAccount,
    InvalidTreasuryAccount,
    UnauthorizedSigner,
    InsufficientSigners,
    InvalidSignatureThreshold,
    TreasuryNotInitialized,
    TokenMintNotInitialized,
    ReserveRatioBelowMinimum,
    PayoutAlreadyProcessed,
    EmergencyPauseActive,
    NotPaused,
    InvalidUsdcAmount,
    UsdcReserveInsufficient,
    ConversionRateOutOfBounds,
    WeeklyPayoutWindowNotActive,
    InvalidPayoutPercentage,
    ComplianceCheckFailed,
    AccountAlreadyInitialized,
    NumericalOverflow,
}

impl EceTokenError {
    /// The number under which the host reports the error: the variant's
    /// position in the declaration, counted from zero.
    pub open spec fn spec_code(self) -> u32 {
        match self {
            EceTokenError::InvalidInstruction => 0,
            EceTokenError::NotRentExempt => 1,
            EceTokenError::ExpectedAmountMismatch => 2,
            EceTokenError::AmountOverflow => 3,
            EceTokenError::InsufficientFunds => 4,
            EceTokenError::InvalidTokenMint => 5,
            EceTokenError::InvalidTokenAccount => 6,
            EceTokenError::InvalidTreasuryAccount => 7,
            EceTokenError::UnauthorizedSigner => 8,
            EceTokenError::InsufficientSigners => 9,
            EceTokenError::InvalidSignatureThreshold => 10,
            EceTokenError::TreasuryNotInitialized => 11,
            EceTokenError::TokenMintNotInitialized => 12,
            EceTokenError::ReserveRatioBelowMinimum => 13,
            EceTokenError::PayoutAlreadyProcessed => 14,
            EceTokenError::EmergencyPauseActive => 15,
            EceTokenError::NotPaused => 16,
            EceTokenError::InvalidUsdcAmount => 17,
            EceTokenError::UsdcReserveInsufficient => 18,
            EceTokenError::ConversionRateOutOfBounds => 19,
            EceTokenError::WeeklyPayoutWindowNotActive => 20,
            EceTokenError::InvalidPayoutPercentage => 21,
            EceTokenError::ComplianceCheckFailed => 22,
            EceTokenError::AccountAlreadyInitialized => 23,
            EceTokenError::NumericalOverflow => 24,
        }
    }

    #[verifier::when_used_as_spec(spec_code)]
    pub fn code(self) -> (r: u32)
        ensures
            r == self.spec_code(),
    {
        match self {
            EceTokenError::InvalidInstruction => 0,
            EceTokenError::NotRentExempt => 1,
            EceTokenError::ExpectedAmountMismatch => 2,
            EceTokenError::AmountOverflow => 3,
            EceTokenError::InsufficientFunds => 4,
            EceTokenError::InvalidTokenMint => 5,
            EceTokenError::InvalidTokenAccount => 6,
            EceTokenError::InvalidTreasuryAccount => 7,
            EceTokenError::UnauthorizedSigner => 8,
            EceTokenError::InsufficientSigners => 9,
            EceTokenError::InvalidSignatureThreshold => 10,
            EceTokenError::TreasuryNotInitialized => 11,
            EceTokenError::TokenMintNotInitialized => 12,
            EceTokenError::ReserveRatioBelowMinimum => 13,
            EceTokenError::PayoutAlreadyProcessed => 14,
            EceTokenError::EmergencyPauseActive => 15,
            EceTokenError::NotPaused => 16,
            EceTokenError::InvalidUsdcAmount => 17,
            EceTokenError::UsdcReserveInsufficient => 18,
            EceTokenError::ConversionRateOutOfBounds => 19,
            EceTokenError::WeeklyPayoutWindowNotActive => 20,
            EceTokenError::InvalidPayoutPercentage => 21,
            EceTokenError::ComplianceCheckFailed => 22,
            EceTokenError::AccountAlreadyInitialized => 23,
            EceTokenError::NumericalOverflow => 24,
        }
    }

    /// The text that describes the error.
    pub open spec fn spec_message(self) -> Seq<char> {
        match self {
            EceTokenError::InvalidInstruction => "Invalid instruction"@,
            EceTokenError::NotRentExempt => "Not rent exempt"@,
            EceTokenError::ExpectedAmountMismatch => "Expected amount mismatch"@,
            EceTokenError::AmountOverflow => "Amount overflow"@,
            EceTokenError::InsufficientFunds => "Insufficient funds"@,
            EceTokenError::InvalidTokenMint => "Invalid token mint"@,
            EceTokenError::InvalidTokenAccount => "Invalid token account"@,
            EceTokenError::InvalidTreasuryAccount => "Invalid treasury account"@,
            EceTokenError::UnauthorizedSigner => "Unauthorized signer"@,
            EceTokenError::InsufficientSigners => "Insufficient signers"@,
            EceTokenError::InvalidSignatureThreshold => "Invalid signature threshold"@,
            EceTokenError::TreasuryNotInitialized => "Treasury not initialized"@,
            EceTokenError::TokenMintNotInitialized => "Token mint not initialized"@,
            EceTokenError::ReserveRatioBelowMinimum => "Reserve ratio below minimum"@,
            EceTokenError::PayoutAlreadyProcessed => "Payout already processed this week"@,
            EceTokenError::EmergencyPauseActive => "Emergency pause active"@,
            EceTokenError::NotPaused => "Not paused"@,
            EceTokenError::InvalidUsdcAmount => "Invalid USDC amount"@,
            EceTokenError::UsdcReserveInsufficient => "USDC reserve insufficient"@,
            EceTokenError::ConversionRateOutOfBounds => "Conversion rate out of bounds"@,
            EceTokenError::WeeklyPayoutWindowNotActive => "Weekly payout window not active"@,
            EceTokenError::InvalidPayoutPercentage => "Invalid payout percentage"@,
            EceTokenError::ComplianceCheckFailed => "Compliance check failed"@,
            EceTokenError::AccountAlreadyInitialized => "Account already initialized"@,
            EceTokenError::NumericalOverflow => "Numerical overflow"@,
        }
    }

    pub fn message(self) -> (r: String)
        ensures
            r@ == self.spec_message(),
    {
        match self {
            EceTokenError::InvalidInstruction => "Invalid instruction".to_owned(),
            EceTokenError::NotRentExempt => "Not rent exempt".to_owned(),
            EceTokenError::ExpectedAmountMismatch => "Expected amount mismatch".to_owned(),
            EceTokenError::AmountOverflow => "Amount overflow".to_owned(),
            EceTokenError::InsufficientFunds => "Insufficient funds".to_owned(),
            EceTokenError::InvalidTokenMint => "Invalid token mint".to_owned(),
            EceTokenError::InvalidTokenAccount => "Invalid token account".to_owned(),
            EceTokenError::InvalidTreasuryAccount => "Invalid treasury account".to_owned(),
            EceTokenError::UnauthorizedSigner => "Unauthorized signer".to_owned(),
            EceTokenError::InsufficientSigners => "Insufficient signers".to_owned(),
            EceTokenError::InvalidSignatureThreshold => "Invalid signature threshold".to_owned(),
            EceTokenError::TreasuryNotInitialized => "Treasury not initialized".to_owned(),
            EceTokenError::TokenMintNotInitialized => "Token mint not initialized".to_owned(),
            EceTokenError::ReserveRatioBelowMinimum => "Reserve ratio below minimum".to_owned(),
            EceTokenError::PayoutAlreadyProcessed => "Payout already processed this week".to_owned(),
            EceTokenError::EmergencyPauseActive => "Emergency pause active".to_owned(),
            EceTokenError::NotPaused => "Not paused".to_owned(),
            EceTokenError::InvalidUsdcAmount => "Invalid USDC amount".to_owned(),
            EceTokenError::UsdcReserveInsufficient => "USDC reserve insufficient".to_owned(),
            EceTokenError::ConversionRateOutOfBounds => "Conversion rate out of bounds".to_owned(),
            EceTokenError::WeeklyPayoutWindowNotActive => "Weekly payout window not active".to_owned(),
            EceTokenError::InvalidPayoutPercentage => "Invalid payout percentage".to_owned(),
            EceTokenError::ComplianceCheckFailed => "Compliance check failed".to_owned(),
            EceTokenError::AccountAlreadyInitialized => "Account already initialized".to_owned(),
            EceTokenError::NumericalOverflow => "Numerical overflow".to_owned(),
        }
    }
}

/// Reasons for which an operation fails as the host sees them.
#[derive(Clone, Copy, Debug, PartialEq, Eq, Structural)]
pub enum ProgramError {
    /// An error of the treasury itself, by its number.
    Custom(u32),
    /// An account that should hold a sysvar does not.
    InvalidArgument,
    /// The request could not be decoded.
    InvalidInstructionData,
    /// An account that should be the token program is another.
    IncorrectProgramId,
    /// The caller did not sign.
    MissingRequiredSignature,
    /// The request names fewer accounts than the operation needs.
    NotEnoughAccountKeys,
    /// The program derives no address from the seed of its signing identity.
    InvalidSeeds,
    /// An account that should hold a treasury record does not.
    BorshIoError,
}

impl From<EceTokenError> for ProgramError {
    fn from(e: EceTokenError) -> (r: ProgramError) {
        ProgramError::Custom(e.code())
    }
}

impl FromSpecImpl<EceTokenError> for ProgramError {
    open spec fn obeys_from_spec() -> bool {
        true
    }

    open spec fn from_spec(e: EceTokenError) -> ProgramError {
        ProgramError::Custom(e.spec_code())
    }
}

} // verus!
