//! Audit records: written once for the event they describe, never changed.

use vstd::prelude::*;

use crate::pubkey::Pubkey;

verus! {

/// Weekly payout record for tracking and compliance
#[derive(Debug, Clone, PartialEq, Eq)]
pub struct WeeklyPayoutRecord {
    /// Payout sequence number
    pub payout_id: u64,
    /// Timestamp of the payout
    pub timestamp: i64,
    /// Total ECE revenue amount processed
    pub revenue_amount: u64,
    /// Percentage of revenue converted to USDC
    pub payout_percentage: u8,
    /// Amount of ECE burned
    pub ece_burned: u64,
    /// Amount of USDC released to company
    pub usdc_released: u64,
    /// Transaction signature for audit trail
    pub transaction_signature: String,
    /// Compliance check status
    pub compliance_approved: bool,
    /// Authorized signers for this payout
    pub authorized_signers: Vec<Pubkey>,
}

impl WeeklyPayoutRecord {
    pub const LEN: usize = 8 +  // payout_id
    8 +  // timestamp
    8 +  // revenue_amount
    1 +  // payout_percentage
    8 +  // ece_burned
    8 +  // usdc_released
    4 + 88 +  // transaction_signature (max 88 chars)
    1 +  // compliance_approved
    4 + (32 * 5);  // authorized_signers (max 5)
}

/// Compliance record for large transactions
#[derive(Debug, Clone, PartialEq, Eq)]
pub struct ComplianceRecord {
    /// Transaction ID
    pub transaction_id: u64,
    /// User wallet address
    pub user_wallet: Pubkey,
    /// Transaction amount
    pub amount: u64,
    /// Transaction type
    pub transaction_type: TransactionType,
    /// Timestamp
    pub timestamp: i64,
    /// KYC verification status
    pub kyc_verified: bool,
    /// AML check status
    pub aml_cleared: bool,
    /// Compliance officer approval
    pub compliance_approved: bool,
    /// Risk score (0-100)
    pub risk_score: u8,
    /// Additional compliance notes
    pub notes: String,
}

#[derive(Debug, Clone, Copy, PartialEq, Eq, Structural)]
pub enum TransactionType {
    MintTokens,
    BurnTokens,
    DepositUsdc,
    WithdrawUsdc,
    WeeklyPayout,
}

impl ComplianceRecord {
    pub const LEN: usize = 8 +  // transaction_id
    32 +  // user_wallet
    8 +  // amount
    1 +  // transaction_type
    8 +  // timestamp
    1 +  // kyc_verified
    1 +  // aml_cleared
    1 +  // compliance_approved
    1 +  // risk_score
    4 + 256;  // notes (max 256 chars)
}

/// Reserve audit record for transparency
#[derive(Debug, Clone, PartialEq, Eq)]
pub struct ReserveAuditRecord {
    /// Audit sequence number
    pub audit_id: u64,
    /// Audit timestamp
    pub timestamp: i64,
    /// ECE circulation at audit time
    pub ece_circulation: u64,
    /// USDC reserves at audit time
    pub usdc_reserves: u64,
    /// Reserve ratio in basis points
    pub reserve_ratio: u16,
    /// Audit status
    pub audit_status: AuditStatus,
    /// Auditor address
    pub auditor: Pubkey,
    /// Audit notes
    pub notes: String,
}

#[derive(Debug, Clone, Copy, PartialEq, Eq, Structural)]
pub enum AuditStatus {
    Passed,
    Failed,
    UnderReview,
}

impl ReserveAuditRecord {
    pub const LEN: usize = 8 +  // audit_id
    8 +  // timestamp
    8 +  // ece_circulation
    8 +  // usdc_reserves
    2 +  // reserve_ratio
    1 +  // audit_status
    32 +  // auditor
    4 + 512;  // notes (max 512 chars)
}

} // verus!
