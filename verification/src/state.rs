//! The treasury record, its guards and its transitions.

use vstd::prelude::*;

use crate::error::EceTokenError;
use crate::pubkey::Pubkey;

verus! {

/// Basis points in a whole: a ratio of 10000 is 100%.
pub const BASIS_POINTS: u16 = 10000;

/// Length of the window over which the daily volume is counted.
pub const SECONDS_PER_DAY: i64 = 86400;

/// Payout window of a new treasury: seven days.
pub const DEFAULT_PAYOUT_WINDOW: i64 = 604800;

/// The most signers that a treasury can have: its stored record has room
/// for no more.
pub const MAX_SIGNERS: usize = 5;

/// Cap on one transaction in a new treasury.
pub const DEFAULT_MAX_TRANSACTION_AMOUNT: u64 = 10_000_000_000;

/// Cap on one day's volume in a new treasury.
pub const DEFAULT_DAILY_VOLUME_LIMIT: u64 = 100_000_000_000;

/// Treasury state account that manages ECE token operations.
#[derive(Debug, Clone, PartialEq, Eq)]
pub struct TreasuryState {
    /// Whether the treasury is initialized
    pub is_initialized: bool,
    /// Multi-signature signers
    pub signers: Vec<Pubkey>,
    /// Number of signatures required for operations
    pub threshold: u8,
    /// ECE token mint address
    pub ece_mint: Pubkey,
    /// USDC token mint address (backing asset)
    pub usdc_mint: Pubkey,
    /// Treasury USDC reserve account
    pub usdc_reserve: Pubkey,
    /// Total ECE tokens in circulation
    pub ece_circulation: u64,
    /// Total USDC in reserves
    pub usdc_reserves: u64,
    /// Emergency pause status
    pub is_paused: bool,
    /// Emergency authority (can pause/unpause)
    pub emergency_authority: Pubkey,
    /// Last weekly payout timestamp
    pub last_payout_timestamp: i64,
    /// Weekly payout window (in seconds, default 7 days)
    pub payout_window: i64,
    /// Minimum reserve ratio (basis points, 10000 = 100%)
    pub min_reserve_ratio: u16,
    /// Company revenue account for weekly payouts
    pub company_revenue_account: Pubkey,
    /// Company USDC account for payouts
    pub company_usdc_account: Pubkey,
    /// Total revenue processed through weekly payouts
    pub total_revenue_processed: u64,
    /// Number of payouts processed
    pub payout_count: u64,
    /// Compliance officer authority
    pub compliance_authority: Pubkey,
    /// Maximum single transaction amount (for compliance)
    pub max_transaction_amount: u64,
    /// Daily transaction volume limit
    pub daily_volume_limit: u64,
    /// Current daily volume (resets daily)
    pub current_daily_volume: u64,
    /// Last volume reset timestamp
    pub last_volume_reset: i64,
}

/// The treasury record as a value: the signers as a sequence, every other
/// field as it is stored.
pub struct TreasuryView {
    pub is_initialized: bool,
    pub signers: Seq<Pubkey>,
    pub threshold: u8,
    pub ece_mint: Pubkey,
    pub usdc_mint: Pubkey,
    pub usdc_reserve: Pubkey,
    pub ece_circulation: u64,
    pub usdc_reserves: u64,
    pub is_paused: bool,
    pub emergency_authority: Pubkey,
    pub last_payout_timestamp: i64,
    pub payout_window: i64,
    pub min_reserve_ratio: u16,
    pub company_revenue_account: Pubkey,
    pub company_usdc_account: Pubkey,
    pub total_revenue_processed: u64,
    pub payout_count: u64,
    pub compliance_authority: Pubkey,
    pub max_transaction_amount: u64,
    pub daily_volume_limit: u64,
    pub current_daily_volume: u64,
    pub last_volume_reset: i64,
}

impl View for TreasuryState {
    type V = TreasuryView;

    open spec fn view(&self) -> TreasuryView {
        TreasuryView {
            is_initialized: self.is_initialized,
            signers: self.signers@,
            threshold: self.threshold,
            ece_mint: self.ece_mint,
            usdc_mint: self.usdc_mint,
            usdc_reserve: self.usdc_reserve,
            ece_circulation: self.ece_circulation,
            usdc_reserves: self.usdc_reserves,
            is_paused: self.is_paused,
            emergency_authority: self.emergency_authority,
            last_payout_timestamp: self.last_payout_timestamp,
            payout_window: self.payout_window,
            min_reserve_ratio: self.min_reserve_ratio,
            company_revenue_account: self.company_revenue_account,
            company_usdc_account: self.company_usdc_account,
            total_revenue_processed: self.total_revenue_processed,
            payout_count: self.payout_count,
            compliance_authority: self.compliance_authority,
            max_transaction_amount: self.max_transaction_amount,
            daily_volume_limit: self.daily_volume_limit,
            current_daily_volume: self.current_daily_volume,
            last_volume_reset: self.last_volume_reset,
        }
    }
}

/// Reserves as a share of circulation, in basis points and capped at the
/// whole; the whole where nothing circulates.
pub open spec fn ratio_in_basis_points(reserves: int, circulation: int) -> int {
    if circulation == 0 {
        10000
    } else if reserves * 10000 / circulation >= 10000 {
        10000
    } else {
        reserves * 10000 / circulation
    }
}

/// The share of `revenue_amount` that a payout of `payout_percentage` percent
/// releases, rounded down.
pub open spec fn payout_amount(revenue_amount: u64, payout_percentage: u8) -> int {
    revenue_amount * payout_percentage / 100
}

/// How many of `provided`, counted with repetitions, are among `signers`.
pub open spec fn valid_signer_count(signers: Seq<Pubkey>, provided: Seq<Pubkey>) -> nat
    decreases provided.len(),
{
    if provided.len() == 0 {
        0
    } else {
        valid_signer_count(signers, provided.drop_last()) + if signers.contains(provided.last()) {
            1nat
        } else {
            0nat
        }
    }
}

/// Whether a signer set and a threshold go together: at least one signature
/// is asked for, and no more than there are signers.
pub open spec fn threshold_is_valid(signer_count: nat, threshold: u8) -> bool {
    1 <= threshold <= signer_count
}

/// Whether a treasury can have a signer set of `signer_count` keys with
/// `threshold`: there are no more than `MAX_SIGNERS` signers, and the
/// threshold goes with their number.
pub open spec fn signers_are_valid(signer_count: nat, threshold: u8) -> bool {
    signer_count <= MAX_SIGNERS && threshold_is_valid(signer_count, threshold)
}

impl TreasuryView {
    /// The invariant of a treasury's signer set: at most `MAX_SIGNERS`
    /// signers, and a threshold of at least one and of no more than there
    /// are signers.
    pub open spec fn wf(self) -> bool {
        signers_are_valid(self.signers.len(), self.threshold)
    }

    /// The record of a treasury that `authority` has just created.
    pub open spec fn created(signers: Seq<Pubkey>, threshold: u8, authority: Pubkey) -> TreasuryView {
        TreasuryView {
            is_initialized: true,
            signers,
            threshold,
            ece_mint: Pubkey::unset(),
            usdc_mint: Pubkey::unset(),
            usdc_reserve: Pubkey::unset(),
            ece_circulation: 0,
            usdc_reserves: 0,
            is_paused: false,
            emergency_authority: authority,
            last_payout_timestamp: 0,
            payout_window: DEFAULT_PAYOUT_WINDOW,
            min_reserve_ratio: BASIS_POINTS,
            company_revenue_account: Pubkey::unset(),
            company_usdc_account: Pubkey::unset(),
            total_revenue_processed: 0,
            payout_count: 0,
            compliance_authority: authority,
            max_transaction_amount: DEFAULT_MAX_TRANSACTION_AMOUNT,
            daily_volume_limit: DEFAULT_DAILY_VOLUME_LIMIT,
            current_daily_volume: 0,
            last_volume_reset: 0,
        }
    }

    pub open spec fn has_sufficient_reserves(self, ece_amount: u64) -> bool {
        self.usdc_reserves >= ece_amount
    }

    pub open spec fn reserve_ratio(self) -> int {
        ratio_in_basis_points(self.usdc_reserves as int, self.ece_circulation as int)
    }

    pub open spec fn is_reserve_ratio_healthy(self) -> bool {
        self.reserve_ratio() >= self.min_reserve_ratio
    }

    pub open spec fn is_payout_window_active(self, current_timestamp: i64) -> bool {
        current_timestamp - self.last_payout_timestamp >= self.payout_window
    }

    /// Whether a day or more has passed since the volume window began.
    pub open spec fn volume_window_elapsed(self, current_timestamp: i64) -> bool {
        current_timestamp - self.last_volume_reset >= SECONDS_PER_DAY
    }

    /// The day's volume once `amount` is counted at `current_timestamp`.
    pub open spec fn volume_with(self, amount: u64, current_timestamp: i64) -> int {
        if self.volume_window_elapsed(current_timestamp) {
            amount as int
        } else {
            self.current_daily_volume + amount
        }
    }

    pub open spec fn would_exceed_daily_limit(self, amount: u64, current_timestamp: i64) -> bool {
        self.volume_with(amount, current_timestamp) > self.daily_volume_limit
    }

    /// The record after `amount` has been counted into the day's volume.
    pub open spec fn with_daily_volume(self, amount: u64, current_timestamp: i64) -> TreasuryView {
        TreasuryView {
            current_daily_volume: self.volume_with(amount, current_timestamp) as u64,
            last_volume_reset: if self.volume_window_elapsed(current_timestamp) {
                current_timestamp
            } else {
                self.last_volume_reset
            },
            ..self
        }
    }

    pub open spec fn validate_signatures(self, provided_signers: Seq<Pubkey>) -> bool {
        provided_signers.len() >= self.threshold && valid_signer_count(
            self.signers,
            provided_signers,
        ) >= self.threshold
    }

    /// Why the treasury refuses to mint `amount` at `now`, if it does.
    pub open spec fn mint_rejection(self, amount: u64, now: i64) -> Option<EceTokenError> {
        if self.is_paused {
            Some(EceTokenError::EmergencyPauseActive)
        } else if amount > self.max_transaction_amount {
            Some(EceTokenError::ComplianceCheckFailed)
        } else if self.would_exceed_daily_limit(amount, now) {
            Some(EceTokenError::ComplianceCheckFailed)
        } else if self.ece_circulation + amount > u64::MAX || self.usdc_reserves + amount
            > u64::MAX {
            Some(EceTokenError::NumericalOverflow)
        } else {
            None
        }
    }

    /// The record after `amount` has been minted at `now`.
    pub open spec fn minted(self, amount: u64, now: i64) -> TreasuryView {
        TreasuryView {
            ece_circulation: (self.ece_circulation + amount) as u64,
            usdc_reserves: (self.usdc_reserves + amount) as u64,
            ..self.with_daily_volume(amount, now)
        }
    }

    /// Why the treasury refuses to burn `amount`, if it does.
    pub open spec fn burn_rejection(self, amount: u64) -> Option<EceTokenError> {
        if self.is_paused {
            Some(EceTokenError::EmergencyPauseActive)
        } else if !self.has_sufficient_reserves(amount) {
            Some(EceTokenError::UsdcReserveInsufficient)
        } else if amount > self.max_transaction_amount {
            Some(EceTokenError::ComplianceCheckFailed)
        } else if amount > self.ece_circulation {
            Some(EceTokenError::NumericalOverflow)
        } else {
            None
        }
    }

    /// The record after `amount` has been burned.
    pub open spec fn burned(self, amount: u64) -> TreasuryView {
        TreasuryView {
            ece_circulation: (self.ece_circulation - amount) as u64,
            usdc_reserves: (self.usdc_reserves - amount) as u64,
            ..self
        }
    }

    /// Why the treasury refuses the payout, if it does. The pause comes
    /// first, whatever else the request holds; then the percentage, the
    /// window, the reserves and the arithmetic.
    pub open spec fn payout_rejection(
        self,
        revenue_amount: u64,
        payout_percentage: u8,
        now: i64,
    ) -> Option<EceTokenError> {
        if self.is_paused {
            Some(EceTokenError::EmergencyPauseActive)
        } else if payout_percentage > 100 {
            Some(EceTokenError::InvalidPayoutPercentage)
        } else if !self.is_payout_window_active(now) {
            Some(EceTokenError::WeeklyPayoutWindowNotActive)
        } else if payout_amount(revenue_amount, payout_percentage) > self.usdc_reserves {
            Some(EceTokenError::UsdcReserveInsufficient)
        } else if payout_amount(revenue_amount, payout_percentage) > self.ece_circulation
            || self.total_revenue_processed + revenue_amount > u64::MAX || self.payout_count + 1
            > u64::MAX {
            Some(EceTokenError::NumericalOverflow)
        } else {
            None
        }
    }

    /// The record after the payout has been made at `now`.
    pub open spec fn paid_out(self, revenue_amount: u64, payout_percentage: u8, now: i64) -> TreasuryView {
        TreasuryView {
            ece_circulation: (self.ece_circulation - payout_amount(
                revenue_amount,
                payout_percentage,
            )) as u64,
            usdc_reserves: (self.usdc_reserves - payout_amount(revenue_amount, payout_percentage)) as u64,
            last_payout_timestamp: now,
            total_revenue_processed: (self.total_revenue_processed + revenue_amount) as u64,
            payout_count: (self.payout_count + 1) as u64,
            ..self
        }
    }

    /// Why the treasury refuses a deposit of `amount`, if it does.
    pub open spec fn deposit_rejection(self, amount: u64) -> Option<EceTokenError> {
        if self.is_paused {
            Some(EceTokenError::EmergencyPauseActive)
        } else if self.usdc_reserves + amount > u64::MAX {
            Some(EceTokenError::NumericalOverflow)
        } else {
            None
        }
    }

    /// The record after `amount` has been deposited.
    pub open spec fn deposited(self, amount: u64) -> TreasuryView {
        TreasuryView { usdc_reserves: (self.usdc_reserves + amount) as u64, ..self }
    }

    /// Whether taking `amount` out of the reserves would leave them, as a
    /// share of a non-zero circulation, under the minimum ratio.
    pub open spec fn withdrawal_breaks_ratio(self, amount: u64) -> bool {
        self.ece_circulation > 0 && (self.usdc_reserves - amount) * 10000 / (
        self.ece_circulation as int) < self.min_reserve_ratio
    }

    /// Why the treasury refuses a withdrawal of `amount`, if it does.
    pub open spec fn withdrawal_rejection(self, amount: u64) -> Option<EceTokenError> {
        if self.is_paused {
            Some(EceTokenError::EmergencyPauseActive)
        } else if self.usdc_reserves < amount {
            Some(EceTokenError::UsdcReserveInsufficient)
        } else if self.withdrawal_breaks_ratio(amount) {
            Some(EceTokenError::ReserveRatioBelowMinimum)
        } else {
            None
        }
    }

    /// The record after `amount` has been withdrawn.
    pub open spec fn withdrawn(self, amount: u64) -> TreasuryView {
        TreasuryView { usdc_reserves: (self.usdc_reserves - amount) as u64, ..self }
    }

    /// Why the treasury refuses to pause at `caller`'s request, if it does.
    pub open spec fn pause_rejection(self, caller: Pubkey) -> Option<EceTokenError> {
        if caller != self.emergency_authority {
            Some(EceTokenError::UnauthorizedSigner)
        } else if self.is_paused {
            Some(EceTokenError::EmergencyPauseActive)
        } else {
            None
        }
    }

    /// Why the treasury refuses to resume at `caller`'s request, if it does.
    pub open spec fn unpause_rejection(self, caller: Pubkey) -> Option<EceTokenError> {
        if caller != self.emergency_authority {
            Some(EceTokenError::UnauthorizedSigner)
        } else if !self.is_paused {
            Some(EceTokenError::NotPaused)
        } else {
            None
        }
    }

    /// The record with the pause flag set to `paused`.
    pub open spec fn with_paused(self, paused: bool) -> TreasuryView {
        TreasuryView { is_paused: paused, ..self }
    }

    /// Why the treasury refuses to change its signers at `caller`'s request,
    /// if it does. More than `MAX_SIGNERS` new signers are refused as an
    /// invalid signature threshold, as a threshold that does not go with
    /// their number is.
    pub open spec fn update_rejection(
        self,
        caller: Pubkey,
        new_signers: Seq<Pubkey>,
        new_threshold: u8,
    ) -> Option<EceTokenError> {
        if !self.signers.contains(caller) {
            Some(EceTokenError::UnauthorizedSigner)
        } else if !signers_are_valid(new_signers.len(), new_threshold) {
            Some(EceTokenError::InvalidSignatureThreshold)
        } else {
            None
        }
    }

    /// The record with its signers and threshold replaced.
    pub open spec fn updated(self, new_signers: Seq<Pubkey>, new_threshold: u8) -> TreasuryView {
        TreasuryView { signers: new_signers, threshold: new_threshold, ..self }
    }
}

/// Whether `key` is one of `keys`.
pub fn contains_key(keys: &Vec<Pubkey>, key: &Pubkey) -> (r: bool)
    ensures
        r == keys@.contains(*key),
{
    let mut i: usize = 0;
    while i < keys.len()
        invariant
            i <= keys.len(),
            forall|j: int| 0 <= j < i ==> keys@[j] != *key,
        decreases keys.len() - i,
    {
        if keys[i] == *key {
            return true;
        }
        i += 1;
    }
    false
}

/// A copy of `keys`.
pub fn copy_keys(keys: &Vec<Pubkey>) -> (r: Vec<Pubkey>)
    ensures
        r@ == keys@,
{
    let mut r: Vec<Pubkey> = Vec::new();
    let mut i: usize = 0;
    while i < keys.len()
        invariant
            i <= keys.len(),
            r@ == keys@.subrange(0, i as int),
        decreases keys.len() - i,
    {
        r.push(keys[i]);
        i += 1;
    }
    assert(keys@.subrange(0, keys@.len() as int) =~= keys@);
    r
}

/// Whether a treasury can have a signer set of `signer_count` keys with
/// `threshold`.
pub fn check_signers(signer_count: usize, threshold: u8) -> (r: bool)
    ensures
        r == signers_are_valid(signer_count as nat, threshold),
{
    signer_count <= MAX_SIGNERS && !(signer_count < threshold as usize || threshold == 0)
}

/// Splits `revenue_amount` into the amount that a payout of
/// `payout_percentage` percent releases, rounded down, and the amount that is
/// retained. A percentage over 100 is refused.
pub fn split_revenue(revenue_amount: u64, payout_percentage: u8) -> (r: Result<
    (u64, u64),
    EceTokenError,
>)
    ensures
        r is Ok <==> payout_percentage <= 100,
        r matches Ok((paid, retained)) ==> paid == payout_amount(revenue_amount, payout_percentage)
            && retained == revenue_amount - paid,
        r matches Err(e) ==> e == EceTokenError::InvalidPayoutPercentage,
{
    if payout_percentage > 100 {
        return Err(EceTokenError::InvalidPayoutPercentage);
    }
    assert(revenue_amount * payout_percentage <= revenue_amount * 100) by (nonlinear_arith)
        requires
            payout_percentage <= 100,
    ;
    let paid: u128 = revenue_amount as u128 * payout_percentage as u128 / 100;
    let paid: u64 = paid as u64;
    Ok((paid, revenue_amount - paid))
}

impl TreasuryState {
    pub const LEN: usize = 8 +  // discriminator
    1 +  // is_initialized
    4 + (32 * MAX_SIGNERS) +  // signers (max 5 signers)
    1 +  // threshold
    32 +  // ece_mint
    32 +  // usdc_mint
    32 +  // usdc_reserve
    8 +  // ece_circulation
    8 +  // usdc_reserves
    1 +  // is_paused
    32 +  // emergency_authority
    8 +  // last_payout_timestamp
    8 +  // payout_window
    2 +  // min_reserve_ratio
    32 +  // company_revenue_account
    32 +  // company_usdc_account
    8 +  // total_revenue_processed
    8 +  // payout_count
    32 +  // compliance_authority
    8 +  // max_transaction_amount
    8 +  // daily_volume_limit
    8 +  // current_daily_volume
    8;  // last_volume_reset

    /// The record of a new treasury, with `authority` as its emergency and
    /// compliance authority, no balances and the default limits. Refused, as
    /// an invalid signature threshold, where the threshold is zero or asks
    /// for more signers than there are, and where there are more than
    /// `MAX_SIGNERS` signers.
    pub fn new(signers: Vec<Pubkey>, threshold: u8, authority: Pubkey) -> (r: Result<
        TreasuryState,
        EceTokenError,
    >)
        ensures
            r is Ok <==> threshold_is_valid(signers@.len(), threshold) && signers@.len()
                <= MAX_SIGNERS,
            r matches Ok(t) ==> t@ == TreasuryView::created(signers@, threshold, authority) && t@.wf(),
            r matches Err(e) ==> e == EceTokenError::InvalidSignatureThreshold,
    {
        if !check_signers(signers.len(), threshold) {
            return Err(EceTokenError::InvalidSignatureThreshold);
        }
        Ok(
            TreasuryState {
                is_initialized: true,
                signers,
                threshold,
                ece_mint: Pubkey::default(),
                usdc_mint: Pubkey::default(),
                usdc_reserve: Pubkey::default(),
                ece_circulation: 0,
                usdc_reserves: 0,
                is_paused: false,
                emergency_authority: authority,
                last_payout_timestamp: 0,
                payout_window: DEFAULT_PAYOUT_WINDOW,
                min_reserve_ratio: BASIS_POINTS,
                company_revenue_account: Pubkey::default(),
                company_usdc_account: Pubkey::default(),
                total_revenue_processed: 0,
                payout_count: 0,
                compliance_authority: authority,
                max_transaction_amount: DEFAULT_MAX_TRANSACTION_AMOUNT,
                daily_volume_limit: DEFAULT_DAILY_VOLUME_LIMIT,
                current_daily_volume: 0,
                last_volume_reset: 0,
            },
        )
    }

    /// A copy of the record.
    pub fn duplicate(&self) -> (r: TreasuryState)
        ensures
            r@ == self@,
    {
        TreasuryState {
            is_initialized: self.is_initialized,
            signers: copy_keys(&self.signers),
            threshold: self.threshold,
            ece_mint: self.ece_mint,
            usdc_mint: self.usdc_mint,
            usdc_reserve: self.usdc_reserve,
            ece_circulation: self.ece_circulation,
            usdc_reserves: self.usdc_reserves,
            is_paused: self.is_paused,
            emergency_authority: self.emergency_authority,
            last_payout_timestamp: self.last_payout_timestamp,
            payout_window: self.payout_window,
            min_reserve_ratio: self.min_reserve_ratio,
            company_revenue_account: self.company_revenue_account,
            company_usdc_account: self.company_usdc_account,
            total_revenue_processed: self.total_revenue_processed,
            payout_count: self.payout_count,
            compliance_authority: self.compliance_authority,
            max_transaction_amount: self.max_transaction_amount,
            daily_volume_limit: self.daily_volume_limit,
            current_daily_volume: self.current_daily_volume,
            last_volume_reset: self.last_volume_reset,
        }
    }

    /// Check if the treasury has sufficient reserves for a given ECE amount
    pub fn has_sufficient_reserves(&self, ece_amount: u64) -> (r: bool)
        ensures
            r == self@.has_sufficient_reserves(ece_amount),
    {
        self.usdc_reserves >= ece_amount
    }

    /// Calculate current reserve ratio in basis points
    pub fn reserve_ratio(&self) -> (r: u16)
        ensures
            r == self@.reserve_ratio(),
            r <= 10000,
    {
        if self.ece_circulation == 0 {
            return 10000;
        }
        let ratio: u128 = (self.usdc_reserves as u128 * 10000) / self.ece_circulation as u128;
        if ratio >= 10000 {
            10000
        } else {
            ratio as u16
        }
    }

    /// Check if reserve ratio is above minimum threshold
    pub fn is_reserve_ratio_healthy(&self) -> (r: bool)
        ensures
            r == self@.is_reserve_ratio_healthy(),
    {
        self.reserve_ratio() >= self.min_reserve_ratio
    }

    /// Check if weekly payout window is active
    pub fn is_payout_window_active(&self, current_timestamp: i64) -> (r: bool)
        ensures
            r == self@.is_payout_window_active(current_timestamp),
    {
        let time_since_last_payout: i128 = current_timestamp as i128
            - self.last_payout_timestamp as i128;
        time_since_last_payout >= self.payout_window as i128
    }

    /// Whether a day or more has passed since the volume window began.
    fn volume_window_elapsed(&self, current_timestamp: i64) -> (r: bool)
        ensures
            r == self@.volume_window_elapsed(current_timestamp),
    {
        let time_since_reset: i128 = current_timestamp as i128 - self.last_volume_reset as i128;
        time_since_reset >= SECONDS_PER_DAY as i128
    }

    /// Check if daily volume limit would be exceeded
    pub fn would_exceed_daily_limit(&self, amount: u64, current_timestamp: i64) -> (r: bool)
        ensures
            r == self@.would_exceed_daily_limit(amount, current_timestamp),
    {
        if self.volume_window_elapsed(current_timestamp) {
            // New day, volume resets
            return amount > self.daily_volume_limit;
        }
        match self.current_daily_volume.checked_add(amount) {
            Some(volume) => volume > self.daily_volume_limit,
            None => true,
        }
    }

    /// Update daily volume tracking. Where the day's volume would not fit
    /// its field, nothing is changed and the overflow is reported.
    pub fn update_daily_volume(&mut self, amount: u64, current_timestamp: i64) -> (r: Result<
        (),
        EceTokenError,
    >)
        ensures
            r is Ok <==> old(self)@.volume_with(amount, current_timestamp) <= u64::MAX,
            r is Ok ==> final(self)@ == old(self)@.with_daily_volume(amount, current_timestamp),
            r matches Err(e) ==> e == EceTokenError::NumericalOverflow && *final(self) == *old(self),
            old(self)@.wf() ==> final(self)@.wf(),
    {
        if self.volume_window_elapsed(current_timestamp) {
            // New day, reset volume
            self.current_daily_volume = amount;
            self.last_volume_reset = current_timestamp;
            Ok(())
        } else {
            // Same day, add to volume
            match self.current_daily_volume.checked_add(amount) {
                Some(volume) => {
                    self.current_daily_volume = volume;
                    Ok(())
                },
                None => Err(EceTokenError::NumericalOverflow),
            }
        }
    }

    /// Validate multi-signature requirements
    pub fn validate_signatures(&self, provided_signers: &[Pubkey]) -> (r: bool)
        ensures
            r == self@.validate_signatures(provided_signers@),
    {
        if provided_signers.len() < self.threshold as usize {
            return false;
        }
        let mut count: usize = 0;
        let mut i: usize = 0;
        while i < provided_signers.len()
            invariant
                i <= provided_signers.len(),
                count <= i,
                count == valid_signer_count(
                    self.signers@,
                    provided_signers@.subrange(0, i as int),
                ),
            decreases provided_signers.len() - i,
        {
            proof {
                let next = provided_signers@.subrange(0, i + 1);
                assert(next.drop_last() =~= provided_signers@.subrange(0, i as int));
                assert(next.last() == provided_signers@[i as int]);
            }
            if contains_key(&self.signers, &provided_signers[i]) {
                count += 1;
            }
            i += 1;
        }
        assert(provided_signers@.subrange(0, i as int) =~= provided_signers@);
        count >= self.threshold as usize
    }

    /// Mints `amount` against a deposit of the same amount at `now`:
    /// circulation and reserves grow by it. A mint is held to the cap on one
    /// transaction and to the day's limit, and is counted into the day's
    /// volume. A refused mint leaves the record as it was.
    pub fn apply_mint(&mut self, amount: u64, now: i64) -> (r: Result<(), EceTokenError>)
        ensures
            match r {
                Ok(()) => old(self)@.mint_rejection(amount, now) is None && final(self)@ == old(self)@.minted(amount, now),
                Err(e) => old(self)@.mint_rejection(amount, now) == Some(e) && *final(self)
                    == *old(self),
            },
            old(self).is_paused ==> r == Err::<(), EceTokenError>(
                EceTokenError::EmergencyPauseActive,
            ),
            old(self)@.wf() ==> final(self)@.wf(),
    {
        if self.is_paused {
            return Err(EceTokenError::EmergencyPauseActive);
        }
        if amount > self.max_transaction_amount {
            return Err(EceTokenError::ComplianceCheckFailed);
        }
        if self.would_exceed_daily_limit(amount, now) {
            return Err(EceTokenError::ComplianceCheckFailed);
        }
        let circulation = match self.ece_circulation.checked_add(amount) {
            Some(sum) => sum,
            None => { return Err(EceTokenError::NumericalOverflow); },
        };
        let reserves = match self.usdc_reserves.checked_add(amount) {
            Some(sum) => sum,
            None => { return Err(EceTokenError::NumericalOverflow); },
        };
        match self.update_daily_volume(amount, now) {
            Ok(()) => {},
            Err(e) => { return Err(e); },
        }
        self.ece_circulation = circulation;
        self.usdc_reserves = reserves;
        Ok(())
    }

    /// Burns `amount` and releases the same amount from the reserves. A
    /// burn is held to the cap on one transaction, but is not counted into
    /// the day's volume and not held to the day's limit: only mints are. A
    /// refused burn leaves the record as it was.
    pub fn apply_burn(&mut self, amount: u64) -> (r: Result<(), EceTokenError>)
        ensures
            match r {
                Ok(()) => old(self)@.burn_rejection(amount) is None && final(self)@ == old(self)@.burned(amount),
                Err(e) => old(self)@.burn_rejection(amount) == Some(e) && *final(self) == *old(self),
            },
            old(self).is_paused ==> r == Err::<(), EceTokenError>(
                EceTokenError::EmergencyPauseActive,
            ),
            old(self)@.wf() ==> final(self)@.wf(),
    {
        if self.is_paused {
            return Err(EceTokenError::EmergencyPauseActive);
        }
        if !self.has_sufficient_reserves(amount) {
            return Err(EceTokenError::UsdcReserveInsufficient);
        }
        if amount > self.max_transaction_amount {
            return Err(EceTokenError::ComplianceCheckFailed);
        }
        if amount > self.ece_circulation {
            return Err(EceTokenError::NumericalOverflow);
        }
        self.ece_circulation = self.ece_circulation - amount;
        self.usdc_reserves = self.usdc_reserves - amount;
        Ok(())
    }

    /// Pays out `payout_percentage` percent of `revenue_amount` at `now`:
    /// circulation and reserves shrink by the amount paid, the payout is
    /// dated and counted. Returns the amount paid. A paused treasury refuses
    /// before the percentage is looked at. A payout is held neither
    /// to the cap on one transaction nor to the day's limit, and is not
    /// counted into the day's volume: only mints are. A refused payout
    /// leaves the record as it was.
    pub fn apply_payout(&mut self, revenue_amount: u64, payout_percentage: u8, now: i64) -> (r:
        Result<u64, EceTokenError>)
        ensures
            match r {
                Ok(paid) => old(self)@.payout_rejection(revenue_amount, payout_percentage, now)
                    is None && paid == payout_amount(revenue_amount, payout_percentage) && final(self)@ == old(self)@.paid_out(revenue_amount, payout_percentage, now),
                Err(e) => old(self)@.payout_rejection(revenue_amount, payout_percentage, now)
                    == Some(e) && *final(self) == *old(self),
            },
            r is Ok ==> old(self)@.is_payout_window_active(now) && final(self).last_payout_timestamp == now && final(self).payout_count == old(self).payout_count
                + 1,
            old(self).is_paused ==> r == Err::<u64, EceTokenError>(
                EceTokenError::EmergencyPauseActive,
            ),
            old(self)@.wf() ==> final(self)@.wf(),
    {
        if self.is_paused {
            return Err(EceTokenError::EmergencyPauseActive);
        }
        let paid = match split_revenue(revenue_amount, payout_percentage) {
            Ok((paid, _)) => paid,
            Err(e) => { return Err(e); },
        };
        if !self.is_payout_window_active(now) {
            return Err(EceTokenError::WeeklyPayoutWindowNotActive);
        }
        if !self.has_sufficient_reserves(paid) {
            return Err(EceTokenError::UsdcReserveInsufficient);
        }
        if paid > self.ece_circulation {
            return Err(EceTokenError::NumericalOverflow);
        }
        let revenue = match self.total_revenue_processed.checked_add(revenue_amount) {
            Some(sum) => sum,
            None => { return Err(EceTokenError::NumericalOverflow); },
        };
        let count = match self.payout_count.checked_add(1) {
            Some(sum) => sum,
            None => { return Err(EceTokenError::NumericalOverflow); },
        };
        self.ece_circulation = self.ece_circulation - paid;
        self.usdc_reserves = self.usdc_reserves - paid;
        self.last_payout_timestamp = now;
        self.total_revenue_processed = revenue;
        self.payout_count = count;
        Ok(paid)
    }

    /// Adds `amount` to the reserves. A deposit is held neither to the cap
    /// on one transaction nor to the day's limit, and is not counted into
    /// the day's volume. A refused deposit leaves the record as it was.
    pub fn apply_deposit(&mut self, amount: u64) -> (r: Result<(), EceTokenError>)
        ensures
            match r {
                Ok(()) => old(self)@.deposit_rejection(amount) is None && final(self)@ == old(self)@.deposited(amount),
                Err(e) => old(self)@.deposit_rejection(amount) == Some(e) && *final(self) == *old(self),
            },
            old(self).is_paused ==> r == Err::<(), EceTokenError>(
                EceTokenError::EmergencyPauseActive,
            ),
            old(self)@.wf() ==> final(self)@.wf(),
    {
        if self.is_paused {
            return Err(EceTokenError::EmergencyPauseActive);
        }
        match self.usdc_reserves.checked_add(amount) {
            Some(sum) => {
                self.usdc_reserves = sum;
                Ok(())
            },
            None => Err(EceTokenError::NumericalOverflow),
        }
    }

    /// Takes `amount` out of the reserves, unless that would leave them
    /// under the minimum ratio to a non-zero circulation. A withdrawal is
    /// held neither to the cap on one transaction nor to the day's limit,
    /// and is not counted into the day's volume. A refused withdrawal leaves
    /// the record as it was.
    pub fn apply_withdrawal(&mut self, amount: u64) -> (r: Result<(), EceTokenError>)
        ensures
            match r {
                Ok(()) => old(self)@.withdrawal_rejection(amount) is None && final(self)@ == old(self)@.withdrawn(amount),
                Err(e) => old(self)@.withdrawal_rejection(amount) == Some(e) && *final(self)
                    == *old(self),
            },
            old(self)@.withdrawal_breaks_ratio(amount) ==> r is Err,
            old(self).is_paused ==> r == Err::<(), EceTokenError>(
                EceTokenError::EmergencyPauseActive,
            ),
            old(self)@.wf() ==> final(self)@.wf(),
    {
        if self.is_paused {
            return Err(EceTokenError::EmergencyPauseActive);
        }
        if self.usdc_reserves < amount {
            return Err(EceTokenError::UsdcReserveInsufficient);
        }
        // Check if withdrawal would compromise reserve ratio
        let new_reserves = self.usdc_reserves - amount;
        if self.ece_circulation > 0 {
            let new_ratio: u128 = (new_reserves as u128 * 10000) / self.ece_circulation as u128;
            if new_ratio < self.min_reserve_ratio as u128 {
                return Err(EceTokenError::ReserveRatioBelowMinimum);
            }
        }
        self.usdc_reserves = new_reserves;
        Ok(())
    }

    /// Halts the treasury at the request of `caller`, who must be the
    /// emergency authority; a treasury that is halted already refuses. A
    /// refused request leaves the record as it was.
    pub fn apply_pause(&mut self, caller: &Pubkey) -> (r: Result<(), EceTokenError>)
        ensures
            match r {
                Ok(()) => old(self)@.pause_rejection(*caller) is None && final(self)@ == old(self)@.with_paused(true),
                Err(e) => old(self)@.pause_rejection(*caller) == Some(e) && *final(self) == *old(self),
            },
            old(self)@.wf() ==> final(self)@.wf(),
    {
        if *caller != self.emergency_authority {
            return Err(EceTokenError::UnauthorizedSigner);
        }
        if self.is_paused {
            return Err(EceTokenError::EmergencyPauseActive);
        }
        self.is_paused = true;
        Ok(())
    }

    /// Resumes the treasury at the request of `caller`, who must be the
    /// emergency authority; a treasury that is not halted refuses. A refused
    /// request leaves the record as it was.
    pub fn apply_unpause(&mut self, caller: &Pubkey) -> (r: Result<(), EceTokenError>)
        ensures
            match r {
                Ok(()) => old(self)@.unpause_rejection(*caller) is None && final(self)@ == old(self)@.with_paused(false),
                Err(e) => old(self)@.unpause_rejection(*caller) == Some(e) && *final(self)
                    == *old(self),
            },
            old(self)@.wf() ==> final(self)@.wf(),
    {
        if *caller != self.emergency_authority {
            return Err(EceTokenError::UnauthorizedSigner);
        }
        if !self.is_paused {
            return Err(EceTokenError::NotPaused);
        }
        self.is_paused = false;
        Ok(())
    }

    /// Replaces signers and threshold at the request of `caller`, who must
    /// be a signer already. There may be no more than `MAX_SIGNERS` new
    /// signers. A refused request leaves the record as it was.
    pub fn apply_update(&mut self, caller: &Pubkey, new_signers: Vec<Pubkey>, new_threshold: u8) -> (r:
        Result<(), EceTokenError>)
        ensures
            match r {
                Ok(()) => old(self)@.update_rejection(*caller, new_signers@, new_threshold)
                    is None && final(self)@ == old(self)@.updated(new_signers@, new_threshold),
                Err(e) => old(self)@.update_rejection(*caller, new_signers@, new_threshold)
                    == Some(e) && *final(self) == *old(self),
            },
            r is Ok ==> old(self)@.signers.contains(*caller) && final(self)@.wf(),
            old(self)@.wf() ==> final(self)@.wf(),
    {
        if !contains_key(&self.signers, caller) {
            return Err(EceTokenError::UnauthorizedSigner);
        }
        if !check_signers(new_signers.len(), new_threshold) {
            return Err(EceTokenError::InvalidSignatureThreshold);
        }
        self.signers = new_signers;
        self.threshold = new_threshold;
        Ok(())
    }
}

} // verus!
