//! What holds of the treasury in every state and under every request.

use vstd::prelude::*;

use crate::account::AccountInfo;
use crate::error::EceTokenError;
use crate::instruction::EceTokenInstructionView;
use crate::processor::{caller_rejection, custom, Processor};
use crate::pubkey::Pubkey;
use crate::state::{payout_amount, TreasuryView, MAX_SIGNERS};

verus! {

/// A request as the record meets it: who asks, when, and for what.
pub struct Call {
    pub caller: Pubkey,
    pub now: i64,
    pub instruction: EceTokenInstructionView,
}

/// Why the record `t` refuses `call`, if it does. The two requests that
/// create accounts read no record, and none refuses them.
pub open spec fn refusal(t: TreasuryView, call: Call) -> Option<EceTokenError> {
    match call.instruction {
        EceTokenInstructionView::InitializeToken { .. } => None,
        EceTokenInstructionView::InitializeTreasury { .. } => None,
        EceTokenInstructionView::MintTokens { amount } => t.mint_rejection(amount, call.now),
        EceTokenInstructionView::BurnTokens { amount } => t.burn_rejection(amount),
        EceTokenInstructionView::DepositUsdc { amount } => t.deposit_rejection(amount),
        EceTokenInstructionView::WithdrawUsdc { amount } => t.withdrawal_rejection(amount),
        EceTokenInstructionView::WeeklyPayout { revenue_amount, payout_percentage } => {
            t.payout_rejection(revenue_amount, payout_percentage, call.now)
        },
        EceTokenInstructionView::EmergencyPause => t.pause_rejection(call.caller),
        EceTokenInstructionView::EmergencyUnpause => t.unpause_rejection(call.caller),
        EceTokenInstructionView::UpdateTreasury { new_signers, new_threshold } => {
            t.update_rejection(call.caller, new_signers, new_threshold)
        },
    }
}

/// The record that `call` leaves behind: `t` itself where the call is
/// refused or reads no record, else what the request makes of `t`.
pub open spec fn after(t: TreasuryView, call: Call) -> TreasuryView {
    if refusal(t, call) is Some {
        t
    } else {
        match call.instruction {
            EceTokenInstructionView::InitializeToken { .. } => t,
            EceTokenInstructionView::InitializeTreasury { .. } => t,
            EceTokenInstructionView::MintTokens { amount } => t.minted(amount, call.now),
            EceTokenInstructionView::BurnTokens { amount } => t.burned(amount),
            EceTokenInstructionView::DepositUsdc { amount } => t.deposited(amount),
            EceTokenInstructionView::WithdrawUsdc { amount } => t.withdrawn(amount),
            EceTokenInstructionView::WeeklyPayout { revenue_amount, payout_percentage } => {
                t.paid_out(revenue_amount, payout_percentage, call.now)
            },
            EceTokenInstructionView::EmergencyPause => t.with_paused(true),
            EceTokenInstructionView::EmergencyUnpause => t.with_paused(false),
            EceTokenInstructionView::UpdateTreasury { new_signers, new_threshold } => {
                t.updated(new_signers, new_threshold)
            },
        }
    }
}

/// What `call` issues when it meets the record `t`: the amount of a mint
/// that goes through, less the amount of a burn or the amount paid by a
/// payout that goes through; nothing otherwise.
pub open spec fn issued(t: TreasuryView, call: Call) -> int {
    if refusal(t, call) is Some {
        0
    } else {
        match call.instruction {
            EceTokenInstructionView::MintTokens { amount } => amount as int,
            EceTokenInstructionView::BurnTokens { amount } => -(amount as int),
            EceTokenInstructionView::WeeklyPayout { revenue_amount, payout_percentage } => {
                -payout_amount(revenue_amount, payout_percentage)
            },
            _ => 0,
        }
    }
}

/// The record after `calls` have met it one after the other, starting
/// from `t`.
pub open spec fn replay(t: TreasuryView, calls: Seq<Call>) -> TreasuryView
    decreases calls.len(),
{
    if calls.len() == 0 {
        t
    } else {
        after(replay(t, calls.drop_last()), calls.last())
    }
}

/// What `calls` have issued in all, starting from `t`.
pub open spec fn net_issued(t: TreasuryView, calls: Seq<Call>) -> int
    decreases calls.len(),
{
    if calls.len() == 0 {
        0
    } else {
        net_issued(t, calls.drop_last()) + issued(replay(t, calls.drop_last()), calls.last())
    }
}

/// The request that `instruction` on `accounts` puts to the record: the
/// caller is the first account, and the time is the clock's where the
/// handler reads the clock.
pub open spec fn call_of(accounts: Seq<AccountInfo>, instruction: EceTokenInstructionView) -> Call {
    Call {
        caller: accounts[0].key,
        now: match instruction.clock_account() {
            Some(position) => accounts[position].clock().unwrap(),
            None => 0,
        },
        instruction,
    }
}

/// The reserve ratio lies between 0 and 10000 basis points, whatever the
/// record holds.
pub proof fn lemma_reserve_ratio_in_range(t: TreasuryView)
    ensures
        0 <= t.reserve_ratio() <= 10000,
{
    if t.ece_circulation != 0 {
        let reserves = t.usdc_reserves as int;
        let circulation = t.ece_circulation as int;
        assert(reserves * 10000 / circulation >= 0) by (nonlinear_arith)
            requires
                reserves >= 0,
                circulation > 0,
        ;
    }
}

/// A request that is not refused and reads a record finds one in the
/// account where its handler looks, finds it willing, and stores in the same
/// account what the request makes of it.
pub proof fn lemma_accepted_request_follows_record(
    program_id: Pubkey,
    accounts: Seq<AccountInfo>,
    instruction: EceTokenInstructionView,
    mint_bump: Option<u8>,
    treasury_bump: Option<u8>,
)
    requires
        Processor::rejection(accounts, instruction, mint_bump, treasury_bump) is None,
        instruction.treasury_account() is Some,
    ensures
        ({
            let position = instruction.treasury_account().unwrap();
            let call = call_of(accounts, instruction);
            &&& 0 <= position < accounts.len()
            &&& accounts[position].treasury() matches Some(t)
            &&& refusal(t, call) is None
            &&& Processor::outcome(
                program_id,
                accounts,
                instruction,
                mint_bump,
                treasury_bump,
            ).store == Some((position as usize, after(t, call)))
        }),
{
}

/// Circulation is conserved: after any run of requests it is what it was
/// at the start plus all that was minted, less all that was burned and all
/// that payouts took out, counting the requests that went through.
pub proof fn lemma_circulation_is_conserved(t: TreasuryView, calls: Seq<Call>)
    ensures
        replay(t, calls).ece_circulation == t.ece_circulation + net_issued(t, calls),
    decreases calls.len(),
{
    if calls.len() > 0 {
        lemma_circulation_is_conserved(t, calls.drop_last());
    }
}

/// Since its creation a treasury's circulation is the net of what was
/// minted, burned and paid out.
pub proof fn lemma_circulation_since_creation(
    signers: Seq<Pubkey>,
    threshold: u8,
    authority: Pubkey,
    calls: Seq<Call>,
)
    ensures
        replay(TreasuryView::created(signers, threshold, authority), calls).ece_circulation
            == net_issued(TreasuryView::created(signers, threshold, authority), calls),
{
    lemma_circulation_is_conserved(TreasuryView::created(signers, threshold, authority), calls);
}

/// A withdrawal that would leave the reserves under the minimum ratio to a
/// non-zero circulation is refused, whatever else the request holds.
pub proof fn lemma_withdrawal_under_minimum_is_refused(
    accounts: Seq<AccountInfo>,
    amount: u64,
    treasury_bump: Option<u8>,
)
    requires
        accounts.len() > 3,
        accounts[3].treasury() matches Some(t) && t.withdrawal_breaks_ratio(amount),
    ensures
        Processor::withdraw_usdc_rejection(accounts, amount, treasury_bump) is Some,
{
}

/// A paused record refuses every request that moves value as paused,
/// whatever else the request holds, and is left as it was.
pub proof fn lemma_paused_record_refuses_as_paused(t: TreasuryView, call: Call)
    requires
        call.instruction.moves_value(),
        t.is_paused,
    ensures
        refusal(t, call) == Some(EceTokenError::EmergencyPauseActive),
        after(t, call) == t,
{
}

/// While the record is paused, every request that moves value is refused,
/// whatever else it holds. Where the request reaches the record, that is
/// where it names enough accounts, its caller has signed and the clock that
/// its handler reads is there, the refusal is that the treasury is paused.
pub proof fn lemma_paused_treasury_moves_no_value(
    accounts: Seq<AccountInfo>,
    instruction: EceTokenInstructionView,
    mint_bump: Option<u8>,
    treasury_bump: Option<u8>,
)
    requires
        instruction.moves_value(),
        0 <= instruction.treasury_account().unwrap() < accounts.len(),
        accounts[instruction.treasury_account().unwrap()].treasury() matches Some(t) && t.is_paused,
    ensures
        Processor::rejection(accounts, instruction, mint_bump, treasury_bump) is Some,
        caller_rejection(accounts, instruction.accounts_needed()) is None && (
        instruction.clock_account() matches Some(position) ==> accounts[position].clock() is Some)
            ==> Processor::rejection(accounts, instruction, mint_bump, treasury_bump) == Some(
            custom(EceTokenError::EmergencyPauseActive),
        ),
{
}

/// Only the emergency authority changes the pause flag: a request that
/// goes through and stores a record with another flag than it found is a
/// pause or an unpause, signed by the record's emergency authority.
pub proof fn lemma_only_emergency_authority_pauses(
    program_id: Pubkey,
    accounts: Seq<AccountInfo>,
    instruction: EceTokenInstructionView,
    mint_bump: Option<u8>,
    treasury_bump: Option<u8>,
)
    requires
        Processor::rejection(accounts, instruction, mint_bump, treasury_bump) is None,
        instruction.treasury_account() is Some,
        Processor::outcome(
            program_id,
            accounts,
            instruction,
            mint_bump,
            treasury_bump,
        ).store.unwrap().1.is_paused != accounts[instruction.treasury_account().unwrap()].treasury().unwrap().is_paused,
    ensures
        instruction is EmergencyPause || instruction is EmergencyUnpause,
        accounts[0].is_signer,
        accounts[0].key == accounts[1].treasury().unwrap().emergency_authority,
{
}

/// A payout goes through only when the payout window has passed since the
/// last one; it then dates the record at the clock's time and counts one
/// payout more.
pub proof fn lemma_payout_waits_for_window(
    program_id: Pubkey,
    accounts: Seq<AccountInfo>,
    revenue_amount: u64,
    payout_percentage: u8,
    mint_bump: Option<u8>,
    treasury_bump: Option<u8>,
)
    requires
        Processor::weekly_payout_rejection(
            accounts,
            revenue_amount,
            payout_percentage,
            mint_bump,
            treasury_bump,
        ) is None,
    ensures
        ({
            let before = accounts[4].treasury().unwrap();
            let now = accounts[7].clock().unwrap();
            let stored = Processor::weekly_payout_outcome(
                program_id,
                accounts,
                revenue_amount,
                payout_percentage,
                mint_bump,
                treasury_bump,
            ).store.unwrap().1;
            &&& now - before.last_payout_timestamp >= before.payout_window
            &&& stored.last_payout_timestamp == now
            &&& stored.payout_count == before.payout_count + 1
        }),
{
}

/// A change of signers goes through only at the request of one who is a
/// signer already, and leaves at least one signature asked for, no more
/// than there are signers, and no more signers than a record holds.
pub proof fn lemma_update_keeps_signers_valid(
    accounts: Seq<AccountInfo>,
    new_signers: Seq<Pubkey>,
    new_threshold: u8,
)
    requires
        Processor::update_treasury_rejection(accounts, new_signers, new_threshold) is None,
    ensures
        accounts[1].treasury().unwrap().signers.contains(accounts[0].key),
        accounts[1].treasury().unwrap().updated(new_signers, new_threshold).wf(),
        1 <= new_threshold <= new_signers.len() <= MAX_SIGNERS,
{
}

/// No request breaks the signer set: a record that has no more signers
/// than a record holds, and asks for at least one signature and for no more
/// than it has signers, still does after any run of requests.
pub proof fn lemma_signers_stay_valid(t: TreasuryView, calls: Seq<Call>)
    requires
        t.wf(),
    ensures
        replay(t, calls).wf(),
        replay(t, calls).signers.len() <= MAX_SIGNERS,
        1 <= replay(t, calls).threshold <= replay(t, calls).signers.len(),
    decreases calls.len(),
{
    if calls.len() > 0 {
        lemma_signers_stay_valid(t, calls.drop_last());
    }
}

} // verus!
