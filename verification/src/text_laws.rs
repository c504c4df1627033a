use crate::errors::VaultError;
use crate::events::Event;
use vstd::prelude::*;

verus! {

/// The message that stands under a code.
pub open spec fn message_under(code: u32) -> Seq<char> {
    VaultError::with_code(code)->0.spec_message()
}

/// The documented codes and what they say.
pub proof fn law_documented_messages()
    ensures
        message_under(1) == "Vault has not been initialized yet"@,
        message_under(2) == "`initialize` was called more than once"@,
        message_under(3) == "Caller's share balance is less than the requested withdrawal amount"@,
        message_under(4) == "Vault's token balance cannot cover the redemption"@,
        message_under(5) == "Input is zero, negative, or computed shares/tokens round to zero"@,
        message_under(6) == "Integer overflow during share/token arithmetic"@,
        message_under(7) == "Address is not in the governance signers list, or token is not whitelisted"@,
        message_under(8) == "`harvest` called when `total_shares == 0` (nobody has deposited yet)"@,
        message_under(9) == "Caller is not the stored admin"@,
        message_under(10) == "On-chain layout version does not match `CURRENT_LAYOUT_VERSION`"@,
        message_under(11) == "Mutating operation called while the vault is paused"@,
        message_under(12) == "Flash loan guard: actual token balance differs from `total_deposited`"@,
        message_under(13) == "Governance timelock has not elapsed"@,
        message_under(14) == "Proposal has not reached required signature threshold"@,
        message_under(15) == "Signer already voted on this proposal"@,
        message_under(16) == "Deposit would exceed the configured TVL cap"@,
        message_under(17) == "Yield rounds to zero per share - accumulate more before distributing"@,
        message_under(18) == "Rounding error exceeds 0.01% accuracy threshold"@,
        message_under(19) == "Harvest attempted before the cooldown period has elapsed"@,
        message_under(20) == "Withdrawal queued; call `claim_queued_withdrawal` after unbonding"@,
        message_under(21) == "Queue entry does not exist or was already claimed"@,
        message_under(22) == "Queue entry is still within the unbonding period"@,
        message_under(23) == "Withdrawal fee exceeds the 5% maximum"@,
        message_under(24) == "Token transfer amount assertion failed (fee-on-transfer guard)"@,
        message_under(25) == "Oracle returned a zero price"@,
        message_under(26) == "Oracle price exceeds sanity cap (possible manipulation)"@,
        message_under(27) == "Oracle price is older than the configured `max_age_secs`"@,
        message_under(28) == "Deposit attempted by an address not on the whitelist"@,
        message_under(29) == "Deposit amount is below the configured minimum"@,
        message_under(30) == "Reentrant call rejected: another call into the vault is in progress"@,
        message_under(31) == "Share price moved more than the configured limit; vault auto-paused"@,
{
}

/// The documented codes and the errors that they stand for.
pub proof fn law_documented_codes()
    ensures
        VaultError::NotInitialized.spec_code() == 1,
        VaultError::AlreadyInitialized.spec_code() == 2,
        VaultError::InsufficientShares.spec_code() == 3,
        VaultError::InsufficientUnderlying.spec_code() == 4,
        VaultError::ZeroAmount.spec_code() == 5,
        VaultError::MathOverflow.spec_code() == 6,
        VaultError::InvalidAddress.spec_code() == 7,
        VaultError::ZeroShares.spec_code() == 8,
        VaultError::UpgradeUnauthorized.spec_code() == 9,
        VaultError::StorageLayoutMismatch.spec_code() == 10,
        VaultError::VaultPaused.spec_code() == 11,
        VaultError::BalanceMismatch.spec_code() == 12,
        VaultError::TimelockNotExpired.spec_code() == 13,
        VaultError::NotApproved.spec_code() == 14,
        VaultError::AlreadyVoted.spec_code() == 15,
        VaultError::TvlCapExceeded.spec_code() == 16,
        VaultError::YieldTooSmall.spec_code() == 17,
        VaultError::DistributionAccuracyError.spec_code() == 18,
        VaultError::HarvestCooldown.spec_code() == 19,
        VaultError::WithdrawalQueued.spec_code() == 20,
        VaultError::QueueEntryNotFound.spec_code() == 21,
        VaultError::QueueUnbondingPending.spec_code() == 22,
        VaultError::InvalidWithdrawalFee.spec_code() == 23,
        VaultError::TransferFailed.spec_code() == 24,
        VaultError::OraclePriceZero.spec_code() == 25,
        VaultError::OraclePriceTooHigh.spec_code() == 26,
        VaultError::OraclePriceStale.spec_code() == 27,
        VaultError::NotWhitelisted.spec_code() == 28,
        VaultError::BelowMinDeposit.spec_code() == 29,
        VaultError::Reentrancy.spec_code() == 30,
        VaultError::CircuitBreakerTripped.spec_code() == 31,
{
}

/// The names under which events are published, whatever they carry.
pub proof fn law_documented_event_names(event: Event)
    ensures
        event is Deposit ==> event.spec_name() == "deposit"@,
        event is Withdraw ==> event.spec_name() == "withdraw"@,
        event is WithdrawQueued ==> event.spec_name() == "withdraw_queued"@,
        event is WithdrawalClaimed ==> event.spec_name() == "withdrawal_claimed"@,
        event is EmergencyWithdraw ==> event.spec_name() == "emergency_withdraw"@,
        event is Harvest ==> event.spec_name() == "harvest"@,
        event is HarvestToken ==> event.spec_name() == "harvest_token"@,
        event is YieldTokenRegistered ==> event.spec_name() == "yield_token_registered"@,
        event is YieldDistributed ==> event.spec_name() == "yield_distributed"@,
        event is YieldDistributedToken ==> event.spec_name() == "yield_distributed_token"@,
        event is YieldCollected ==> event.spec_name() == "yield_collected"@,
        event is Paused ==> event.spec_name() == "paused"@,
        event is Unpaused ==> event.spec_name() == "unpaused"@,
        event is FeesWithdrawn ==> event.spec_name() == "fees_withdrawn"@,
        event is Upgrade ==> event.spec_name() == "upgrade"@,
        event is BalanceMismatch ==> event.spec_name() == "suspicious"@,
        event is PriceMovement ==> event.spec_name() == "suspicious"@,
        event is QueueThresholdSet ==> event.spec_name() == "queue_threshold_set"@,
        event is UnbondingSet ==> event.spec_name() == "unbonding_set"@,
        event is WithdrawalFeeSet ==> event.spec_name() == "withdrawal_fee_set"@,
        event is WhitelistEnabled ==> event.spec_name() == "whitelist_enabled"@,
        event is WhitelistDisabled ==> event.spec_name() == "whitelist_disabled"@,
        event is WhitelistAdded ==> event.spec_name() == "whitelist_added"@,
        event is WhitelistRemoved ==> event.spec_name() == "whitelist_removed"@,
        event is MinDepositSet ==> event.spec_name() == "min_deposit_set"@,
        event is OperationProposed ==> event.spec_name() == "operation_proposed"@,
        event is OperationSigned ==> event.spec_name() == "operation_signed"@,
        event is OperationExecuted ==> event.spec_name() == "operation_executed"@,
        event is StorageBumped ==> event.spec_name() == "storage_bumped"@,
        event is BalanceMismatch ==> event.spec_reason() == Some("balance_mismatch"@),
        event is PriceMovement ==> event.spec_reason() == Some("price_movement"@),
        !(event is BalanceMismatch) && !(event is PriceMovement) ==> event.spec_reason() is None,
{
}

} // verus!
