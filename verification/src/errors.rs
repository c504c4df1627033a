use vstd::prelude::*;

verus! {

/// Everything that a vault operation can be refused with.
#[derive(Clone, Copy, Debug, PartialEq, Eq, Structural)]
pub enum VaultError {
    /// Vault has not been initialized yet.
    NotInitialized,
    /// `initialize` was called more than once.
    AlreadyInitialized,
    /// Caller's share balance is less than the requested withdrawal amount.
    InsufficientShares,
    /// Vault's token balance cannot cover the redemption.
    InsufficientUnderlying,
    /// Input is zero, negative, or computed shares/tokens round to zero.
    ZeroAmount,
    /// Integer overflow during share/token arithmetic.
    MathOverflow,
    /// Address is not in the governance signers list, or token is not whitelisted.
    InvalidAddress,
    /// `harvest` called when `total_shares == 0` (nobody has deposited yet).
    ZeroShares,
    /// Caller is not the stored admin.
    UpgradeUnauthorized,
    /// On-chain layout version does not match `CURRENT_LAYOUT_VERSION`.
    StorageLayoutMismatch,
    /// Mutating operation called while the vault is paused.
    VaultPaused,
    /// Flash loan guard: actual token balance differs from `total_deposited`.
    BalanceMismatch,
    /// Governance timelock has not elapsed.
    TimelockNotExpired,
    /// Proposal has not reached required signature threshold.
    NotApproved,
    /// Signer already voted on this proposal.
    AlreadyVoted,
    /// Deposit would exceed the configured TVL cap.
    TvlCapExceeded,
    /// Yield rounds to zero per share - accumulate more before distributing.
    YieldTooSmall,
    /// Rounding error exceeds 0.01% accuracy threshold.
    DistributionAccuracyError,
    /// Harvest attempted before the cooldown period has elapsed.
    HarvestCooldown,
    /// Withdrawal queued; call `claim_queued_withdrawal` after unbonding.
    WithdrawalQueued,
    /// Queue entry does not exist or was already claimed.
    QueueEntryNotFound,
    /// Queue entry is still within the unbonding period.
    QueueUnbondingPending,
    /// Withdrawal fee exceeds the 5% maximum.
    InvalidWithdrawalFee,
    /// Token transfer amount assertion failed (fee-on-transfer guard).
    TransferFailed,
    /// Oracle returned a zero price.
    OraclePriceZero,
    /// Oracle price exceeds sanity cap (possible manipulation).
    OraclePriceTooHigh,
    /// Oracle price is older than the configured `max_age_secs`.
    OraclePriceStale,
    /// Deposit attempted by an address not on the whitelist.
    NotWhitelisted,
    /// Deposit amount is below the configured minimum.
    BelowMinDeposit,
    /// Reentrant call rejected: another call into the vault is in progress.
    Reentrancy,
    /// Share price moved more than the configured limit; vault auto-paused.
    CircuitBreakerTripped,
    /// Oracle unavailable; `total_assets_usd` returned fallback value 0.
    OracleUnavailable,
    /// Emergency withdrawal is only available while the vault is paused.
    NotVaultPaused,
    /// Caller is not a multi-sig signer.
    NotASigner,
    /// Multi-sig operation does not exist.
    OperationNotFound,
    /// Signer already signed this operation.
    OperationAlreadySigned,
    /// Multi-sig operation was already executed.
    OperationAlreadyExecuted,
    /// Multi-sig operation is past its 72-hour lifetime.
    OperationExpired,
    /// Multi-sig operation has fewer signatures than the threshold.
    ThresholdNotMet,
    /// Threshold is zero or exceeds the number of signers.
    InvalidThreshold,
    /// Address has not authorised this call.
    NotAuthorized,
}

impl VaultError {
    /// The numeric code of each error. Codes up to 31 are documented and have
    /// messages that can be looked up; those above are not. A missing
    /// authorisation is not among the errors that the vault reports under a
    /// code; it has 0.
    pub open spec fn spec_code(self) -> u32 {
        match self {
            VaultError::NotInitialized => 1,
            VaultError::AlreadyInitialized => 2,
            VaultError::InsufficientShares => 3,
            VaultError::InsufficientUnderlying => 4,
            VaultError::ZeroAmount => 5,
            VaultError::MathOverflow => 6,
            VaultError::InvalidAddress => 7,
            VaultError::ZeroShares => 8,
            VaultError::UpgradeUnauthorized => 9,
            VaultError::StorageLayoutMismatch => 10,
            VaultError::VaultPaused => 11,
            VaultError::BalanceMismatch => 12,
            VaultError::TimelockNotExpired => 13,
            VaultError::NotApproved => 14,
            VaultError::AlreadyVoted => 15,
            VaultError::TvlCapExceeded => 16,
            VaultError::YieldTooSmall => 17,
            VaultError::DistributionAccuracyError => 18,
            VaultError::HarvestCooldown => 19,
            VaultError::WithdrawalQueued => 20,
            VaultError::QueueEntryNotFound => 21,
            VaultError::QueueUnbondingPending => 22,
            VaultError::InvalidWithdrawalFee => 23,
            VaultError::TransferFailed => 24,
            VaultError::OraclePriceZero => 25,
            VaultError::OraclePriceTooHigh => 26,
            VaultError::OraclePriceStale => 27,
            VaultError::NotWhitelisted => 28,
            VaultError::BelowMinDeposit => 29,
            VaultError::Reentrancy => 30,
            VaultError::CircuitBreakerTripped => 31,
            VaultError::OracleUnavailable => 32,
            VaultError::NotVaultPaused => 33,
            VaultError::NotASigner => 34,
            VaultError::OperationNotFound => 35,
            VaultError::OperationAlreadySigned => 36,
            VaultError::OperationAlreadyExecuted => 37,
            VaultError::OperationExpired => 38,
            VaultError::ThresholdNotMet => 39,
            VaultError::InvalidThreshold => 40,
            VaultError::NotAuthorized => 0,
        }
    }

    /// The numeric code under which an error is reported to callers; 0 for a
    /// missing authorisation, which the ledger reports by itself. Codes above
    /// 31 are not documented.
    #[verifier::when_used_as_spec(spec_code)]
    pub fn code(self) -> (code: u32)
        ensures
            code == self.spec_code(),
    {
        match self {
            VaultError::NotInitialized => 1,
            VaultError::AlreadyInitialized => 2,
            VaultError::InsufficientShares => 3,
            VaultError::InsufficientUnderlying => 4,
            VaultError::ZeroAmount => 5,
            VaultError::MathOverflow => 6,
            VaultError::InvalidAddress => 7,
            VaultError::ZeroShares => 8,
            VaultError::UpgradeUnauthorized => 9,
            VaultError::StorageLayoutMismatch => 10,
            VaultError::VaultPaused => 11,
            VaultError::BalanceMismatch => 12,
            VaultError::TimelockNotExpired => 13,
            VaultError::NotApproved => 14,
            VaultError::AlreadyVoted => 15,
            VaultError::TvlCapExceeded => 16,
            VaultError::YieldTooSmall => 17,
            VaultError::DistributionAccuracyError => 18,
            VaultError::HarvestCooldown => 19,
            VaultError::WithdrawalQueued => 20,
            VaultError::QueueEntryNotFound => 21,
            VaultError::QueueUnbondingPending => 22,
            VaultError::InvalidWithdrawalFee => 23,
            VaultError::TransferFailed => 24,
            VaultError::OraclePriceZero => 25,
            VaultError::OraclePriceTooHigh => 26,
            VaultError::OraclePriceStale => 27,
            VaultError::NotWhitelisted => 28,
            VaultError::BelowMinDeposit => 29,
            VaultError::Reentrancy => 30,
            VaultError::CircuitBreakerTripped => 31,
            VaultError::OracleUnavailable => 32,
            VaultError::NotVaultPaused => 33,
            VaultError::NotASigner => 34,
            VaultError::OperationNotFound => 35,
            VaultError::OperationAlreadySigned => 36,
            VaultError::OperationAlreadyExecuted => 37,
            VaultError::OperationExpired => 38,
            VaultError::ThresholdNotMet => 39,
            VaultError::InvalidThreshold => 40,
            VaultError::NotAuthorized => 0,
        }
    }

    /// The English sentence that describes each error.
    pub open spec fn spec_message(self) -> Seq<char> {
        match self {
            VaultError::NotInitialized => "Vault has not been initialized yet"@,
            VaultError::AlreadyInitialized => "`initialize` was called more than once"@,
            VaultError::InsufficientShares => "Caller's share balance is less than the requested withdrawal amount"@,
            VaultError::InsufficientUnderlying => "Vault's token balance cannot cover the redemption"@,
            VaultError::ZeroAmount => "Input is zero, negative, or computed shares/tokens round to zero"@,
            VaultError::MathOverflow => "Integer overflow during share/token arithmetic"@,
            VaultError::InvalidAddress => "Address is not in the governance signers list, or token is not whitelisted"@,
            VaultError::ZeroShares => "`harvest` called when `total_shares == 0` (nobody has deposited yet)"@,
            VaultError::UpgradeUnauthorized => "Caller is not the stored admin"@,
            VaultError::StorageLayoutMismatch => "On-chain layout version does not match `CURRENT_LAYOUT_VERSION`"@,
            VaultError::VaultPaused => "Mutating operation called while the vault is paused"@,
            VaultError::BalanceMismatch => "Flash loan guard: actual token balance differs from `total_deposited`"@,
            VaultError::TimelockNotExpired => "Governance timelock has not elapsed"@,
            VaultError::NotApproved => "Proposal has not reached required signature threshold"@,
            VaultError::AlreadyVoted => "Signer already voted on this proposal"@,
            VaultError::TvlCapExceeded => "Deposit would exceed the configured TVL cap"@,
            VaultError::YieldTooSmall => "Yield rounds to zero per share - accumulate more before distributing"@,
            VaultError::DistributionAccuracyError => "Rounding error exceeds 0.01% accuracy threshold"@,
            VaultError::HarvestCooldown => "Harvest attempted before the cooldown period has elapsed"@,
            VaultError::WithdrawalQueued => "Withdrawal queued; call `claim_queued_withdrawal` after unbonding"@,
            VaultError::QueueEntryNotFound => "Queue entry does not exist or was already claimed"@,
            VaultError::QueueUnbondingPending => "Queue entry is still within the unbonding period"@,
            VaultError::InvalidWithdrawalFee => "Withdrawal fee exceeds the 5% maximum"@,
            VaultError::TransferFailed => "Token transfer amount assertion failed (fee-on-transfer guard)"@,
            VaultError::OraclePriceZero => "Oracle returned a zero price"@,
            VaultError::OraclePriceTooHigh => "Oracle price exceeds sanity cap (possible manipulation)"@,
            VaultError::OraclePriceStale => "Oracle price is older than the configured `max_age_secs`"@,
            VaultError::NotWhitelisted => "Deposit attempted by an address not on the whitelist"@,
            VaultError::BelowMinDeposit => "Deposit amount is below the configured minimum"@,
            VaultError::Reentrancy => "Reentrant call rejected: another call into the vault is in progress"@,
            VaultError::CircuitBreakerTripped => "Share price moved more than the configured limit; vault auto-paused"@,
            VaultError::OracleUnavailable => "Oracle unavailable; `total_assets_usd` returned fallback value 0"@,
            VaultError::NotVaultPaused => "Emergency withdrawal is only available while the vault is paused"@,
            VaultError::NotASigner => "Caller is not a multi-sig signer"@,
            VaultError::OperationNotFound => "Multi-sig operation does not exist"@,
            VaultError::OperationAlreadySigned => "Signer already signed this operation"@,
            VaultError::OperationAlreadyExecuted => "Multi-sig operation was already executed"@,
            VaultError::OperationExpired => "Multi-sig operation is past its 72-hour lifetime"@,
            VaultError::ThresholdNotMet => "Multi-sig operation has fewer signatures than the threshold"@,
            VaultError::InvalidThreshold => "Threshold is zero or exceeds the number of signers"@,
            VaultError::NotAuthorized => "Address has not authorised this call"@,
        }
    }

    /// The English sentence that describes an error.
    pub fn message(self) -> (text: &'static str)
        ensures
            text@ == self.spec_message(),
    {
        match self {
            VaultError::NotInitialized => "Vault has not been initialized yet",
            VaultError::AlreadyInitialized => "`initialize` was called more than once",
            VaultError::InsufficientShares => "Caller's share balance is less than the requested withdrawal amount",
            VaultError::InsufficientUnderlying => "Vault's token balance cannot cover the redemption",
            VaultError::ZeroAmount => "Input is zero, negative, or computed shares/tokens round to zero",
            VaultError::MathOverflow => "Integer overflow during share/token arithmetic",
            VaultError::InvalidAddress => "Address is not in the governance signers list, or token is not whitelisted",
            VaultError::ZeroShares => "`harvest` called when `total_shares == 0` (nobody has deposited yet)",
            VaultError::UpgradeUnauthorized => "Caller is not the stored admin",
            VaultError::StorageLayoutMismatch => "On-chain layout version does not match `CURRENT_LAYOUT_VERSION`",
            VaultError::VaultPaused => "Mutating operation called while the vault is paused",
            VaultError::BalanceMismatch => "Flash loan guard: actual token balance differs from `total_deposited`",
            VaultError::TimelockNotExpired => "Governance timelock has not elapsed",
            VaultError::NotApproved => "Proposal has not reached required signature threshold",
            VaultError::AlreadyVoted => "Signer already voted on this proposal",
            VaultError::TvlCapExceeded => "Deposit would exceed the configured TVL cap",
            VaultError::YieldTooSmall => "Yield rounds to zero per share - accumulate more before distributing",
            VaultError::DistributionAccuracyError => "Rounding error exceeds 0.01% accuracy threshold",
            VaultError::HarvestCooldown => "Harvest attempted before the cooldown period has elapsed",
            VaultError::WithdrawalQueued => "Withdrawal queued; call `claim_queued_withdrawal` after unbonding",
            VaultError::QueueEntryNotFound => "Queue entry does not exist or was already claimed",
            VaultError::QueueUnbondingPending => "Queue entry is still within the unbonding period",
            VaultError::InvalidWithdrawalFee => "Withdrawal fee exceeds the 5% maximum",
            VaultError::TransferFailed => "Token transfer amount assertion failed (fee-on-transfer guard)",
            VaultError::OraclePriceZero => "Oracle returned a zero price",
            VaultError::OraclePriceTooHigh => "Oracle price exceeds sanity cap (possible manipulation)",
            VaultError::OraclePriceStale => "Oracle price is older than the configured `max_age_secs`",
            VaultError::NotWhitelisted => "Deposit attempted by an address not on the whitelist",
            VaultError::BelowMinDeposit => "Deposit amount is below the configured minimum",
            VaultError::Reentrancy => "Reentrant call rejected: another call into the vault is in progress",
            VaultError::CircuitBreakerTripped => "Share price moved more than the configured limit; vault auto-paused",
            VaultError::OracleUnavailable => "Oracle unavailable; `total_assets_usd` returned fallback value 0",
            VaultError::NotVaultPaused => "Emergency withdrawal is only available while the vault is paused",
            VaultError::NotASigner => "Caller is not a multi-sig signer",
            VaultError::OperationNotFound => "Multi-sig operation does not exist",
            VaultError::OperationAlreadySigned => "Signer already signed this operation",
            VaultError::OperationAlreadyExecuted => "Multi-sig operation was already executed",
            VaultError::OperationExpired => "Multi-sig operation is past its 72-hour lifetime",
            VaultError::ThresholdNotMet => "Multi-sig operation has fewer signatures than the threshold",
            VaultError::InvalidThreshold => "Threshold is zero or exceeds the number of signers",
            VaultError::NotAuthorized => "Address has not authorised this call",
        }
    }

    /// The error that is documented under `code`, if there is one.
    pub open spec fn with_code(code: u32) -> Option<VaultError> {
        match code {
            1 => Some(VaultError::NotInitialized),
            2 => Some(VaultError::AlreadyInitialized),
            3 => Some(VaultError::InsufficientShares),
            4 => Some(VaultError::InsufficientUnderlying),
            5 => Some(VaultError::ZeroAmount),
            6 => Some(VaultError::MathOverflow),
            7 => Some(VaultError::InvalidAddress),
            8 => Some(VaultError::ZeroShares),
            9 => Some(VaultError::UpgradeUnauthorized),
            10 => Some(VaultError::StorageLayoutMismatch),
            11 => Some(VaultError::VaultPaused),
            12 => Some(VaultError::BalanceMismatch),
            13 => Some(VaultError::TimelockNotExpired),
            14 => Some(VaultError::NotApproved),
            15 => Some(VaultError::AlreadyVoted),
            16 => Some(VaultError::TvlCapExceeded),
            17 => Some(VaultError::YieldTooSmall),
            18 => Some(VaultError::DistributionAccuracyError),
            19 => Some(VaultError::HarvestCooldown),
            20 => Some(VaultError::WithdrawalQueued),
            21 => Some(VaultError::QueueEntryNotFound),
            22 => Some(VaultError::QueueUnbondingPending),
            23 => Some(VaultError::InvalidWithdrawalFee),
            24 => Some(VaultError::TransferFailed),
            25 => Some(VaultError::OraclePriceZero),
            26 => Some(VaultError::OraclePriceTooHigh),
            27 => Some(VaultError::OraclePriceStale),
            28 => Some(VaultError::NotWhitelisted),
            29 => Some(VaultError::BelowMinDeposit),
            30 => Some(VaultError::Reentrancy),
            31 => Some(VaultError::CircuitBreakerTripped),
            _ => None,
        }
    }

    /// The error that is documented under `code`, if there is one.
    pub fn from_code(code: u32) -> (error: Option<VaultError>)
        ensures
            error == VaultError::with_code(code),
    {
        match code {
            1 => Some(VaultError::NotInitialized),
            2 => Some(VaultError::AlreadyInitialized),
            3 => Some(VaultError::InsufficientShares),
            4 => Some(VaultError::InsufficientUnderlying),
            5 => Some(VaultError::ZeroAmount),
            6 => Some(VaultError::MathOverflow),
            7 => Some(VaultError::InvalidAddress),
            8 => Some(VaultError::ZeroShares),
            9 => Some(VaultError::UpgradeUnauthorized),
            10 => Some(VaultError::StorageLayoutMismatch),
            11 => Some(VaultError::VaultPaused),
            12 => Some(VaultError::BalanceMismatch),
            13 => Some(VaultError::TimelockNotExpired),
            14 => Some(VaultError::NotApproved),
            15 => Some(VaultError::AlreadyVoted),
            16 => Some(VaultError::TvlCapExceeded),
            17 => Some(VaultError::YieldTooSmall),
            18 => Some(VaultError::DistributionAccuracyError),
            19 => Some(VaultError::HarvestCooldown),
            20 => Some(VaultError::WithdrawalQueued),
            21 => Some(VaultError::QueueEntryNotFound),
            22 => Some(VaultError::QueueUnbondingPending),
            23 => Some(VaultError::InvalidWithdrawalFee),
            24 => Some(VaultError::TransferFailed),
            25 => Some(VaultError::OraclePriceZero),
            26 => Some(VaultError::OraclePriceTooHigh),
            27 => Some(VaultError::OraclePriceStale),
            28 => Some(VaultError::NotWhitelisted),
            29 => Some(VaultError::BelowMinDeposit),
            30 => Some(VaultError::Reentrancy),
            31 => Some(VaultError::CircuitBreakerTripped),
            _ => None,
        }
    }
}

/// Codes and errors correspond: no two errors share a code, and a documented
/// code leads back to its error. No other code leads to any.
pub proof fn law_codes_and_errors_correspond(e: VaultError, other: VaultError, code: u32)
    ensures
        e.spec_code() == other.spec_code() ==> e == other,
        1 <= e.spec_code() <= 31 ==> VaultError::with_code(e.spec_code()) == Some(e),
        VaultError::with_code(code) == Some(e) ==> e.spec_code() == code,
        VaultError::with_code(code) is Some <==> 1 <= code <= 31,
{
}

} // verus!
