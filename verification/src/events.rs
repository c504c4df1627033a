use crate::address::Address;
use vstd::prelude::*;

verus! {

/// What the vault publishes for indexers and monitoring.
///
/// The leading fields of each variant are its topics, the rest its payload.
#[derive(Clone, Copy, Debug, PartialEq, Eq, Structural)]
pub enum Event {
    Deposit {
        caller: Address,
        amount: i128,
        new_shares: i128,
        total_shares: i128,
        total_deposited: i128,
    },
    Withdraw {
        caller: Address,
        shares: i128,
        redeem_amount: i128,
        total_shares: i128,
        total_deposited: i128,
    },
    WithdrawQueued {
        caller: Address,
        entry_id: u64,
        shares: i128,
        redeem_amount: i128,
        claimable_after: u64,
        total_shares: i128,
        total_deposited: i128,
    },
    WithdrawalClaimed {
        caller: Address,
        entry_id: u64,
        redeem_amount: i128,
        fee_amount: i128,
        net_amount: i128,
    },
    EmergencyWithdraw {
        caller: Address,
        shares: i128,
        redeem_amount: i128,
        total_shares: i128,
        total_deposited: i128,
    },
    Harvest {
        caller: Address,
        yield_amount: i128,
        yield_after_fee: i128,
        fee_amount: i128,
        total_deposited: i128,
    },
    HarvestToken {
        caller: Address,
        alt_token: Address,
        yield_amount: i128,
        net_underlying: i128,
        fee_amount: i128,
    },
    YieldTokenRegistered { alt_token: Address },
    YieldDistributed {
        caller: Address,
        yield_amount: i128,
        net_yield: i128,
        fee_amount: i128,
        total_shares: i128,
        cumulative_yps: i128,
        epoch: u64,
    },
    YieldDistributedToken {
        caller: Address,
        alt_token: Address,
        yield_amount: i128,
        net_underlying: i128,
        fee_amount: i128,
        total_shares: i128,
        cumulative_yps: i128,
        epoch: u64,
    },
    YieldCollected {
        caller: Address,
        amount: i128,
        cumulative_yps: i128,
        total_deposited: i128,
    },
    Paused,
    Unpaused,
    FeesWithdrawn { admin: Address, fees: i128, treasury: Address },
    Upgrade { admin: Address, old_version: u32, new_version: u32 },
    /// Published under `suspicious`: the token balance is not the tracked total.
    BalanceMismatch { actual_balance: i128, tracked_deposited: i128 },
    /// Published under `suspicious`: a harvest would move the share price too far.
    PriceMovement { total_deposited: i128, new_total: i128, limit_bps: u32 },
    QueueThresholdSet { admin: Address, threshold: i128 },
    UnbondingSet { admin: Address, secs: u64 },
    WithdrawalFeeSet { admin: Address, bps: u32 },
    WhitelistEnabled { admin: Address },
    WhitelistDisabled { admin: Address },
    WhitelistAdded { admin: Address, addr: Address },
    WhitelistRemoved { admin: Address, addr: Address },
    MinDepositSet { admin: Address, amount: i128 },
    OperationProposed { proposer: Address, op_id: u64 },
    OperationSigned { signer: Address, op_id: u64, approvals: u32 },
    OperationExecuted { executor: Address, op_id: u64 },
    StorageBumped { count: u32 },
}

impl Event {
    /// The name under which an event is published.
    pub open spec fn spec_name(self) -> Seq<char> {
        match self {
            Event::Deposit { .. } => "deposit"@,
            Event::Withdraw { .. } => "withdraw"@,
            Event::WithdrawQueued { .. } => "withdraw_queued"@,
            Event::WithdrawalClaimed { .. } => "withdrawal_claimed"@,
            Event::EmergencyWithdraw { .. } => "emergency_withdraw"@,
            Event::Harvest { .. } => "harvest"@,
            Event::HarvestToken { .. } => "harvest_token"@,
            Event::YieldTokenRegistered { .. } => "yield_token_registered"@,
            Event::YieldDistributed { .. } => "yield_distributed"@,
            Event::YieldDistributedToken { .. } => "yield_distributed_token"@,
            Event::YieldCollected { .. } => "yield_collected"@,
            Event::Paused => "paused"@,
            Event::Unpaused => "unpaused"@,
            Event::FeesWithdrawn { .. } => "fees_withdrawn"@,
            Event::Upgrade { .. } => "upgrade"@,
            Event::BalanceMismatch { .. } => "suspicious"@,
            Event::PriceMovement { .. } => "suspicious"@,
            Event::QueueThresholdSet { .. } => "queue_threshold_set"@,
            Event::UnbondingSet { .. } => "unbonding_set"@,
            Event::WithdrawalFeeSet { .. } => "withdrawal_fee_set"@,
            Event::WhitelistEnabled { .. } => "whitelist_enabled"@,
            Event::WhitelistDisabled { .. } => "whitelist_disabled"@,
            Event::WhitelistAdded { .. } => "whitelist_added"@,
            Event::WhitelistRemoved { .. } => "whitelist_removed"@,
            Event::MinDepositSet { .. } => "min_deposit_set"@,
            Event::OperationProposed { .. } => "operation_proposed"@,
            Event::OperationSigned { .. } => "operation_signed"@,
            Event::OperationExecuted { .. } => "operation_executed"@,
            Event::StorageBumped { .. } => "storage_bumped"@,
        }
    }

    /// What is suspicious, for the events that say so.
    pub open spec fn spec_reason(self) -> Option<Seq<char>> {
        match self {
            Event::BalanceMismatch { .. } => Some("balance_mismatch"@),
            Event::PriceMovement { .. } => Some("price_movement"@),
            _ => None,
        }
    }

    /// What is suspicious, for the events that are published as suspicious: the
    /// first part of their payload.
    pub fn reason(&self) -> (reason: Option<&'static str>)
        ensures
            match reason {
                Some(text) => self.spec_reason() == Some(text@),
                None => self.spec_reason() is None,
            },
    {
        match self {
            Event::BalanceMismatch { .. } => Some("balance_mismatch"),
            Event::PriceMovement { .. } => Some("price_movement"),
            _ => None,
        }
    }

    /// The name under which an event is published.
    pub fn name(&self) -> (name: &'static str)
        ensures
            name@ == self.spec_name(),
    {
        match self {
            Event::Deposit { .. } => "deposit",
            Event::Withdraw { .. } => "withdraw",
            Event::WithdrawQueued { .. } => "withdraw_queued",
            Event::WithdrawalClaimed { .. } => "withdrawal_claimed",
            Event::EmergencyWithdraw { .. } => "emergency_withdraw",
            Event::Harvest { .. } => "harvest",
            Event::HarvestToken { .. } => "harvest_token",
            Event::YieldTokenRegistered { .. } => "yield_token_registered",
            Event::YieldDistributed { .. } => "yield_distributed",
            Event::YieldDistributedToken { .. } => "yield_distributed_token",
            Event::YieldCollected { .. } => "yield_collected",
            Event::Paused => "paused",
            Event::Unpaused => "unpaused",
            Event::FeesWithdrawn { .. } => "fees_withdrawn",
            Event::Upgrade { .. } => "upgrade",
            Event::BalanceMismatch { .. } => "suspicious",
            Event::PriceMovement { .. } => "suspicious",
            Event::QueueThresholdSet { .. } => "queue_threshold_set",
            Event::UnbondingSet { .. } => "unbonding_set",
            Event::WithdrawalFeeSet { .. } => "withdrawal_fee_set",
            Event::WhitelistEnabled { .. } => "whitelist_enabled",
            Event::WhitelistDisabled { .. } => "whitelist_disabled",
            Event::WhitelistAdded { .. } => "whitelist_added",
            Event::WhitelistRemoved { .. } => "whitelist_removed",
            Event::MinDepositSet { .. } => "min_deposit_set",
            Event::OperationProposed { .. } => "operation_proposed",
            Event::OperationSigned { .. } => "operation_signed",
            Event::OperationExecuted { .. } => "operation_executed",
            Event::StorageBumped { .. } => "storage_bumped",
        }
    }
}

} // verus!
