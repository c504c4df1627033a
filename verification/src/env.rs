use crate::address::Address;
use crate::events::Event;
use crate::governance::{Proposal, ProposalModel};
use crate::multisig::Operation;
use crate::oracle::ORACLE_DEFAULT_MAX_AGE_SECS;
use crate::storage::{
    WithdrawalEntry, DEFAULT_DECIMALS, DEFAULT_PERF_FEE_BPS, DEFAULT_PRICE_PRECISION,
    DEFAULT_THRESHOLD,
};
use crate::table::Table;
use vstd::prelude::*;

verus! {

/// One signer's signature under an operation.
#[derive(Clone, Copy, Debug, PartialEq, Eq, Structural)]
pub struct Vote {
    /// The operation that was signed.
    pub id: u64,
    pub voter: Address,
}

/// One signer's vote on a proposal.
#[derive(Clone, Copy, Debug, PartialEq, Eq, Structural)]
pub struct Ballot {
    /// The proposal that was voted on.
    pub id: u64,
    pub voter: Address,
    pub approve: bool,
}

/// What a vault call reads and writes: the contract's storage, the ledger
/// clock, the authorisations that came with the call, and the events that it
/// has published so far.
#[derive(Clone, Debug)]
pub struct Env {
    /// Ledger time in seconds.
    pub timestamp: u64,
    /// Addresses that have authorised the current call.
    pub authorized: Vec<Address>,
    /// Published events, oldest first.
    pub events: Vec<Event>,
    /// Set while a call into the vault is in progress.
    pub locked: bool,
    pub admin: Option<Address>,
    pub token: Option<Address>,
    pub total_shares: i128,
    pub total_deposited: i128,
    pub balances: Table<i128>,
    pub version: u32,
    pub layout_version: u32,
    pub paused: bool,
    pub treasury: Option<Address>,
    pub perf_fee_bps: u32,
    pub mgmt_fee_bps: u32,
    pub total_fee_collected: i128,
    pub last_mgmt_fee_time: u64,
    pub yield_tokens: Table<bool>,
    /// Largest total of deposited assets that deposits may reach; 0 is no cap.
    pub tvl_cap: i128,
    /// Time of the last harvest; 0 when there was none.
    pub last_harvest_time: u64,
    pub harvest_cooldown_secs: u64,
    /// Yield per share since the start, scaled by `YIELD_PRECISION`.
    pub cumulative_yps: i128,
    pub user_checkpoints: Table<i128>,
    pub user_pending_yields: Table<i128>,
    pub distribution_epoch: u64,
    /// Redemptions of at least this amount are queued; 0 is no queue.
    pub withdrawal_queue_threshold: i128,
    pub withdrawal_unbonding_secs: u64,
    pub withdrawal_fee_bps: u32,
    pub withdrawal_next_id: u64,
    pub withdrawal_entries: Table<WithdrawalEntry>,
    /// Largest share-price movement of one harvest in basis points; 0 is no limit.
    pub price_movement_limit: u32,
    pub whitelist_enabled: bool,
    pub whitelist: Table<bool>,
    pub min_deposit: i128,
    pub vault_name: Option<String>,
    pub vault_symbol: Option<String>,
    pub vault_version: u32,
    pub decimals: u32,
    pub price_precision: u32,
    pub oracle_address: Option<Address>,
    pub oracle_max_age: u64,
    /// Share price after each harvest, by time of harvest.
    pub price_snapshots: Table<i128>,
    pub multisig_signers: Vec<Address>,
    pub multisig_threshold: u32,
    pub multisig_op_count: u64,
    pub multisig_ops: Table<Operation>,
    pub multisig_votes: Vec<Vote>,
    pub governance_signers: Vec<Address>,
    pub proposal_count: u64,
    pub proposals: Table<Proposal>,
    pub proposal_votes: Vec<Ballot>,
}

/// The mathematical content of an [`Env`].
pub struct Model {
    pub timestamp: u64,
    pub authorized: Seq<Address>,
    pub events: Seq<Event>,
    pub locked: bool,
    pub admin: Option<Address>,
    pub token: Option<Address>,
    pub total_shares: i128,
    pub total_deposited: i128,
    pub balances: Map<u64, i128>,
    pub version: u32,
    pub layout_version: u32,
    pub paused: bool,
    pub treasury: Option<Address>,
    pub perf_fee_bps: u32,
    pub mgmt_fee_bps: u32,
    pub total_fee_collected: i128,
    pub last_mgmt_fee_time: u64,
    pub yield_tokens: Map<u64, bool>,
    pub tvl_cap: i128,
    pub last_harvest_time: u64,
    pub harvest_cooldown_secs: u64,
    pub cumulative_yps: i128,
    pub user_checkpoints: Map<u64, i128>,
    pub user_pending_yields: Map<u64, i128>,
    pub distribution_epoch: u64,
    pub withdrawal_queue_threshold: i128,
    pub withdrawal_unbonding_secs: u64,
    pub withdrawal_fee_bps: u32,
    pub withdrawal_next_id: u64,
    pub withdrawal_entries: Map<u64, WithdrawalEntry>,
    pub price_movement_limit: u32,
    pub whitelist_enabled: bool,
    pub whitelist: Map<u64, bool>,
    pub min_deposit: i128,
    pub vault_name: Option<Seq<char>>,
    pub vault_symbol: Option<Seq<char>>,
    pub vault_version: u32,
    pub decimals: u32,
    pub price_precision: u32,
    pub oracle_address: Option<Address>,
    pub oracle_max_age: u64,
    pub price_snapshots: Map<u64, i128>,
    pub multisig_signers: Seq<Address>,
    pub multisig_threshold: u32,
    pub multisig_op_count: u64,
    pub multisig_ops: Map<u64, Operation>,
    pub multisig_votes: Seq<Vote>,
    pub governance_signers: Seq<Address>,
    pub proposal_count: u64,
    pub proposals: Map<u64, ProposalModel>,
    pub proposal_votes: Seq<Ballot>,
}

/// The text of an optional string.
pub open spec fn text_of(s: Option<String>) -> Option<Seq<char>> {
    match s {
        Some(text) => Some(text@),
        None => None,
    }
}

impl View for Env {
    type V = Model;

    open spec fn view(&self) -> Model {
        Model {
            timestamp: self.timestamp,
            authorized: self.authorized@,
            events: self.events@,
            locked: self.locked,
            admin: self.admin,
            token: self.token,
            total_shares: self.total_shares,
            total_deposited: self.total_deposited,
            balances: self.balances@,
            version: self.version,
            layout_version: self.layout_version,
            paused: self.paused,
            treasury: self.treasury,
            perf_fee_bps: self.perf_fee_bps,
            mgmt_fee_bps: self.mgmt_fee_bps,
            total_fee_collected: self.total_fee_collected,
            last_mgmt_fee_time: self.last_mgmt_fee_time,
            yield_tokens: self.yield_tokens@,
            tvl_cap: self.tvl_cap,
            last_harvest_time: self.last_harvest_time,
            harvest_cooldown_secs: self.harvest_cooldown_secs,
            cumulative_yps: self.cumulative_yps,
            user_checkpoints: self.user_checkpoints@,
            user_pending_yields: self.user_pending_yields@,
            distribution_epoch: self.distribution_epoch,
            withdrawal_queue_threshold: self.withdrawal_queue_threshold,
            withdrawal_unbonding_secs: self.withdrawal_unbonding_secs,
            withdrawal_fee_bps: self.withdrawal_fee_bps,
            withdrawal_next_id: self.withdrawal_next_id,
            withdrawal_entries: self.withdrawal_entries@,
            price_movement_limit: self.price_movement_limit,
            whitelist_enabled: self.whitelist_enabled,
            whitelist: self.whitelist@,
            min_deposit: self.min_deposit,
            vault_name: text_of(self.vault_name),
            vault_symbol: text_of(self.vault_symbol),
            vault_version: self.vault_version,
            decimals: self.decimals,
            price_precision: self.price_precision,
            oracle_address: self.oracle_address,
            oracle_max_age: self.oracle_max_age,
            price_snapshots: self.price_snapshots@,
            multisig_signers: self.multisig_signers@,
            multisig_threshold: self.multisig_threshold,
            multisig_op_count: self.multisig_op_count,
            multisig_ops: self.multisig_ops@,
            multisig_votes: self.multisig_votes@,
            governance_signers: self.governance_signers@,
            proposal_count: self.proposal_count,
            proposals: self.proposals@.map_values(|p: Proposal| p@),
            proposal_votes: self.proposal_votes@,
        }
    }
}

impl Model {
    /// A vault that nobody has initialised yet, at ledger time `timestamp`.
    pub open spec fn fresh(timestamp: u64) -> Model {
        Model {
            timestamp,
            authorized: Seq::empty(),
            events: Seq::empty(),
            locked: false,
            admin: None,
            token: None,
            total_shares: 0,
            total_deposited: 0,
            balances: Map::empty(),
            version: 0,
            layout_version: 0,
            paused: false,
            treasury: None,
            perf_fee_bps: DEFAULT_PERF_FEE_BPS,
            mgmt_fee_bps: 0,
            total_fee_collected: 0,
            last_mgmt_fee_time: 0,
            yield_tokens: Map::empty(),
            tvl_cap: 0,
            last_harvest_time: 0,
            harvest_cooldown_secs: 0,
            cumulative_yps: 0,
            user_checkpoints: Map::empty(),
            user_pending_yields: Map::empty(),
            distribution_epoch: 0,
            withdrawal_queue_threshold: 0,
            withdrawal_unbonding_secs: 0,
            withdrawal_fee_bps: 0,
            withdrawal_next_id: 1,
            withdrawal_entries: Map::empty(),
            price_movement_limit: 0,
            whitelist_enabled: false,
            whitelist: Map::empty(),
            min_deposit: 0,
            vault_name: None,
            vault_symbol: None,
            vault_version: 1,
            decimals: DEFAULT_DECIMALS,
            price_precision: DEFAULT_PRICE_PRECISION,
            oracle_address: None,
            oracle_max_age: ORACLE_DEFAULT_MAX_AGE_SECS,
            price_snapshots: Map::empty(),
            multisig_signers: Seq::empty(),
            multisig_threshold: DEFAULT_THRESHOLD,
            multisig_op_count: 0,
            multisig_ops: Map::empty(),
            multisig_votes: Seq::empty(),
            governance_signers: Seq::empty(),
            proposal_count: 0,
            proposals: Map::empty(),
            proposal_votes: Seq::empty(),
        }
    }

    /// Whether `addr` has authorised the current call.
    pub open spec fn has_auth(self, addr: Address) -> bool {
        self.authorized.contains(addr)
    }

    /// The shares that `addr` holds.
    pub open spec fn balance(self, addr: Address) -> i128 {
        if self.balances.contains_key(addr.id) {
            self.balances[addr.id]
        } else {
            0
        }
    }

    /// The yield per share up to which `addr` has been paid.
    pub open spec fn checkpoint(self, addr: Address) -> i128 {
        if self.user_checkpoints.contains_key(addr.id) {
            self.user_checkpoints[addr.id]
        } else {
            0
        }
    }

    /// The yield that is set aside for `addr`.
    pub open spec fn stored_yield(self, addr: Address) -> i128 {
        if self.user_pending_yields.contains_key(addr.id) {
            self.user_pending_yields[addr.id]
        } else {
            0
        }
    }

    /// Whether `addr` may deposit in whitelist mode.
    pub open spec fn whitelisted(self, addr: Address) -> bool {
        self.whitelist.contains_key(addr.id) && self.whitelist[addr.id]
    }

    /// Whether yield may be paid in `token`.
    pub open spec fn accepts_yield_token(self, token: Address) -> bool {
        self.yield_tokens.contains_key(token.id) && self.yield_tokens[token.id]
    }

    /// The same vault with one more published event.
    pub open spec fn publish(self, event: Event) -> Model {
        Model { events: self.events.push(event), ..self }
    }
}

impl Env {
    /// The state of a contract that nobody has initialised yet.
    pub fn new(timestamp: u64) -> (env: Env)
        ensures
            env@ == Model::fresh(timestamp),
    {
        let env = Env {
            timestamp,
            authorized: Vec::new(),
            events: Vec::new(),
            locked: false,
            admin: None,
            token: None,
            total_shares: 0,
            total_deposited: 0,
            balances: Table::new(),
            version: 0,
            layout_version: 0,
            paused: false,
            treasury: None,
            perf_fee_bps: DEFAULT_PERF_FEE_BPS,
            mgmt_fee_bps: 0,
            total_fee_collected: 0,
            last_mgmt_fee_time: 0,
            yield_tokens: Table::new(),
            tvl_cap: 0,
            last_harvest_time: 0,
            harvest_cooldown_secs: 0,
            cumulative_yps: 0,
            user_checkpoints: Table::new(),
            user_pending_yields: Table::new(),
            distribution_epoch: 0,
            withdrawal_queue_threshold: 0,
            withdrawal_unbonding_secs: 0,
            withdrawal_fee_bps: 0,
            withdrawal_next_id: 1,
            withdrawal_entries: Table::new(),
            price_movement_limit: 0,
            whitelist_enabled: false,
            whitelist: Table::new(),
            min_deposit: 0,
            vault_name: None,
            vault_symbol: None,
            vault_version: 1,
            decimals: DEFAULT_DECIMALS,
            price_precision: DEFAULT_PRICE_PRECISION,
            oracle_address: None,
            oracle_max_age: ORACLE_DEFAULT_MAX_AGE_SECS,
            price_snapshots: Table::new(),
            multisig_signers: Vec::new(),
            multisig_threshold: DEFAULT_THRESHOLD,
            multisig_op_count: 0,
            multisig_ops: Table::new(),
            multisig_votes: Vec::new(),
            governance_signers: Vec::new(),
            proposal_count: 0,
            proposals: Table::new(),
            proposal_votes: Vec::new(),
        };
        assert(env@.proposals =~= Map::empty());
        assert(env@ == Model::fresh(timestamp));
        env
    }

    /// Whether `addr` has authorised the current call.
    pub fn has_auth(&self, addr: Address) -> (found: bool)
        ensures
            found == self@.has_auth(addr),
    {
        contains_address(&self.authorized, addr)
    }

    /// Publishes an event.
    pub fn publish(&mut self, event: Event)
        ensures
            final(self)@ == old(self)@.publish(event),
    {
        self.events.push(event);
    }
}

/// Whether `list` names `addr`.
pub fn contains_address(list: &Vec<Address>, addr: Address) -> (found: bool)
    ensures
        found == list@.contains(addr),
{
    let mut i: usize = 0;
    while i < list.len()
        invariant
            i <= list.len(),
            forall|k: int| 0 <= k < i ==> list@[k] != addr,
        decreases list.len() - i,
    {
        if list[i] == addr {
            return true;
        }
        i = i + 1;
    }
    false
}

/// Whether `votes` holds a vote of `voter` under `id`.
pub fn contains_vote(votes: &Vec<Vote>, id: u64, voter: Address) -> (found: bool)
    ensures
        found == votes@.contains(Vote { id, voter }),
{
    let mut i: usize = 0;
    while i < votes.len()
        invariant
            i <= votes.len(),
            forall|k: int| 0 <= k < i ==> votes@[k] != (Vote { id, voter }),
        decreases votes.len() - i,
    {
        let vote = votes[i];
        if vote.id == id && vote.voter == voter {
            return true;
        }
        i = i + 1;
    }
    false
}

/// Whether `ballots` holds a vote of `voter` under `id`, either way.
pub fn contains_ballot(ballots: &Vec<Ballot>, id: u64, voter: Address) -> (found: bool)
    ensures
        found == (ballots@.contains(Ballot { id, voter, approve: true }) || ballots@.contains(
            Ballot { id, voter, approve: false },
        )),
{
    let mut i: usize = 0;
    while i < ballots.len()
        invariant
            i <= ballots.len(),
            forall|k: int|
                0 <= k < i ==> ballots@[k] != (Ballot { id, voter, approve: true }) && ballots@[k]
                    != (Ballot { id, voter, approve: false }),
        decreases ballots.len() - i,
    {
        let ballot = ballots[i];
        if ballot.id == id && ballot.voter == voter {
            assert(ballots@[i as int] == Ballot { id, voter, approve: ballot.approve });
            return true;
        }
        i = i + 1;
    }
    false
}

} // verus!
