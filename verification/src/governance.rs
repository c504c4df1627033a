use crate::address::Address;
use crate::env::{contains_address, contains_ballot, Ballot, Env, Model};
use crate::errors::VaultError;
use crate::guard::{ends_with, require_auth};
use crate::storage::{
    enter_reentrancy_guard, exit_reentrancy_guard, set_admin, set_mgmt_fee_bps, set_perf_fee_bps,
    set_token, set_tvl_cap,
};
use crate::vault::AuraVault;
use vstd::prelude::*;

verus! {

/// Approvals that a proposal needs.
pub const REQUIRED_SIGNATURES: u32 = 3;

/// Seconds between the approval of a proposal and its execution.
pub const TIMELOCK_DURATION: u64 = 86_400;

/// A parameter that governance can name.
#[derive(Clone, Copy, Debug, PartialEq, Eq, Structural)]
pub enum Parameter {
    PerfFeeBps,
    MgmtFeeBps,
    TvlCap,
    /// A name that stands for no setting of the vault.
    Other,
}

/// What a proposal changes.
#[derive(Clone, Debug)]
pub enum ProposalType {
    UpdateAdmin(Address),
    UpdateUnderlyingToken(Address),
    /// Set the parameter of that name to that value.
    UpdateParameter(String, i128),
}

/// The mathematical content of a [`ProposalType`].
pub enum Change {
    Admin(Address),
    Token(Address),
    Named(Seq<char>, i128),
}

impl View for ProposalType {
    type V = Change;

    open spec fn view(&self) -> Change {
        match *self {
            ProposalType::UpdateAdmin(admin) => Change::Admin(admin),
            ProposalType::UpdateUnderlyingToken(token) => Change::Token(token),
            ProposalType::UpdateParameter(name, value) => Change::Named(name@, value),
        }
    }
}

/// How far a proposal or an operation has come.
#[derive(Clone, Copy, Debug, PartialEq, Eq, Structural)]
pub enum ProposalStatus {
    Pending,
    Ready,
    Executed,
    Expired,
}

/// A governance proposal.
#[derive(Clone, Debug)]
pub struct Proposal {
    pub proposer: Address,
    pub kind: ProposalType,
    pub status: ProposalStatus,
    /// Signers that have voted for the proposal.
    pub approvals: u32,
    /// When the proposal was approved; 0 before.
    pub approved_at: u64,
}

/// The mathematical content of a [`Proposal`].
pub struct ProposalModel {
    pub proposer: Address,
    pub kind: Change,
    pub status: ProposalStatus,
    pub approvals: u32,
    pub approved_at: u64,
}

impl View for Proposal {
    type V = ProposalModel;

    open spec fn view(&self) -> ProposalModel {
        ProposalModel {
            proposer: self.proposer,
            kind: self.kind@,
            status: self.status,
            approvals: self.approvals,
            approved_at: self.approved_at,
        }
    }
}

/// The parameter that a name stands for.
pub open spec fn parameter_named(name: Seq<char>) -> Parameter {
    if name == "perf_fee_bps"@ {
        Parameter::PerfFeeBps
    } else if name == "mgmt_fee_bps"@ {
        Parameter::MgmtFeeBps
    } else if name == "tvl_cap"@ {
        Parameter::TvlCap
    } else {
        Parameter::Other
    }
}

/// Whether `voter` has voted on a proposal, either way.
pub open spec fn has_voted(m: Model, proposal_id: u64, voter: Address) -> bool {
    m.proposal_votes.contains(Ballot { id: proposal_id, voter, approve: true })
        || m.proposal_votes.contains(Ballot { id: proposal_id, voter, approve: false })
}

/// Why a proposal is refused.
pub open spec fn propose_error(m: Model, proposer: Address) -> Option<VaultError> {
    if m.locked {
        Some(VaultError::Reentrancy)
    } else if !m.has_auth(proposer) {
        Some(VaultError::NotAuthorized)
    } else if !m.governance_signers.contains(proposer) {
        Some(VaultError::InvalidAddress)
    } else {
        None
    }
}

/// The vault with a new proposal, under the next ID.
pub open spec fn proposed(m: Model, proposer: Address, kind: Change) -> Model {
    let id = (m.proposal_count + 1) as u64;
    Model {
        proposal_count: id,
        proposals: m.proposals.insert(
            id,
            ProposalModel {
                proposer,
                kind,
                status: ProposalStatus::Pending,
                approvals: 0,
                approved_at: 0,
            },
        ),
        ..m
    }
}

/// Why a vote is refused. Only pending proposals are voted on.
pub open spec fn vote_error(m: Model, voter: Address, proposal_id: u64) -> Option<VaultError> {
    if m.locked {
        Some(VaultError::Reentrancy)
    } else if !m.has_auth(voter) {
        Some(VaultError::NotAuthorized)
    } else if !m.governance_signers.contains(voter) {
        Some(VaultError::InvalidAddress)
    } else if !m.proposals.contains_key(proposal_id) {
        Some(VaultError::NotInitialized)
    } else if has_voted(m, proposal_id, voter) {
        Some(VaultError::InvalidAddress)
    } else if m.proposals[proposal_id].status != ProposalStatus::Pending {
        Some(VaultError::InvalidAddress)
    } else {
        None
    }
}

/// One more than `count`, unless it is the largest number already.
pub open spec fn counted(count: u32) -> u32 {
    if count == u32::MAX {
        count
    } else {
        (count + 1) as u32
    }
}

/// A pending proposal after a vote at time `now`. It is approved by the vote that
/// completes the required approvals.
pub open spec fn after_vote(proposal: ProposalModel, approve: bool, now: u64) -> ProposalModel {
    let approvals = if approve {
        counted(proposal.approvals)
    } else {
        proposal.approvals
    };
    if approvals >= REQUIRED_SIGNATURES {
        ProposalModel { approvals, status: ProposalStatus::Ready, approved_at: now, ..proposal }
    } else {
        ProposalModel { approvals, ..proposal }
    }
}

/// The vault after a vote.
pub open spec fn voted(m: Model, voter: Address, proposal_id: u64, approve: bool) -> Model {
    Model {
        proposals: m.proposals.insert(
            proposal_id,
            after_vote(m.proposals[proposal_id], approve, m.timestamp),
        ),
        proposal_votes: m.proposal_votes.push(Ballot { id: proposal_id, voter, approve }),
        ..m
    }
}

/// Whether the change of a proposal can be made: a fee has to be in range.
pub open spec fn applicable(kind: Change) -> bool {
    match kind {
        Change::Named(name, value) => match parameter_named(name) {
            Parameter::PerfFeeBps => 0 <= value <= u32::MAX,
            Parameter::MgmtFeeBps => 0 <= value <= u32::MAX,
            _ => true,
        },
        _ => true,
    }
}

/// The vault with the change of a proposal made. A name that stands for no
/// setting changes nothing.
pub open spec fn applied(m: Model, kind: Change) -> Model {
    match kind {
        Change::Admin(admin) => Model { admin: Some(admin), ..m },
        Change::Token(token) => Model { token: Some(token), ..m },
        Change::Named(name, value) => match parameter_named(name) {
            Parameter::PerfFeeBps => Model { perf_fee_bps: value as u32, ..m },
            Parameter::MgmtFeeBps => Model { mgmt_fee_bps: value as u32, ..m },
            Parameter::TvlCap => Model { tvl_cap: value, ..m },
            Parameter::Other => m,
        },
    }
}

/// Why the execution of a proposal is refused.
pub open spec fn execute_error(m: Model, executor: Address, proposal_id: u64) -> Option<
    VaultError,
> {
    let proposal = m.proposals[proposal_id];
    if m.locked {
        Some(VaultError::Reentrancy)
    } else if !m.has_auth(executor) {
        Some(VaultError::NotAuthorized)
    } else if !m.proposals.contains_key(proposal_id) {
        Some(VaultError::NotInitialized)
    } else if proposal.status != ProposalStatus::Ready {
        Some(VaultError::InvalidAddress)
    } else if m.timestamp - proposal.approved_at < TIMELOCK_DURATION {
        Some(VaultError::InvalidAddress)
    } else if !applicable(proposal.kind) {
        Some(VaultError::MathOverflow)
    } else {
        None
    }
}

/// The vault after the execution of a proposal.
pub open spec fn executed(m: Model, proposal_id: u64) -> Model {
    let proposal = m.proposals[proposal_id];
    Model {
        proposals: m.proposals.insert(
            proposal_id,
            ProposalModel { status: ProposalStatus::Executed, ..proposal },
        ),
        ..applied(m, proposal.kind)
    }
}

/// The word for the status of a proposal.
pub open spec fn proposal_word(status: ProposalStatus) -> Seq<char> {
    match status {
        ProposalStatus::Pending => "Pending"@,
        ProposalStatus::Ready => "Approved"@,
        ProposalStatus::Executed => "Executed"@,
        ProposalStatus::Expired => "Rejected"@,
    }
}

/// Whether two texts are the same.
fn same_text(a: &str, b: &str) -> (r: bool)
    ensures
        r == (a@ == b@),
{
    let n: usize = a.unicode_len();
    if n != b.unicode_len() {
        return false;
    }
    let mut i: usize = 0;
    while i < n
        invariant
            i <= n,
            n == a@.len(),
            n == b@.len(),
            forall|k: int| 0 <= k < i ==> a@[k] == b@[k],
        decreases n - i,
    {
        if a.get_char(i) != b.get_char(i) {
            return false;
        }
        i = i + 1;
    }
    assert(a@ =~= b@);
    true
}

/// The parameter that a name stands for.
fn parse_parameter(name: &str) -> (r: Parameter)
    ensures
        r == parameter_named(name@),
{
    if same_text(name, "perf_fee_bps") {
        Parameter::PerfFeeBps
    } else if same_text(name, "mgmt_fee_bps") {
        Parameter::MgmtFeeBps
    } else if same_text(name, "tvl_cap") {
        Parameter::TvlCap
    } else {
        Parameter::Other
    }
}

/// Whether a number is in the range of fees.
fn is_fee(value: i128) -> (r: bool)
    ensures
        r == (0 <= value <= u32::MAX),
{
    0 <= value && value <= u32::MAX as i128
}

/// Whether the change of a proposal can be made.
fn is_applicable(kind: &ProposalType) -> (r: bool)
    ensures
        r == applicable(kind@),
{
    match kind {
        ProposalType::UpdateParameter(name, value) => match parse_parameter(name.as_str()) {
            Parameter::PerfFeeBps => is_fee(*value),
            Parameter::MgmtFeeBps => is_fee(*value),
            _ => true,
        },
        _ => true,
    }
}

/// Makes the change of a proposal.
fn apply(env: &mut Env, kind: &ProposalType)
    requires
        applicable(kind@),
    ensures
        final(env)@ == applied(old(env)@, kind@),
{
    match kind {
        ProposalType::UpdateAdmin(admin) => set_admin(env, *admin),
        ProposalType::UpdateUnderlyingToken(token) => set_token(env, *token),
        ProposalType::UpdateParameter(name, value) => match parse_parameter(name.as_str()) {
            Parameter::PerfFeeBps => set_perf_fee_bps(env, *value as u32),
            Parameter::MgmtFeeBps => set_mgmt_fee_bps(env, *value as u32),
            Parameter::TvlCap => set_tvl_cap(env, *value),
            Parameter::Other => {},
        },
    }
}

/// Sets the addresses that may propose and vote.
pub fn initialize_governance(env: &mut Env, signers: Vec<Address>)
    ensures
        final(env)@ == (Model { governance_signers: signers@, ..old(env)@ }),
{
    env.governance_signers = signers;
}

/// Stores a proposal and returns its ID.
pub fn create_proposal(env: &mut Env, proposer: Address, kind: ProposalType) -> (r: Result<
    u64,
    VaultError,
>)
    requires
        propose_error(old(env)@, proposer) is None ==> old(env)@.proposal_count < u64::MAX,
    ensures
        ends_with(r, propose_error(old(env)@, proposer)),
        match r {
            Ok(id) => {
                &&& id == old(env)@.proposal_count + 1
                &&& final(env)@ == proposed(old(env)@, proposer, kind@)
            },
            Err(_) => final(env)@ == old(env)@,
        },
{
    if env.locked {
        return Err(VaultError::Reentrancy);
    }
    require_auth(env, proposer)?;
    if !contains_address(&env.governance_signers, proposer) {
        return Err(VaultError::InvalidAddress);
    }
    enter_reentrancy_guard(env)?;
    let id: u64 = env.proposal_count + 1;
    env.proposal_count = id;
    env.proposals.set(
        id,
        Proposal {
            proposer,
            kind,
            status: ProposalStatus::Pending,
            approvals: 0,
            approved_at: 0,
        },
    );
    exit_reentrancy_guard(env);
    assert(env@.proposals =~= proposed(old(env)@, proposer, kind@).proposals);
    Ok(id)
}

/// Counts a vote on a pending proposal.
pub fn vote_on_proposal(env: &mut Env, voter: Address, proposal_id: u64, approve: bool) -> (r:
    Result<(), VaultError>)
    ensures
        ends_with(r, vote_error(old(env)@, voter, proposal_id)),
        final(env)@ == (if r is Ok {
            voted(old(env)@, voter, proposal_id, approve)
        } else {
            old(env)@
        }),
{
    if env.locked {
        return Err(VaultError::Reentrancy);
    }
    require_auth(env, voter)?;
    if !contains_address(&env.governance_signers, voter) {
        return Err(VaultError::InvalidAddress);
    }
    let status = get_proposal_status(env, proposal_id).ok_or(VaultError::NotInitialized)?;
    if contains_ballot(&env.proposal_votes, proposal_id, voter) {
        return Err(VaultError::InvalidAddress);
    }
    if status != ProposalStatus::Pending {
        return Err(VaultError::InvalidAddress);
    }
    let mut proposal = env.proposals.take(proposal_id).ok_or(VaultError::NotInitialized)?;
    if approve {
        proposal.approvals = proposal.approvals.saturating_add(1);
    }
    if proposal.approvals >= REQUIRED_SIGNATURES {
        proposal.status = ProposalStatus::Ready;
        proposal.approved_at = env.timestamp;
    }
    env.proposals.set(proposal_id, proposal);
    env.proposal_votes.push(Ballot { id: proposal_id, voter, approve });
    assert(env@.proposals =~= voted(old(env)@, voter, proposal_id, approve).proposals);
    Ok(())
}

/// Makes the change of an approved proposal, once its timelock is over.
pub fn execute_proposal(env: &mut Env, executor: Address, proposal_id: u64) -> (r: Result<
    (),
    VaultError,
>)
    ensures
        ends_with(r, execute_error(old(env)@, executor, proposal_id)),
        final(env)@ == (if r is Ok {
            executed(old(env)@, proposal_id)
        } else {
            old(env)@
        }),
{
    if env.locked {
        return Err(VaultError::Reentrancy);
    }
    require_auth(env, executor)?;
    match env.proposals.peek(proposal_id) {
        None => {
            return Err(VaultError::NotInitialized);
        },
        Some(proposal) => {
            if proposal.status != ProposalStatus::Ready {
                return Err(VaultError::InvalidAddress);
            }
            if env.timestamp.saturating_sub(proposal.approved_at) < TIMELOCK_DURATION {
                return Err(VaultError::InvalidAddress);
            }
            if !is_applicable(&proposal.kind) {
                return Err(VaultError::MathOverflow);
            }
        },
    }
    let mut proposal = env.proposals.take(proposal_id).ok_or(VaultError::NotInitialized)?;
    assert(env@.proposals =~= old(env)@.proposals.remove(proposal_id));
    apply(env, &proposal.kind);
    let ghost others = env@.proposals;
    proposal.status = ProposalStatus::Executed;
    env.proposals.set(proposal_id, proposal);
    assert(env@.proposals =~= others.insert(proposal_id, proposal@));
    assert(env@.proposals =~= executed(old(env)@, proposal_id).proposals);
    Ok(())
}

/// The status of a proposal, if there is such a proposal.
pub fn get_proposal_status(env: &Env, proposal_id: u64) -> (r: Option<ProposalStatus>)
    ensures
        r == (if env@.proposals.contains_key(proposal_id) {
            Some(env@.proposals[proposal_id].status)
        } else {
            None
        }),
{
    match env.proposals.peek(proposal_id) {
        Some(proposal) => Some(proposal.status),
        None => None,
    }
}

impl AuraVault {
    /// Proposes to replace the admin, and returns the ID of the proposal.
    pub fn propose_update_admin(env: &mut Env, proposer: Address, new_admin: Address) -> (r: Result<
        u64,
        VaultError,
    >)
        requires
            propose_error(old(env)@, proposer) is None ==> old(env)@.proposal_count < u64::MAX,
        ensures
            ends_with(r, propose_error(old(env)@, proposer)),
            match r {
                Ok(id) => {
                    &&& id == old(env)@.proposal_count + 1
                    &&& final(env)@ == proposed(
                        old(env)@,
                        proposer,
                        Change::Admin(new_admin),
                    )
                },
                Err(_) => final(env)@ == old(env)@,
            },
    {
        create_proposal(env, proposer, ProposalType::UpdateAdmin(new_admin))
    }

    /// Proposes to replace the underlying token, and returns the ID of the
    /// proposal.
    pub fn propose_update_token(env: &mut Env, proposer: Address, new_token: Address) -> (r: Result<
        u64,
        VaultError,
    >)
        requires
            propose_error(old(env)@, proposer) is None ==> old(env)@.proposal_count < u64::MAX,
        ensures
            ends_with(r, propose_error(old(env)@, proposer)),
            match r {
                Ok(id) => {
                    &&& id == old(env)@.proposal_count + 1
                    &&& final(env)@ == proposed(
                        old(env)@,
                        proposer,
                        Change::Token(new_token),
                    )
                },
                Err(_) => final(env)@ == old(env)@,
            },
    {
        create_proposal(env, proposer, ProposalType::UpdateUnderlyingToken(new_token))
    }

    /// Proposes to set the parameter `name` to `value`, and returns the ID of
    /// the proposal.
    pub fn propose_parameter_update(
        env: &mut Env,
        proposer: Address,
        name: &str,
        value: i128,
    ) -> (r: Result<u64, VaultError>)
        requires
            propose_error(old(env)@, proposer) is None ==> old(env)@.proposal_count < u64::MAX,
        ensures
            ends_with(r, propose_error(old(env)@, proposer)),
            match r {
                Ok(id) => {
                    &&& id == old(env)@.proposal_count + 1
                    &&& final(env)@ == proposed(
                        old(env)@,
                        proposer,
                        Change::Named(name@, value),
                    )
                },
                Err(_) => final(env)@ == old(env)@,
            },
    {
        create_proposal(env, proposer, ProposalType::UpdateParameter(name.to_string(), value))
    }

    /// Votes for or against a pending proposal. A signer votes once.
    pub fn vote(env: &mut Env, voter: Address, proposal_id: u64, approve: bool) -> (r: Result<
        (),
        VaultError,
    >)
        ensures
            ends_with(r, vote_error(old(env)@, voter, proposal_id)),
            final(env)@ == (if r is Ok {
                voted(old(env)@, voter, proposal_id, approve)
            } else {
                old(env)@
            }),
    {
        vote_on_proposal(env, voter, proposal_id, approve)
    }

    /// Executes an approved proposal once its timelock is over. Anybody may.
    pub fn execute(env: &mut Env, executor: Address, proposal_id: u64) -> (r: Result<
        (),
        VaultError,
    >)
        ensures
            ends_with(r, execute_error(old(env)@, executor, proposal_id)),
            final(env)@ == (if r is Ok {
                executed(old(env)@, proposal_id)
            } else {
                old(env)@
            }),
    {
        execute_proposal(env, executor, proposal_id)
    }

    /// The status of a proposal in a word: `Pending`, `Approved`, `Executed`
    /// or `Rejected`.
    pub fn proposal_status(env: &Env, proposal_id: u64) -> (r: Option<&'static str>)
        ensures
            match r {
                Some(word) => {
                    &&& env@.proposals.contains_key(proposal_id)
                    &&& word@ == proposal_word(env@.proposals[proposal_id].status)
                },
                None => !env@.proposals.contains_key(proposal_id),
            },
    {
        match get_proposal_status(env, proposal_id) {
            None => None,
            Some(ProposalStatus::Pending) => Some("Pending"),
            Some(ProposalStatus::Ready) => Some("Approved"),
            Some(ProposalStatus::Executed) => Some("Executed"),
            Some(ProposalStatus::Expired) => Some("Rejected"),
        }
    }
}

} // verus!
