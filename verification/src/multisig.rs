use crate::address::Address;
use crate::env::{contains_address, Env, Model, Vote};
use crate::errors::VaultError;
use crate::events::Event;
use crate::governance::{counted, ProposalStatus};
use crate::guard::{admin_error, ends_with, enter_as_admin, require_auth};
use crate::storage::{
    enter_reentrancy_guard, exit_reentrancy_guard, get_multisig_op_count, get_multisig_signers,
    get_multisig_threshold, has_multisig_signed, record_multisig_vote, set_mgmt_fee_bps,
    set_multisig_op_count, set_multisig_threshold, set_perf_fee_bps, set_tvl_cap,
    MULTISIG_EXPIRY_SECS,
};
use crate::vault::AuraVault;
use vstd::prelude::*;

verus! {

/// What an operation sets.
#[derive(Clone, Copy, Debug, PartialEq, Eq, Structural)]
pub enum OpType {
    SetPerfFee(u32),
    SetMgmtFee(u32),
    SetTvlCap(i128),
}

/// An operation that signers agree on.
#[derive(Clone, Copy, Debug, PartialEq, Eq, Structural)]
pub struct Operation {
    pub proposer: Address,
    pub op: OpType,
    /// When the operation was proposed.
    pub created_at: u64,
    /// Signers that have signed, the proposer among them.
    pub approvals: u32,
    pub executed: bool,
}

/// Whether an operation has outlived its 72 hours at time `now`.
pub open spec fn expired(operation: Operation, now: u64) -> bool {
    now - operation.created_at > MULTISIG_EXPIRY_SECS
}

/// How far an operation has come.
pub open spec fn operation_progress(m: Model, op_id: u64) -> ProposalStatus {
    let operation = m.multisig_ops[op_id];
    if operation.executed {
        ProposalStatus::Executed
    } else if expired(operation, m.timestamp) {
        ProposalStatus::Expired
    } else if operation.approvals >= m.multisig_threshold {
        ProposalStatus::Ready
    } else {
        ProposalStatus::Pending
    }
}

/// Why a call of a signer is refused.
pub open spec fn signer_error(m: Model, signer: Address) -> Option<VaultError> {
    if m.locked {
        Some(VaultError::Reentrancy)
    } else if !m.has_auth(signer) {
        Some(VaultError::NotAuthorized)
    } else if !m.multisig_signers.contains(signer) {
        Some(VaultError::NotASigner)
    } else {
        None
    }
}

/// The vault with a new operation under the next ID, signed by its proposer.
pub open spec fn operation_proposed(m: Model, proposer: Address, op: OpType) -> Model {
    let id = (m.multisig_op_count + 1) as u64;
    Model {
        multisig_op_count: id,
        multisig_ops: m.multisig_ops.insert(
            id,
            Operation { proposer, op, created_at: m.timestamp, approvals: 1, executed: false },
        ),
        multisig_votes: m.multisig_votes.push(Vote { id, voter: proposer }),
        ..m
    }.publish(Event::OperationProposed { proposer, op_id: id })
}

/// Why a signer is refused to go on with an operation: there is none, or it
/// is over.
pub open spec fn open_error(m: Model, signer: Address, op_id: u64) -> Option<VaultError> {
    if signer_error(m, signer) is Some {
        signer_error(m, signer)
    } else if !m.multisig_ops.contains_key(op_id) {
        Some(VaultError::OperationNotFound)
    } else if m.multisig_ops[op_id].executed {
        Some(VaultError::OperationAlreadyExecuted)
    } else if expired(m.multisig_ops[op_id], m.timestamp) {
        Some(VaultError::OperationExpired)
    } else {
        None
    }
}

/// Why a signature is refused.
pub open spec fn sign_error(m: Model, signer: Address, op_id: u64) -> Option<VaultError> {
    if open_error(m, signer, op_id) is Some {
        open_error(m, signer, op_id)
    } else if m.multisig_votes.contains(Vote { id: op_id, voter: signer }) {
        Some(VaultError::OperationAlreadySigned)
    } else {
        None
    }
}

/// The vault with one more signature under an operation.
pub open spec fn operation_signed(m: Model, signer: Address, op_id: u64) -> Model {
    let operation = m.multisig_ops[op_id];
    let approvals = counted(operation.approvals);
    Model {
        multisig_ops: m.multisig_ops.insert(op_id, Operation { approvals, ..operation }),
        multisig_votes: m.multisig_votes.push(Vote { id: op_id, voter: signer }),
        ..m
    }.publish(Event::OperationSigned { signer, op_id, approvals })
}

/// Why the execution of an operation is refused.
pub open spec fn execute_operation_error(m: Model, executor: Address, op_id: u64) -> Option<
    VaultError,
> {
    if open_error(m, executor, op_id) is Some {
        open_error(m, executor, op_id)
    } else if m.multisig_ops[op_id].approvals < m.multisig_threshold {
        Some(VaultError::ThresholdNotMet)
    } else {
        None
    }
}

/// The vault with what an operation sets.
pub open spec fn operated(m: Model, op: OpType) -> Model {
    match op {
        OpType::SetPerfFee(bps) => Model { perf_fee_bps: bps, ..m },
        OpType::SetMgmtFee(bps) => Model { mgmt_fee_bps: bps, ..m },
        OpType::SetTvlCap(cap) => Model { tvl_cap: cap, ..m },
    }
}

/// The vault after the execution of an operation.
pub open spec fn operation_executed(m: Model, executor: Address, op_id: u64) -> Model {
    let operation = m.multisig_ops[op_id];
    Model {
        multisig_ops: m.multisig_ops.insert(op_id, Operation { executed: true, ..operation }),
        ..operated(m, operation.op)
    }.publish(Event::OperationExecuted { executor, op_id })
}

/// The signers after `signer` was added; nobody is listed twice.
pub open spec fn with_signer(signers: Seq<Address>, signer: Address) -> Seq<Address> {
    if signers.contains(signer) {
        signers
    } else {
        signers.push(signer)
    }
}

/// Why the removal of a signer is refused: there is no such signer, or fewer
/// would be left than have to sign.
pub open spec fn remove_signer_error(m: Model, admin: Address, signer: Address) -> Option<
    VaultError,
> {
    if admin_error(m, admin) is Some {
        admin_error(m, admin)
    } else if !m.multisig_signers.contains(signer) {
        Some(VaultError::NotASigner)
    } else if m.multisig_signers.len() - 1 < m.multisig_threshold {
        Some(VaultError::InvalidThreshold)
    } else {
        None
    }
}

/// Why a threshold is refused: it is zero, or more than there are signers.
pub open spec fn threshold_error(m: Model, admin: Address, threshold: u32) -> Option<VaultError> {
    if admin_error(m, admin) is Some {
        admin_error(m, admin)
    } else if threshold == 0 || threshold > m.multisig_signers.len() {
        Some(VaultError::InvalidThreshold)
    } else {
        None
    }
}

/// The word for the progress of an operation.
pub open spec fn operation_word(status: ProposalStatus) -> Seq<char> {
    match status {
        ProposalStatus::Pending => "Pending"@,
        ProposalStatus::Ready => "Ready"@,
        ProposalStatus::Executed => "Executed"@,
        ProposalStatus::Expired => "Expired"@,
    }
}

/// Checks that `signer` may call.
fn check_signer(env: &Env, signer: Address) -> (r: Result<(), VaultError>)
    ensures
        ends_with(r, signer_error(env@, signer)),
{
    if env.locked {
        return Err(VaultError::Reentrancy);
    }
    require_auth(env, signer)?;
    if !contains_address(get_multisig_signers(env), signer) {
        return Err(VaultError::NotASigner);
    }
    Ok(())
}

/// Whether an operation has outlived its 72 hours at time `now`.
fn is_expired(operation: Operation, now: u64) -> (r: bool)
    ensures
        r == expired(operation, now),
{
    now.saturating_sub(operation.created_at) > MULTISIG_EXPIRY_SECS
}

/// The operation that `signer` may go on with.
fn open_operation(env: &Env, signer: Address, op_id: u64) -> (r: Result<Operation, VaultError>)
    ensures
        ends_with(r, open_error(env@, signer, op_id)),
        r is Ok ==> r->Ok_0 == env@.multisig_ops[op_id],
{
    check_signer(env, signer)?;
    let operation = env.multisig_ops.get(op_id).ok_or(VaultError::OperationNotFound)?;
    if operation.executed {
        return Err(VaultError::OperationAlreadyExecuted);
    }
    if is_expired(operation, env.timestamp) {
        return Err(VaultError::OperationExpired);
    }
    Ok(operation)
}

/// Where `addr` first stands in a list.
fn position(list: &Vec<Address>, addr: Address) -> (r: Option<usize>)
    ensures
        match r {
            Some(i) => list@.index_of_first(addr) == Some(i as int) && i < list@.len(),
            None => !list@.contains(addr),
        },
{
    let mut i: usize = 0;
    while i < list.len()
        invariant
            i <= list.len(),
            forall|k: int| 0 <= k < i ==> list@[k] != addr,
        decreases list.len() - i,
    {
        if list[i] == addr {
            proof {
                list@.index_of_first_ensures(addr);
            }
            return Some(i);
        }
        i = i + 1;
    }
    None
}

impl AuraVault {
    /// Proposes an operation, signs it, and returns its ID.
    pub fn propose_operation(env: &mut Env, proposer: Address, op: OpType) -> (r: Result<
        u64,
        VaultError,
    >)
        requires
            signer_error(old(env)@, proposer) is None ==> old(env)@.multisig_op_count < u64::MAX,
        ensures
            ends_with(r, signer_error(old(env)@, proposer)),
            match r {
                Ok(id) => {
                    &&& id == old(env)@.multisig_op_count + 1
                    &&& final(env)@ == operation_proposed(old(env)@, proposer, op)
                },
                Err(_) => final(env)@ == old(env)@,
            },
    {
        check_signer(env, proposer)?;
        enter_reentrancy_guard(env)?;
        let id: u64 = get_multisig_op_count(env) + 1;
        set_multisig_op_count(env, id);
        let created_at: u64 = env.timestamp;
        env.multisig_ops.set(
            id,
            Operation { proposer, op, created_at, approvals: 1, executed: false },
        );
        record_multisig_vote(env, id, proposer);
        env.publish(Event::OperationProposed { proposer, op_id: id });
        exit_reentrancy_guard(env);
        Ok(id)
    }

    /// Signs an operation. A signer signs once, and not after 72 hours.
    pub fn sign_operation(env: &mut Env, signer: Address, op_id: u64) -> (r: Result<(), VaultError>)
        ensures
            ends_with(r, sign_error(old(env)@, signer, op_id)),
            final(env)@ == (if r is Ok {
                operation_signed(old(env)@, signer, op_id)
            } else {
                old(env)@
            }),
    {
        let mut operation = open_operation(env, signer, op_id)?;
        if has_multisig_signed(env, op_id, signer) {
            return Err(VaultError::OperationAlreadySigned);
        }
        enter_reentrancy_guard(env)?;
        operation.approvals = operation.approvals.saturating_add(1);
        env.multisig_ops.set(op_id, operation);
        record_multisig_vote(env, op_id, signer);
        env.publish(
            Event::OperationSigned { signer, op_id, approvals: operation.approvals },
        );
        exit_reentrancy_guard(env);
        Ok(())
    }

    /// Executes an operation that enough signers have signed. Any signer may,
    /// once, and not after 72 hours.
    pub fn execute_operation(env: &mut Env, executor: Address, op_id: u64) -> (r: Result<
        (),
        VaultError,
    >)
        ensures
            ends_with(r, execute_operation_error(old(env)@, executor, op_id)),
            final(env)@ == (if r is Ok {
                operation_executed(old(env)@, executor, op_id)
            } else {
                old(env)@
            }),
    {
        let mut operation = open_operation(env, executor, op_id)?;
        if operation.approvals < get_multisig_threshold(env) {
            return Err(VaultError::ThresholdNotMet);
        }
        enter_reentrancy_guard(env)?;
        match operation.op {
            OpType::SetPerfFee(bps) => set_perf_fee_bps(env, bps),
            OpType::SetMgmtFee(bps) => set_mgmt_fee_bps(env, bps),
            OpType::SetTvlCap(cap) => set_tvl_cap(env, cap),
        }
        operation.executed = true;
        env.multisig_ops.set(op_id, operation);
        env.publish(Event::OperationExecuted { executor, op_id });
        exit_reentrancy_guard(env);
        Ok(())
    }

    /// The progress of an operation in a word: `Pending`, `Ready`, `Executed`
    /// or `Expired`.
    pub fn operation_status(env: &Env, op_id: u64) -> (r: Option<&'static str>)
        ensures
            match r {
                Some(word) => {
                    &&& env@.multisig_ops.contains_key(op_id)
                    &&& word@ == operation_word(operation_progress(env@, op_id))
                },
                None => !env@.multisig_ops.contains_key(op_id),
            },
    {
        match env.multisig_ops.get(op_id) {
            None => None,
            Some(operation) => {
                if operation.executed {
                    Some("Executed")
                } else if is_expired(operation, env.timestamp) {
                    Some("Expired")
                } else if operation.approvals >= get_multisig_threshold(env) {
                    Some("Ready")
                } else {
                    Some("Pending")
                }
            },
        }
    }

    /// Adds a signer.
    pub fn add_signer(env: &mut Env, admin: Address, signer: Address) -> (r: Result<
        (),
        VaultError,
    >)
        ensures
            ends_with(r, admin_error(old(env)@, admin)),
            final(env)@ == (if r is Ok {
                Model {
                    multisig_signers: with_signer(old(env)@.multisig_signers, signer),
                    ..old(env)@
                }
            } else {
                old(env)@
            }),
    {
        enter_as_admin(env, admin)?;
        if !contains_address(&env.multisig_signers, signer) {
            env.multisig_signers.push(signer);
        }
        exit_reentrancy_guard(env);
        Ok(())
    }

    /// Removes a signer, as long as enough are left to reach the threshold.
    pub fn remove_signer(env: &mut Env, admin: Address, signer: Address) -> (r: Result<
        (),
        VaultError,
    >)
        ensures
            ends_with(r, remove_signer_error(old(env)@, admin, signer)),
            final(env)@ == (if r is Ok {
                Model {
                    multisig_signers: old(env)@.multisig_signers.remove_value(signer),
                    ..old(env)@
                }
            } else {
                old(env)@
            }),
    {
        enter_as_admin(env, admin)?;
        let i: usize = match position(&env.multisig_signers, signer) {
            Some(i) => i,
            None => {
                exit_reentrancy_guard(env);
                return Err(VaultError::NotASigner);
            },
        };
        proof {
            env.multisig_signers@.index_of_first_ensures(signer);
        }
        let left: usize = env.multisig_signers.len() - 1;
        if left < get_multisig_threshold(env) as usize {
            exit_reentrancy_guard(env);
            return Err(VaultError::InvalidThreshold);
        }
        env.multisig_signers.remove(i);
        exit_reentrancy_guard(env);
        Ok(())
    }

    /// Sets the number of signatures that an operation needs.
    pub fn set_threshold(env: &mut Env, admin: Address, threshold: u32) -> (r: Result<
        (),
        VaultError,
    >)
        ensures
            ends_with(r, threshold_error(old(env)@, admin, threshold)),
            final(env)@ == (if r is Ok {
                Model { multisig_threshold: threshold, ..old(env)@ }
            } else {
                old(env)@
            }),
    {
        enter_as_admin(env, admin)?;
        if threshold == 0 || threshold as usize > env.multisig_signers.len() {
            exit_reentrancy_guard(env);
            return Err(VaultError::InvalidThreshold);
        }
        set_multisig_threshold(env, threshold);
        exit_reentrancy_guard(env);
        Ok(())
    }
}

} // verus!
