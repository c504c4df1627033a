use crate::address::Address;
use crate::env::{Ballot, Model, Vote};
use crate::errors::VaultError;
use crate::governance::{
    execute_error, executed, has_voted, propose_error, proposed, vote_error, voted,
    Change, ProposalStatus, REQUIRED_SIGNATURES, TIMELOCK_DURATION,
};
use crate::multisig::{
    execute_operation_error, operation_executed, operation_proposed, operation_signed,
    remove_signer_error, sign_error, signer_error, threshold_error, with_signer, OpType,
};
use crate::storage::MULTISIG_EXPIRY_SECS;
use vstd::prelude::*;

verus! {

/// The addresses that have signed an operation.
pub open spec fn signers_of(m: Model, op_id: u64) -> Set<Address> {
    Set::new(|a: Address| m.multisig_votes.contains(Vote { id: op_id, voter: a }))
}

/// The addresses that have voted for a proposal.
pub open spec fn approvers_of(m: Model, proposal_id: u64) -> Set<Address> {
    Set::new(
        |a: Address|
            m.proposal_votes.contains(Ballot { id: proposal_id, voter: a, approve: true }),
    )
}

/// No operation counts more signatures than there are addresses that signed
/// it, and every operation and every signature has an ID that was handed out.
pub open spec fn signatures_in_order(m: Model) -> bool {
    &&& forall|id: u64| #[trigger]
        m.multisig_ops.contains_key(id) ==> {
            &&& id <= m.multisig_op_count
            &&& signers_of(m, id).finite()
            &&& m.multisig_ops[id].approvals <= signers_of(m, id).len()
        }
    &&& forall|vote: Vote| #[trigger]
        m.multisig_votes.contains(vote) ==> vote.id <= m.multisig_op_count
}

/// No proposal counts more approvals than there are addresses that voted for
/// it, none is approved or executed without the required approvals, and every
/// proposal and every vote has an ID that was handed out.
pub open spec fn votes_in_order(m: Model) -> bool {
    &&& forall|id: u64| #[trigger]
        m.proposals.contains_key(id) ==> {
            &&& id <= m.proposal_count
            &&& approvers_of(m, id).finite()
            &&& m.proposals[id].approvals <= approvers_of(m, id).len()
            &&& m.proposals[id].status == ProposalStatus::Ready || m.proposals[id].status
                == ProposalStatus::Executed ==> m.proposals[id].approvals >= REQUIRED_SIGNATURES
        }
    &&& forall|ballot: Ballot| #[trigger]
        m.proposal_votes.contains(ballot) ==> ballot.id <= m.proposal_count
}

/// What a list holds after something was added to it.
proof fn lemma_push_contains<A>(s: Seq<A>, x: A)
    ensures
        forall|y: A| #[trigger] s.push(x).contains(y) <==> s.contains(y) || y == x,
{
    assert forall|y: A| #[trigger] s.push(x).contains(y) implies s.contains(y) || y == x by {
        let i = choose|i: int| 0 <= i < s.push(x).len() && s.push(x)[i] == y;
        if i < s.len() {
            assert(s[i] == y);
        }
    }
    assert forall|y: A| s.contains(y) || y == x implies #[trigger] s.push(x).contains(y) by {
        if s.contains(y) {
            let i = choose|i: int| 0 <= i < s.len() && s[i] == y;
            assert(s.push(x)[i] == y);
        } else {
            assert(s.push(x)[s.len() as int] == y);
        }
    }
}

/// In a fresh vault all signatures and votes are in order.
pub proof fn law_fresh_governance_is_in_order(timestamp: u64)
    ensures
        signatures_in_order(Model::fresh(timestamp)),
        votes_in_order(Model::fresh(timestamp)),
{
}

/// A new operation starts with its proposer's signature and no other, and
/// signatures stay in order.
pub proof fn law_proposing_keeps_signatures_in_order(m: Model, proposer: Address, op: OpType)
    requires
        signatures_in_order(m),
        m.multisig_op_count < u64::MAX,
    ensures
        signatures_in_order(operation_proposed(m, proposer, op)),
        signers_of(
            operation_proposed(m, proposer, op),
            (m.multisig_op_count + 1) as u64,
        ) == set![proposer],
{
    let n = operation_proposed(m, proposer, op);
    let new_id = (m.multisig_op_count + 1) as u64;
    let vote = Vote { id: new_id, voter: proposer };
    lemma_push_contains(m.multisig_votes, vote);
    assert(signers_of(n, new_id) =~= set![proposer]);
    assert forall|id: u64| #[trigger] n.multisig_ops.contains_key(id) implies {
        &&& id <= n.multisig_op_count
        &&& signers_of(n, id).finite()
        &&& n.multisig_ops[id].approvals <= signers_of(n, id).len()
    } by {
        if id != new_id {
            assert(m.multisig_ops.contains_key(id));
            assert(signers_of(n, id) =~= signers_of(m, id));
        }
    }
}

/// A signature counts once, and signatures stay in order.
pub proof fn law_signing_keeps_signatures_in_order(m: Model, signer: Address, op_id: u64)
    requires
        signatures_in_order(m),
        sign_error(m, signer, op_id) is None,
    ensures
        signatures_in_order(operation_signed(m, signer, op_id)),
        signers_of(operation_signed(m, signer, op_id), op_id) == signers_of(m, op_id).insert(
            signer,
        ),
        !signers_of(m, op_id).contains(signer),
{
    let n = operation_signed(m, signer, op_id);
    let vote = Vote { id: op_id, voter: signer };
    lemma_push_contains(m.multisig_votes, vote);
    assert(signers_of(n, op_id) =~= signers_of(m, op_id).insert(signer));
    assert forall|id: u64| #[trigger] n.multisig_ops.contains_key(id) implies {
        &&& id <= n.multisig_op_count
        &&& signers_of(n, id).finite()
        &&& n.multisig_ops[id].approvals <= signers_of(n, id).len()
    } by {
        assert(m.multisig_ops.contains_key(id));
        if id != op_id {
            assert(signers_of(n, id) =~= signers_of(m, id));
        }
    }
}

/// Executing an operation leaves signatures in order.
pub proof fn law_executing_keeps_signatures_in_order(m: Model, executor: Address, op_id: u64)
    requires
        signatures_in_order(m),
        execute_operation_error(m, executor, op_id) is None,
    ensures
        signatures_in_order(operation_executed(m, executor, op_id)),
{
    let n = operation_executed(m, executor, op_id);
    assert forall|id: u64| #[trigger] n.multisig_ops.contains_key(id) implies {
        &&& id <= n.multisig_op_count
        &&& signers_of(n, id).finite()
        &&& n.multisig_ops[id].approvals <= signers_of(n, id).len()
    } by {
        assert(m.multisig_ops.contains_key(id));
        assert(signers_of(n, id) =~= signers_of(m, id));
    }
}

/// An operation is executed only when at least as many different addresses
/// have signed it as the threshold asks for, within its 72 hours, by a signer.
pub proof fn law_operations_need_enough_signers(m: Model, executor: Address, op_id: u64)
    requires
        signatures_in_order(m),
        execute_operation_error(m, executor, op_id) is None,
    ensures
        signers_of(m, op_id).finite(),
        signers_of(m, op_id).len() >= m.multisig_threshold,
        m.timestamp <= m.multisig_ops[op_id].created_at + MULTISIG_EXPIRY_SECS,
        m.multisig_signers.contains(executor),
{
    assert(m.multisig_ops.contains_key(op_id));
}

/// An operation is signed once by each signer and executed once.
pub proof fn law_operations_happen_once(m: Model, signer: Address, again: Address, op_id: u64)
    ensures
        sign_error(m, signer, op_id) is None ==> sign_error(
            operation_signed(m, signer, op_id),
            signer,
            op_id,
        ) == Some(VaultError::OperationAlreadySigned),
        execute_operation_error(m, signer, op_id) is None && signer_error(m, again) is None ==> {
            let after = operation_executed(m, signer, op_id);
            &&& execute_operation_error(after, again, op_id) == Some(
                VaultError::OperationAlreadyExecuted,
            )
            &&& sign_error(after, again, op_id) == Some(VaultError::OperationAlreadyExecuted)
        },
{
    lemma_push_contains(m.multisig_votes, Vote { id: op_id, voter: signer });
}

/// The threshold stays between one and the number of signers: neither a new
/// threshold nor the removal of a signer can make it unreachable, and adding
/// a signer helps.
pub proof fn law_threshold_stays_reachable(
    m: Model,
    admin: Address,
    signer: Address,
    threshold: u32,
)
    ensures
        threshold_error(m, admin, threshold) is None ==> 1 <= threshold
            <= m.multisig_signers.len(),
        remove_signer_error(m, admin, signer) is None ==> m.multisig_threshold
            <= m.multisig_signers.remove_value(signer).len(),
        with_signer(m.multisig_signers, signer).len() >= m.multisig_signers.len(),
{
    m.multisig_signers.index_of_first_ensures(signer);
}

/// An added signer may propose, and a removed one may not, as long as nobody
/// is listed twice.
pub proof fn law_signer_list_decides(m: Model, admin: Address, signer: Address)
    requires
        m.multisig_signers.no_duplicates(),
        !m.locked,
        m.has_auth(signer),
    ensures
        signer_error(
            Model { multisig_signers: with_signer(m.multisig_signers, signer), ..m },
            signer,
        ) is None,
        remove_signer_error(m, admin, signer) is None ==> signer_error(
            Model { multisig_signers: m.multisig_signers.remove_value(signer), ..m },
            signer,
        ) == Some(VaultError::NotASigner),
        with_signer(m.multisig_signers, signer).no_duplicates(),
        m.multisig_signers.remove_value(signer).no_duplicates(),
{
    lemma_push_contains(m.multisig_signers, signer);
    m.multisig_signers.index_of_first_ensures(signer);
    let left = m.multisig_signers.remove_value(signer);
    if m.multisig_signers.contains(signer) {
        let i = m.multisig_signers.index_of_first(signer)->0;
        assert forall|k: int| 0 <= k < left.len() implies left[k] != signer by {
            if k < i {
                assert(left[k] == m.multisig_signers[k]);
            } else {
                assert(left[k] == m.multisig_signers[k + 1]);
            }
        }
        assert(!left.contains(signer));
        assert forall|j: int, k: int|
            0 <= j < left.len() && 0 <= k < left.len() && j != k implies left[j] != left[k] by {
            let j0 = if j < i { j } else { j + 1 };
            let k0 = if k < i { k } else { k + 1 };
            assert(left[j] == m.multisig_signers[j0]);
            assert(left[k] == m.multisig_signers[k0]);
        }
    }
}

/// A new proposal has no votes, and votes stay in order.
pub proof fn law_proposing_keeps_votes_in_order(m: Model, proposer: Address, kind: Change)
    requires
        votes_in_order(m),
        m.proposal_count < u64::MAX,
    ensures
        votes_in_order(proposed(m, proposer, kind)),
        approvers_of(proposed(m, proposer, kind), (m.proposal_count + 1) as u64) == Set::<
            Address,
        >::empty(),
{
    let n = proposed(m, proposer, kind);
    let new_id = (m.proposal_count + 1) as u64;
    assert(approvers_of(n, new_id) =~= Set::<Address>::empty());
    assert forall|id: u64| #[trigger] n.proposals.contains_key(id) implies {
        &&& id <= n.proposal_count
        &&& approvers_of(n, id).finite()
        &&& n.proposals[id].approvals <= approvers_of(n, id).len()
        &&& n.proposals[id].status == ProposalStatus::Ready || n.proposals[id].status
            == ProposalStatus::Executed ==> n.proposals[id].approvals >= REQUIRED_SIGNATURES
    } by {
        if id != new_id {
            assert(m.proposals.contains_key(id));
            assert(approvers_of(n, id) =~= approvers_of(m, id));
        }
    }
}

/// A vote counts once, and votes stay in order.
pub proof fn law_voting_keeps_votes_in_order(
    m: Model,
    voter: Address,
    proposal_id: u64,
    approve: bool,
)
    requires
        votes_in_order(m),
        vote_error(m, voter, proposal_id) is None,
    ensures
        votes_in_order(voted(m, voter, proposal_id, approve)),
        vote_error(voted(m, voter, proposal_id, approve), voter, proposal_id) == Some(
            VaultError::InvalidAddress,
        ),
{
    let n = voted(m, voter, proposal_id, approve);
    let ballot = Ballot { id: proposal_id, voter, approve };
    lemma_push_contains(m.proposal_votes, ballot);
    assert(n.proposal_votes.contains(ballot));
    assert(has_voted(n, proposal_id, voter));
    if approve {
        assert(approvers_of(n, proposal_id) =~= approvers_of(m, proposal_id).insert(voter));
    } else {
        assert(approvers_of(n, proposal_id) =~= approvers_of(m, proposal_id));
    }
    assert forall|id: u64| #[trigger] n.proposals.contains_key(id) implies {
        &&& id <= n.proposal_count
        &&& approvers_of(n, id).finite()
        &&& n.proposals[id].approvals <= approvers_of(n, id).len()
        &&& n.proposals[id].status == ProposalStatus::Ready || n.proposals[id].status
            == ProposalStatus::Executed ==> n.proposals[id].approvals >= REQUIRED_SIGNATURES
    } by {
        assert(m.proposals.contains_key(id));
        if id != proposal_id {
            assert(approvers_of(n, id) =~= approvers_of(m, id));
        }
    }
}

/// A proposal is executed only when at least three different addresses have
/// voted for it, at least a day after its approval, and once.
pub proof fn law_proposals_need_approval_and_time(
    m: Model,
    executor: Address,
    again: Address,
    proposal_id: u64,
)
    requires
        votes_in_order(m),
        execute_error(m, executor, proposal_id) is None,
    ensures
        approvers_of(m, proposal_id).finite(),
        approvers_of(m, proposal_id).len() >= 3,
        m.timestamp >= m.proposals[proposal_id].approved_at + TIMELOCK_DURATION,
        votes_in_order(executed(m, proposal_id)),
        m.has_auth(again) ==> execute_error(executed(m, proposal_id), again, proposal_id) == Some(
            VaultError::InvalidAddress,
        ),
{
    assert(m.proposals.contains_key(proposal_id));
    let n = executed(m, proposal_id);
    assert forall|id: u64| #[trigger] n.proposals.contains_key(id) implies {
        &&& id <= n.proposal_count
        &&& approvers_of(n, id).finite()
        &&& n.proposals[id].approvals <= approvers_of(n, id).len()
        &&& n.proposals[id].status == ProposalStatus::Ready || n.proposals[id].status
            == ProposalStatus::Executed ==> n.proposals[id].approvals >= REQUIRED_SIGNATURES
    } by {
        assert(m.proposals.contains_key(id));
        assert(approvers_of(n, id) =~= approvers_of(m, id));
    }
}

/// Once a proposal is approved, nobody votes on it any more: what was approved
/// and when stays as it is until it is executed.
pub proof fn law_approval_closes_the_vote(m: Model, voter: Address, proposal_id: u64)
    requires
        m.proposals.contains_key(proposal_id),
        m.proposals[proposal_id].status != ProposalStatus::Pending,
    ensures
        vote_error(m, voter, proposal_id) is Some,
{
}

/// Only governance signers propose and vote.
pub proof fn law_only_signers_govern(m: Model, caller: Address, proposal_id: u64)
    requires
        !m.locked,
        m.has_auth(caller),
        !m.governance_signers.contains(caller),
    ensures
        propose_error(m, caller) == Some(VaultError::InvalidAddress),
        vote_error(m, caller, proposal_id) == Some(VaultError::InvalidAddress),
{
}

} // verus!
