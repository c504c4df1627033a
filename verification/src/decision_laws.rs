use crate::address::Address;
use crate::env::{Ballot, Model, Vote};
use crate::errors::VaultError;
use crate::events::Event;
use crate::governance::{
    applicable, applied, counted, execute_error, executed, has_voted, parameter_named,
    propose_error, proposal_word, proposed, vote_error, voted, Change, Parameter, ProposalModel,
    ProposalStatus,
};
use crate::multisig::{
    execute_operation_error, expired, open_error, operated, operation_executed,
    operation_progress, operation_proposed, operation_signed, operation_word, remove_signer_error,
    sign_error, signer_error, threshold_error, with_signer, OpType, Operation,
};
use vstd::prelude::*;

verus! {

/// Somebody has voted on a proposal exactly if a ballot of theirs on it is
/// stored, whichever way it went.
pub proof fn law_ballots_show_who_voted(m: Model, proposal_id: u64, voter: Address)
    ensures
        has_voted(m, proposal_id, voter) <==> exists|i: int|
            0 <= i < m.proposal_votes.len() && #[trigger] m.proposal_votes[i].id == proposal_id
                && m.proposal_votes[i].voter == voter,
{
    if exists|i: int|
        0 <= i < m.proposal_votes.len() && #[trigger] m.proposal_votes[i].id == proposal_id
            && m.proposal_votes[i].voter == voter {
        let i = choose|i: int|
            0 <= i < m.proposal_votes.len() && #[trigger] m.proposal_votes[i].id == proposal_id
                && m.proposal_votes[i].voter == voter;
        let ballot = m.proposal_votes[i];
        assert(m.proposal_votes.contains(ballot));
        assert(ballot == Ballot { id: proposal_id, voter, approve: ballot.approve });
    }
    if has_voted(m, proposal_id, voter) {
        let approve = m.proposal_votes.contains(Ballot { id: proposal_id, voter, approve: true });
        let ballot = Ballot { id: proposal_id, voter, approve };
        let i = choose|i: int| 0 <= i < m.proposal_votes.len() && m.proposal_votes[i] == ballot;
        assert(m.proposal_votes[i].id == proposal_id);
    }
}

/// What the answers to a proposal, a vote and an execution tell.
pub proof fn law_answers_in_governance(m: Model, caller: Address, id: u64)
    ensures
        ({
            let called = !m.locked && m.has_auth(caller);
            let signs = m.governance_signers.contains(caller);
            let known = m.proposals.contains_key(id);
            let proposal = m.proposals[id];
            let pending = proposal.status == ProposalStatus::Pending;
            let ripe = proposal.status == ProposalStatus::Ready && m.timestamp
                >= proposal.approved_at + 86_400;
            &&& match propose_error(m, caller) {
                None => called && signs,
                Some(VaultError::Reentrancy) => m.locked,
                Some(VaultError::NotAuthorized) => !m.locked && !m.has_auth(caller),
                Some(VaultError::InvalidAddress) => called && !signs,
                Some(_) => false,
            }
            &&& match vote_error(m, caller, id) {
                None => called && signs && known && pending && !has_voted(m, id, caller),
                Some(VaultError::Reentrancy) => m.locked,
                Some(VaultError::NotAuthorized) => !m.locked && !m.has_auth(caller),
                Some(VaultError::NotInitialized) => called && signs && !known,
                Some(VaultError::InvalidAddress) => called && (!signs || known && (!pending
                    || has_voted(m, id, caller))),
                Some(_) => false,
            }
            &&& match execute_error(m, caller, id) {
                None => called && known && ripe && applicable(proposal.kind),
                Some(VaultError::Reentrancy) => m.locked,
                Some(VaultError::NotAuthorized) => !m.locked && !m.has_auth(caller),
                Some(VaultError::NotInitialized) => called && !known,
                Some(VaultError::InvalidAddress) => called && known && !ripe,
                Some(VaultError::MathOverflow) => called && known && ripe && !applicable(
                    proposal.kind,
                ),
                Some(_) => false,
            }
        }),
{
}

/// A new proposal stands under the next ID, pending and without approvals, and
/// keeps what it proposes. Nothing else changes.
pub proof fn law_proposals_are_kept_as_made(m: Model, proposer: Address, kind: Change)
    requires
        m.proposal_count < u64::MAX,
    ensures
        ({
            let after = proposed(m, proposer, kind);
            let id = after.proposal_count;
            let proposal = after.proposals[id];
            &&& id == m.proposal_count + 1
            &&& after.proposals.contains_key(id)
            &&& proposal.proposer == proposer
            &&& proposal.kind == kind
            &&& proposal.status == ProposalStatus::Pending
            &&& proposal.approvals == 0
            &&& proposal.approved_at == 0
            &&& after.proposals.remove(id) == m.proposals.remove(id)
            &&& after == (Model { proposal_count: id, proposals: after.proposals, ..m })
        }),
{
    let after = proposed(m, proposer, kind);
    assert(after.proposals.remove(after.proposal_count) =~= m.proposals.remove(
        after.proposal_count,
    ));
}

/// A vote is recorded. A vote for a proposal counts one more approval, a vote
/// against it none, and the proposal is approved, at that very time, exactly by
/// the vote that brings its approvals to three. Nothing else changes.
pub proof fn law_votes_count_once(m: Model, voter: Address, id: u64, approve: bool)
    requires
        vote_error(m, voter, id) is None,
        m.proposals[id].approvals < u32::MAX,
    ensures
        ({
            let after = voted(m, voter, id, approve);
            let was = m.proposals[id];
            let is = after.proposals[id];
            &&& after.proposal_votes == m.proposal_votes.push(Ballot { id, voter, approve })
            &&& after.proposals.contains_key(id)
            &&& after.proposals.remove(id) == m.proposals.remove(id)
            &&& is.approvals == was.approvals + (if approve {
                1int
            } else {
                0int
            })
            &&& is.approvals >= 3 ==> is.status == ProposalStatus::Ready && is.approved_at
                == m.timestamp
            &&& is.approvals < 3 ==> is.status == ProposalStatus::Pending && is.approved_at
                == was.approved_at
            &&& is.kind == was.kind
            &&& is.proposer == was.proposer
            &&& after == (Model {
                proposals: after.proposals,
                proposal_votes: after.proposal_votes,
                ..m
            })
        }),
        counted(u32::MAX) == u32::MAX,
{
    assert(voted(m, voter, id, approve).proposals.remove(id) =~= m.proposals.remove(id));
}

/// What names stand for: three settings, and nothing besides.
pub proof fn law_names_stand_for_settings(name: Seq<char>)
    ensures
        parameter_named("perf_fee_bps"@) == Parameter::PerfFeeBps,
        parameter_named("mgmt_fee_bps"@) == Parameter::MgmtFeeBps,
        parameter_named("tvl_cap"@) == Parameter::TvlCap,
        name != "perf_fee_bps"@ && name != "mgmt_fee_bps"@ && name != "tvl_cap"@
            ==> parameter_named(name) == Parameter::Other,
{
    reveal_strlit("perf_fee_bps");
    reveal_strlit("mgmt_fee_bps");
    reveal_strlit("tvl_cap");
    assert("perf_fee_bps"@[0] != "mgmt_fee_bps"@[0]);
    assert("perf_fee_bps"@[0] != "tvl_cap"@[0]);
    assert("mgmt_fee_bps"@[0] != "tvl_cap"@[0]);
}

/// An executed proposal sets exactly what it proposed, and is executed. A fee
/// has to be a number that a fee can be; every other change can be made. A name
/// that stands for no setting changes nothing.
pub proof fn law_executed_proposals_take_effect(m: Model, id: u64, name: Seq<char>, value: i128)
    ensures
        ({
            let kind = m.proposals[id].kind;
            let after = executed(m, id);
            let was = m.proposals[id];
            let settled = Model { proposals: after.proposals, ..m };
            &&& after.proposals.remove(id) == m.proposals.remove(id)
            &&& after.proposals.contains_key(id)
            &&& after.proposals[id] == (ProposalModel { status: ProposalStatus::Executed, ..was })
            &&& kind matches Change::Admin(a) ==> after == (Model {
                    admin: Some(a),
                    ..settled
                })
            &&& kind matches Change::Token(t) ==> after == (Model {
                    token: Some(t),
                    ..settled
                })
            &&& kind == Change::Named("perf_fee_bps"@, value) && 0 <= value <= u32::MAX ==> after
                == (Model { perf_fee_bps: value as u32, ..settled })
            &&& kind == Change::Named("mgmt_fee_bps"@, value) && 0 <= value <= u32::MAX ==> after
                == (Model { mgmt_fee_bps: value as u32, ..settled })
            &&& kind == Change::Named("tvl_cap"@, value) ==> after == (Model {
                tvl_cap: value,
                ..settled
            })
            &&& kind == Change::Named(name, value) && name != "perf_fee_bps"@ && name
                != "mgmt_fee_bps"@ && name != "tvl_cap"@ ==> after == settled
            &&& after == (Model { proposals: after.proposals, ..applied(m, kind) })
        }),
        applicable(Change::Named("perf_fee_bps"@, value)) <==> 0 <= value <= 0xffff_ffff,
        applicable(Change::Named("mgmt_fee_bps"@, value)) <==> 0 <= value <= 0xffff_ffff,
        name != "perf_fee_bps"@ && name != "mgmt_fee_bps"@ ==> applicable(
            Change::Named(name, value),
        ),
        m.proposals[id].kind is Admin || m.proposals[id].kind is Token ==> applicable(
            m.proposals[id].kind,
        ),
{
    law_names_stand_for_settings(name);
    assert(executed(m, id).proposals.remove(id) =~= m.proposals.remove(id));
}

/// The words for a status.
pub proof fn law_words_for_a_status()
    ensures
        proposal_word(ProposalStatus::Pending) == "Pending"@,
        proposal_word(ProposalStatus::Ready) == "Approved"@,
        proposal_word(ProposalStatus::Executed) == "Executed"@,
        proposal_word(ProposalStatus::Expired) == "Rejected"@,
        operation_word(ProposalStatus::Pending) == "Pending"@,
        operation_word(ProposalStatus::Ready) == "Ready"@,
        operation_word(ProposalStatus::Executed) == "Executed"@,
        operation_word(ProposalStatus::Expired) == "Expired"@,
{
}

/// What the answers to signers tell: only signers propose, sign and execute, an
/// operation is open until it is executed or 72 hours are over, it is signed
/// once by each, and executed with as many signatures as the threshold asks.
pub proof fn law_answers_to_signers(m: Model, caller: Address, id: u64)
    ensures
        ({
            let admitted = !m.locked && m.has_auth(caller) && m.multisig_signers.contains(caller);
            let known = m.multisig_ops.contains_key(id);
            let op = m.multisig_ops[id];
            let over = m.timestamp > op.created_at + 259_200;
            let open = admitted && known && !op.executed && !over;
            let signed = m.multisig_votes.contains(Vote { id, voter: caller });
            let refused = |e: Option<VaultError>|
                match e {
                    Some(VaultError::Reentrancy) => m.locked,
                    Some(VaultError::NotAuthorized) => !m.locked && !m.has_auth(caller),
                    Some(VaultError::NotASigner) => !m.locked && m.has_auth(caller)
                        && !m.multisig_signers.contains(caller),
                    Some(VaultError::OperationNotFound) => admitted && !known,
                    Some(VaultError::OperationAlreadyExecuted) => admitted && known && op.executed,
                    Some(VaultError::OperationExpired) => admitted && known && !op.executed && over,
                    _ => false,
                };
            &&& match signer_error(m, caller) {
                None => admitted,
                e => refused(e) && !admitted,
            }
            &&& match open_error(m, caller, id) {
                None => open,
                e => refused(e),
            }
            &&& match sign_error(m, caller, id) {
                None => open && !signed,
                Some(VaultError::OperationAlreadySigned) => open && signed,
                e => refused(e),
            }
            &&& match execute_operation_error(m, caller, id) {
                None => open && op.approvals >= m.multisig_threshold,
                Some(VaultError::ThresholdNotMet) => open && op.approvals < m.multisig_threshold,
                e => refused(e),
            }
            &&& expired(op, m.timestamp) <==> over
            &&& match operation_progress(m, id) {
                ProposalStatus::Executed => op.executed,
                ProposalStatus::Expired => !op.executed && over,
                ProposalStatus::Ready => !op.executed && !over && op.approvals
                    >= m.multisig_threshold,
                ProposalStatus::Pending => !op.executed && !over && op.approvals
                    < m.multisig_threshold,
            }
        }),
{
}

/// A new operation stands under the next ID with one signature, its proposer's,
/// and keeps what it sets. Nothing else changes.
pub proof fn law_operations_are_kept_as_made(m: Model, proposer: Address, op: OpType)
    requires
        m.multisig_op_count < u64::MAX,
    ensures
        ({
            let after = operation_proposed(m, proposer, op);
            let id = after.multisig_op_count;
            let operation = after.multisig_ops[id];
            &&& id == m.multisig_op_count + 1
            &&& after.multisig_ops.contains_key(id)
            &&& operation.proposer == proposer
            &&& operation.op == op
            &&& operation.created_at == m.timestamp
            &&& operation.approvals == 1
            &&& !operation.executed
            &&& after.multisig_ops.remove(id) == m.multisig_ops.remove(id)
            &&& after.multisig_votes == m.multisig_votes.push(Vote { id, voter: proposer })
            &&& after.events == m.events.push(Event::OperationProposed { proposer, op_id: id })
            &&& after == (Model {
                multisig_op_count: id,
                multisig_ops: after.multisig_ops,
                multisig_votes: after.multisig_votes,
                events: after.events,
                ..m
            })
        }),
{
    let after = operation_proposed(m, proposer, op);
    assert(after.multisig_ops.remove(after.multisig_op_count) =~= m.multisig_ops.remove(
        after.multisig_op_count,
    ));
}

/// A signature is recorded and counts one more. Nothing else changes.
pub proof fn law_signatures_count_once(m: Model, signer: Address, id: u64)
    requires
        sign_error(m, signer, id) is None,
        m.multisig_ops[id].approvals < u32::MAX,
    ensures
        ({
            let after = operation_signed(m, signer, id);
            let was = m.multisig_ops[id];
            let is = after.multisig_ops[id];
            &&& after.multisig_ops.contains_key(id)
            &&& is.approvals == was.approvals + 1
            &&& is == (Operation { approvals: is.approvals, ..was })
            &&& after.multisig_ops.remove(id) == m.multisig_ops.remove(id)
            &&& after.multisig_votes == m.multisig_votes.push(Vote { id, voter: signer })
            &&& after.events == m.events.push(
                Event::OperationSigned { signer, op_id: id, approvals: is.approvals },
            )
            &&& after == (Model {
                multisig_ops: after.multisig_ops,
                multisig_votes: after.multisig_votes,
                events: after.events,
                ..m
            })
        }),
{
    assert(operation_signed(m, signer, id).multisig_ops.remove(id) =~= m.multisig_ops.remove(id));
}

/// An executed operation sets exactly what it was made for, and is executed.
pub proof fn law_executed_operations_take_effect(m: Model, executor: Address, id: u64)
    ensures
        ({
            let was = m.multisig_ops[id];
            let after = operation_executed(m, executor, id);
            let settled = Model { multisig_ops: after.multisig_ops, events: after.events, ..m };
            &&& after.multisig_ops.remove(id) == m.multisig_ops.remove(id)
            &&& after.multisig_ops.contains_key(id)
            &&& after.multisig_ops[id] == (Operation { executed: true, ..was })
            &&& after.events == m.events.push(Event::OperationExecuted { executor, op_id: id })
            &&& was.op matches OpType::SetPerfFee(bps) ==> after == (Model {
                    perf_fee_bps: bps,
                    ..settled
                })
            &&& was.op matches OpType::SetMgmtFee(bps) ==> after == (Model {
                    mgmt_fee_bps: bps,
                    ..settled
                })
            &&& was.op matches OpType::SetTvlCap(cap) ==> after == (Model {
                    tvl_cap: cap,
                    ..settled
                })
            &&& after == (Model {
                multisig_ops: after.multisig_ops,
                events: after.events,
                ..operated(m, was.op)
            })
        }),
{
    assert(operation_executed(m, executor, id).multisig_ops.remove(id)
        =~= m.multisig_ops.remove(id));
}

/// What the admin is told about signers and thresholds, and what becomes of the
/// list: a new signer comes last, and one who is listed is not listed again.
pub proof fn law_answers_about_signers(m: Model, admin: Address, signer: Address, threshold: u32)
    ensures
        ({
            let admitted = !m.locked && m.admin == Some(admin) && m.has_auth(admin);
            let listed = m.multisig_signers.contains(signer);
            let count = m.multisig_signers.len();
            let refused = |e: Option<VaultError>|
                match e {
                    Some(VaultError::Reentrancy) => m.locked,
                    Some(VaultError::NotInitialized) => !m.locked && m.admin is None,
                    Some(VaultError::UpgradeUnauthorized) => !m.locked && m.admin is Some && m.admin
                        != Some(admin),
                    Some(VaultError::NotAuthorized) => !m.locked && m.admin == Some(admin)
                        && !m.has_auth(admin),
                    _ => false,
                };
            &&& match remove_signer_error(m, admin, signer) {
                None => admitted && listed && m.multisig_threshold < count,
                Some(VaultError::NotASigner) => admitted && !listed,
                Some(VaultError::InvalidThreshold) => admitted && listed && m.multisig_threshold
                    >= count,
                e => refused(e),
            }
            &&& match threshold_error(m, admin, threshold) {
                None => admitted && 1 <= threshold <= count,
                Some(VaultError::InvalidThreshold) => admitted && (threshold < 1 || threshold
                    > count),
                e => refused(e),
            }
            &&& listed ==> with_signer(m.multisig_signers, signer) == m.multisig_signers
            &&& !listed ==> with_signer(m.multisig_signers, signer) == m.multisig_signers.push(
                signer,
            )
        }),
{
}

} // verus!
