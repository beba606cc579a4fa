//! From the chain's view of a proposal's life to the schema's status, and the
//! status filter of a listing.

use vstd::prelude::*;
use crate::governance::native::{
    Epoch, ProposalResult, ProposalResultView, ProposalStatus, StorageProposal,
    StorageProposalView, TallyResult,
};
use crate::model::gov::CosmosProposalStatus;

verus! {

/// The schema's status for a proposal in lifecycle phase `namada_status` whose
/// tally, where there is one, came out as `result`.
///
/// A proposal whose voting has closed and for which no outcome is known is
/// reported as failed.
pub open spec fn cosmos_status(
    namada_status: ProposalStatus,
    result: Option<TallyResult>,
) -> CosmosProposalStatus {
    match namada_status {
        ProposalStatus::Pending => CosmosProposalStatus::PROPOSAL_STATUS_DEPOSIT_PERIOD,
        ProposalStatus::OnGoing => CosmosProposalStatus::PROPOSAL_STATUS_VOTING_PERIOD,
        ProposalStatus::Ended => match result {
            Some(TallyResult::Passed) => CosmosProposalStatus::PROPOSAL_STATUS_PASSED,
            Some(TallyResult::Rejected) => CosmosProposalStatus::PROPOSAL_STATUS_REJECTED,
            None => CosmosProposalStatus::PROPOSAL_STATUS_FAILED,
        },
    }
}

/// The outcome that a tally carries, where there is a tally.
pub open spec fn outcome_of(tally: Option<ProposalResultView>) -> Option<TallyResult> {
    match tally {
        Some(t) => Some(t.result),
        None => None,
    }
}

/// The schema's status of `record` at `epoch`, given its tally.
pub open spec fn translated_status(
    record: StorageProposalView,
    epoch: Epoch,
    tally: Option<ProposalResultView>,
) -> CosmosProposalStatus {
    cosmos_status(record.status(epoch), outcome_of(tally))
}

/// Whether a listing that asked for `query_status` shows a proposal of status
/// `proposal_status`: every proposal where nothing was asked for, else the
/// proposals whose status has the number asked for.
pub open spec fn status_matches(
    query_status: Option<u32>,
    proposal_status: CosmosProposalStatus,
) -> bool {
    match query_status {
        Some(wanted) => wanted == proposal_status.code_spec(),
        None => true,
    }
}

/// Maps the chain's lifecycle phase, with the tally's outcome where one is
/// known, to the schema's status.
pub fn map_status_namada_to_cosmos(
    namada_status: ProposalStatus,
    result: Option<TallyResult>,
) -> (status: CosmosProposalStatus)
    ensures
        status == cosmos_status(namada_status, result),
{
    match namada_status {
        ProposalStatus::Pending => CosmosProposalStatus::PROPOSAL_STATUS_DEPOSIT_PERIOD,
        ProposalStatus::OnGoing => CosmosProposalStatus::PROPOSAL_STATUS_VOTING_PERIOD,
        ProposalStatus::Ended => match result {
            Some(TallyResult::Passed) => CosmosProposalStatus::PROPOSAL_STATUS_PASSED,
            Some(TallyResult::Rejected) => CosmosProposalStatus::PROPOSAL_STATUS_REJECTED,
            None => CosmosProposalStatus::PROPOSAL_STATUS_FAILED,
        },
    }
}

/// The schema's status of `record` at `epoch`, given its tally where one could
/// be had.
pub fn translate_status(
    record: &StorageProposal,
    epoch: Epoch,
    tally: &Option<ProposalResult>,
) -> (status: CosmosProposalStatus)
    ensures
        status == translated_status(record.deep_view(), epoch, tally.deep_view()),
{
    let outcome = match tally {
        Some(t) => Some(t.result),
        None => None,
    };
    map_status_namada_to_cosmos(record.get_status(epoch), outcome)
}

/// Whether a listing that asked for `query_status` shows a proposal of status
/// `proposal_status`.
pub fn filter_proposal_by_status(
    query_status: Option<u32>,
    proposal_status: CosmosProposalStatus,
) -> (keep: bool)
    ensures
        keep == status_matches(query_status, proposal_status),
{
    let status_u32: u32 = u32::from(proposal_status);
    match query_status {
        Some(query_status) => query_status == status_u32,
        None => true,
    }
}

/// The translation never names a proposal passed or rejected unless its
/// voting has closed with that outcome, and every proposal whose voting has
/// closed without a known outcome is named failed.
pub proof fn lemma_status_translation(namada_status: ProposalStatus, result: Option<TallyResult>)
    ensures
        cosmos_status(namada_status, result) == CosmosProposalStatus::PROPOSAL_STATUS_PASSED
            <==> namada_status == ProposalStatus::Ended && result == Some(TallyResult::Passed),
        cosmos_status(namada_status, result) == CosmosProposalStatus::PROPOSAL_STATUS_REJECTED
            <==> namada_status == ProposalStatus::Ended && result == Some(TallyResult::Rejected),
        cosmos_status(namada_status, result) == CosmosProposalStatus::PROPOSAL_STATUS_FAILED
            <==> namada_status == ProposalStatus::Ended && result.is_none(),
        cosmos_status(namada_status, result)
            == CosmosProposalStatus::PROPOSAL_STATUS_DEPOSIT_PERIOD <==> namada_status
            == ProposalStatus::Pending,
        cosmos_status(namada_status, result)
            == CosmosProposalStatus::PROPOSAL_STATUS_VOTING_PERIOD <==> namada_status
            == ProposalStatus::OnGoing,
{
}

} // verus!
