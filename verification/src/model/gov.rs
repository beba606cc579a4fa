//! Shapes of the governance area: proposals, tallies and parameters.

use vstd::prelude::*;
use vstd::string::StringExecFns;
use crate::model::shared::{
    DenomAmount, DenomAmountView, PaginationInfo, PaginationInfoView, PaginationQueryParams,
    SuffixedDur,
};

verus! {

/// The query string of a proposal listing.
#[derive(Clone, Copy, Debug)]
pub struct ProposalQueryParams {
    pub proposal_status: Option<u32>,
    pub pagination: Option<PaginationQueryParams>,
}

/// The status of a proposal in the vocabulary of the REST schema.
#[allow(non_camel_case_types)]
#[derive(Clone, Copy, Debug, PartialEq, Eq, Structural)]
pub enum CosmosProposalStatus {
    PROPOSAL_STATUS_DEPOSIT_PERIOD,
    PROPOSAL_STATUS_VOTING_PERIOD,
    PROPOSAL_STATUS_PASSED,
    PROPOSAL_STATUS_REJECTED,
    PROPOSAL_STATUS_FAILED,
}

impl CosmosProposalStatus {
    /// The number under which the schema knows this status.
    pub open spec fn code_spec(self) -> u32 {
        match self {
            CosmosProposalStatus::PROPOSAL_STATUS_DEPOSIT_PERIOD => 1,
            CosmosProposalStatus::PROPOSAL_STATUS_VOTING_PERIOD => 2,
            CosmosProposalStatus::PROPOSAL_STATUS_PASSED => 3,
            CosmosProposalStatus::PROPOSAL_STATUS_REJECTED => 4,
            CosmosProposalStatus::PROPOSAL_STATUS_FAILED => 5,
        }
    }

    /// The number under which the schema knows this status.
    #[verifier::when_used_as_spec(code_spec)]
    pub fn code(self) -> (n: u32)
        ensures
            n == self.code_spec(),
    {
        match self {
            CosmosProposalStatus::PROPOSAL_STATUS_DEPOSIT_PERIOD => 1,
            CosmosProposalStatus::PROPOSAL_STATUS_VOTING_PERIOD => 2,
            CosmosProposalStatus::PROPOSAL_STATUS_PASSED => 3,
            CosmosProposalStatus::PROPOSAL_STATUS_REJECTED => 4,
            CosmosProposalStatus::PROPOSAL_STATUS_FAILED => 5,
        }
    }

    /// The name of this status as the schema spells it.
    pub open spec fn name_spec(self) -> Seq<char> {
        match self {
            CosmosProposalStatus::PROPOSAL_STATUS_DEPOSIT_PERIOD => "PROPOSAL_STATUS_DEPOSIT_PERIOD"@,
            CosmosProposalStatus::PROPOSAL_STATUS_VOTING_PERIOD => "PROPOSAL_STATUS_VOTING_PERIOD"@,
            CosmosProposalStatus::PROPOSAL_STATUS_PASSED => "PROPOSAL_STATUS_PASSED"@,
            CosmosProposalStatus::PROPOSAL_STATUS_REJECTED => "PROPOSAL_STATUS_REJECTED"@,
            CosmosProposalStatus::PROPOSAL_STATUS_FAILED => "PROPOSAL_STATUS_FAILED"@,
        }
    }

    /// The name of this status as the schema spells it.
    pub fn to_string(&self) -> (s: String)
        ensures
            s@ == self.name_spec(),
    {
        match self {
            CosmosProposalStatus::PROPOSAL_STATUS_DEPOSIT_PERIOD => String::from_str(
                "PROPOSAL_STATUS_DEPOSIT_PERIOD",
            ),
            CosmosProposalStatus::PROPOSAL_STATUS_VOTING_PERIOD => String::from_str(
                "PROPOSAL_STATUS_VOTING_PERIOD",
            ),
            CosmosProposalStatus::PROPOSAL_STATUS_PASSED => String::from_str(
                "PROPOSAL_STATUS_PASSED",
            ),
            CosmosProposalStatus::PROPOSAL_STATUS_REJECTED => String::from_str(
                "PROPOSAL_STATUS_REJECTED",
            ),
            CosmosProposalStatus::PROPOSAL_STATUS_FAILED => String::from_str(
                "PROPOSAL_STATUS_FAILED",
            ),
        }
    }
}

impl From<CosmosProposalStatus> for u32 {
    /// The number under which the schema knows `status`.
    fn from(status: CosmosProposalStatus) -> (n: u32)
        ensures
            n == status.code_spec(),
    {
        status.code()
    }
}

impl vstd::std_specs::convert::FromSpecImpl<CosmosProposalStatus> for u32 {
    open spec fn obeys_from_spec() -> bool {
        true
    }

    open spec fn from_spec(status: CosmosProposalStatus) -> u32 {
        status.code_spec()
    }
}

/// Two statuses with the same number are the same status.
pub proof fn lemma_status_code_injective(a: CosmosProposalStatus, b: CosmosProposalStatus)
    ensures
        a.code_spec() == b.code_spec() <==> a == b,
        1 <= a.code_spec() <= 5,
{
}

/// What a proposal is about.
#[derive(Debug)]
pub struct ProposalInfo {
    pub at_type: String,
    pub title: String,
    pub description: String,
    pub recipient: Option<String>,
    pub amount: Option<Vec<DenomAmount>>,
}

/// What a [`ProposalInfo`] holds, as mathematical values.
pub struct ProposalInfoView {
    pub at_type: Seq<char>,
    pub title: Seq<char>,
    pub description: Seq<char>,
    pub recipient: Option<Seq<char>>,
    pub amount: Option<Seq<DenomAmountView>>,
}

impl DeepView for ProposalInfo {
    type V = ProposalInfoView;

    open spec fn deep_view(&self) -> ProposalInfoView {
        ProposalInfoView {
            at_type: self.at_type@,
            title: self.title@,
            description: self.description@,
            recipient: self.recipient.deep_view(),
            amount: self.amount.deep_view(),
        }
    }
}

/// The votes counted for a proposal, by answer.
#[derive(Debug)]
pub struct FinalTallyInfo {
    pub yes: String,
    pub abstain: String,
    pub no: String,
    pub no_with_veto: String,
}

/// What a [`FinalTallyInfo`] holds, as mathematical values.
pub struct FinalTallyInfoView {
    pub yes: Seq<char>,
    pub abstain: Seq<char>,
    pub no: Seq<char>,
    pub no_with_veto: Seq<char>,
}

impl DeepView for FinalTallyInfo {
    type V = FinalTallyInfoView;

    open spec fn deep_view(&self) -> FinalTallyInfoView {
        FinalTallyInfoView {
            yes: self.yes@,
            abstain: self.abstain@,
            no: self.no@,
            no_with_veto: self.no_with_veto@,
        }
    }
}

/// A tally with the given `yes` and `no` votes and nothing for the two answers
/// that the chain does not have.
pub open spec fn tally_view(yes: Seq<char>, no: Seq<char>) -> FinalTallyInfoView {
    FinalTallyInfoView { yes, abstain: "0"@, no, no_with_veto: "0"@ }
}

impl Default for FinalTallyInfo {
    /// A tally of zero votes for every answer.
    fn default() -> (tally: FinalTallyInfo)
        ensures
            tally.deep_view() == tally_view("0"@, "0"@),
    {
        FinalTallyInfo {
            yes: String::from_str("0"),
            abstain: String::from_str("0"),
            no: String::from_str("0"),
            no_with_veto: String::from_str("0"),
        }
    }
}

/// One proposal as a listing shows it.
#[derive(Debug)]
pub struct ProposalItem {
    pub proposal_id: String,
    pub content: ProposalInfo,
    pub status: CosmosProposalStatus,
    pub final_tally_result: FinalTallyInfo,
    pub submit_time: String,
    pub deposit_end_time: String,
    pub total_deposit: Vec<DenomAmount>,
    pub voting_start_time: String,
    pub voting_end_time: String,
}

/// What a [`ProposalItem`] holds, as mathematical values.
pub struct ProposalItemView {
    pub proposal_id: Seq<char>,
    pub content: ProposalInfoView,
    pub status: CosmosProposalStatus,
    pub final_tally_result: FinalTallyInfoView,
    pub submit_time: Seq<char>,
    pub deposit_end_time: Seq<char>,
    pub total_deposit: Seq<DenomAmountView>,
    pub voting_start_time: Seq<char>,
    pub voting_end_time: Seq<char>,
}

impl DeepView for ProposalItem {
    type V = ProposalItemView;

    open spec fn deep_view(&self) -> ProposalItemView {
        ProposalItemView {
            proposal_id: self.proposal_id@,
            content: self.content.deep_view(),
            status: self.status,
            final_tally_result: self.final_tally_result.deep_view(),
            submit_time: self.submit_time@,
            deposit_end_time: self.deposit_end_time@,
            total_deposit: self.total_deposit.deep_view(),
            voting_start_time: self.voting_start_time@,
            voting_end_time: self.voting_end_time@,
        }
    }
}

/// The answer to a proposal listing.
#[derive(Debug)]
pub struct ProposalsResponse {
    pub proposals: Vec<ProposalItem>,
    pub pagination: Option<PaginationInfo>,
}

/// What a [`ProposalsResponse`] holds, as mathematical values.
pub struct ProposalsResponseView {
    pub proposals: Seq<ProposalItemView>,
    pub pagination: Option<PaginationInfoView>,
}

impl DeepView for ProposalsResponse {
    type V = ProposalsResponseView;

    open spec fn deep_view(&self) -> ProposalsResponseView {
        ProposalsResponseView {
            proposals: self.proposals.deep_view(),
            pagination: self.pagination.deep_view(),
        }
    }
}

/// The answer to a query for one proposal.
#[derive(Debug)]
pub struct IndividualProposalResponse {
    pub proposal: Option<ProposalItem>,
}

/// What an [`IndividualProposalResponse`] holds, as mathematical values.
pub struct IndividualProposalResponseView {
    pub proposal: Option<ProposalItemView>,
}

impl DeepView for IndividualProposalResponse {
    type V = IndividualProposalResponseView;

    open spec fn deep_view(&self) -> IndividualProposalResponseView {
        IndividualProposalResponseView { proposal: self.proposal.deep_view() }
    }
}

/// The answer to a query for one proposal's tally.
#[derive(Debug)]
pub struct TallyResponse {
    pub tally: FinalTallyInfo,
}

/// What a [`TallyResponse`] holds, as mathematical values.
pub struct TallyResponseView {
    pub tally: FinalTallyInfoView,
}

impl DeepView for TallyResponse {
    type V = TallyResponseView;

    open spec fn deep_view(&self) -> TallyResponseView {
        TallyResponseView { tally: self.tally.deep_view() }
    }
}

/// The voting parameters.
#[derive(Clone, Copy, Debug)]
pub struct VotingParams {
    pub voting_period: SuffixedDur,
}

/// The deposit parameters.
#[derive(Debug)]
pub struct DepositParams {
    pub min_deposit: Vec<DenomAmount>,
    pub max_deposit_period: String,
}

/// What a [`DepositParams`] holds, as mathematical values.
pub struct DepositParamsView {
    pub min_deposit: Seq<DenomAmountView>,
    pub max_deposit_period: Seq<char>,
}

impl DeepView for DepositParams {
    type V = DepositParamsView;

    open spec fn deep_view(&self) -> DepositParamsView {
        DepositParamsView {
            min_deposit: self.min_deposit.deep_view(),
            max_deposit_period: self.max_deposit_period@,
        }
    }
}

/// The tallying parameters, each a decimal numeral.
#[derive(Debug)]
pub struct TallyParams {
    pub quorum: String,
    pub threshold: String,
    pub veto_threshold: String,
}

/// What a [`TallyParams`] holds, as mathematical values.
pub struct TallyParamsView {
    pub quorum: Seq<char>,
    pub threshold: Seq<char>,
    pub veto_threshold: Seq<char>,
}

impl DeepView for TallyParams {
    type V = TallyParamsView;

    open spec fn deep_view(&self) -> TallyParamsView {
        TallyParamsView {
            quorum: self.quorum@,
            threshold: self.threshold@,
            veto_threshold: self.veto_threshold@,
        }
    }
}

/// The answer to a query for governance parameters. Each query fills in the
/// part it asks for and leaves the others as [`ParamsGovResponse::default`]
/// has them.
#[derive(Debug)]
pub struct ParamsGovResponse {
    pub voting_params: VotingParams,
    pub deposit_params: DepositParams,
    pub tally_params: TallyParams,
}

/// What a [`ParamsGovResponse`] holds, as mathematical values.
pub struct ParamsGovResponseView {
    pub voting_params: VotingParams,
    pub deposit_params: DepositParamsView,
    pub tally_params: TallyParamsView,
}

impl DeepView for ParamsGovResponse {
    type V = ParamsGovResponseView;

    open spec fn deep_view(&self) -> ParamsGovResponseView {
        ParamsGovResponseView {
            voting_params: self.voting_params,
            deposit_params: self.deposit_params.deep_view(),
            tally_params: self.tally_params.deep_view(),
        }
    }
}

/// Governance parameters with nothing filled in: a voting period of no
/// seconds, no minimum deposit, a deposit period of `0s`, and zero for the
/// three tallying parameters.
pub open spec fn blank_gov_params() -> ParamsGovResponseView {
    ParamsGovResponseView {
        voting_params: VotingParams { voting_period: SuffixedDur(0) },
        deposit_params: DepositParamsView {
            min_deposit: Seq::empty(),
            max_deposit_period: "0s"@,
        },
        tally_params: TallyParamsView { quorum: "0"@, threshold: "0"@, veto_threshold: "0"@ },
    }
}

impl Default for ParamsGovResponse {
    /// Governance parameters with nothing filled in.
    fn default() -> (response: ParamsGovResponse)
        ensures
            response.deep_view() == blank_gov_params(),
    {
        let min_deposit: Vec<DenomAmount> = Vec::new();
        assert(min_deposit.deep_view() =~= Seq::empty());
        ParamsGovResponse {
            voting_params: VotingParams { voting_period: SuffixedDur(0) },
            deposit_params: DepositParams {
                min_deposit,
                max_deposit_period: String::from_str("0s"),
            },
            tally_params: TallyParams {
                quorum: String::from_str("0"),
                threshold: String::from_str("0"),
                veto_threshold: String::from_str("0"),
            },
        }
    }
}

} // verus!
