//! Building the governance payloads from what was fetched.

use vstd::prelude::*;
use vstd::string::StringExecFns;
use crate::error::api_error::{result_not_found, ApiError};
use crate::governance::native::{
    content_lookup, Epoch, GovernanceParameters, ProposalResult, ProposalResultView, RawBundle,
    RawBundleView, StorageProposal, StorageProposalView,
};
use crate::governance::status::{
    filter_proposal_by_status, status_matches, translate_status, translated_status,
};
use crate::model::gov::{
    tally_view, CosmosProposalStatus, FinalTallyInfo, FinalTallyInfoView,
    IndividualProposalResponse, IndividualProposalResponseView, ProposalInfo, ProposalInfoView,
    ProposalItem, ProposalItemView, ProposalsResponse, ProposalsResponseView, TallyResponse,
    TallyResponseView,
};
use crate::model::shared::{
    nam_amount_view, DenomAmount, DenomAmountView, PaginationInfo, PaginationInfoView,
    DEFAULT_TIMESTAMP,
};
use crate::text::{decimal, u64_to_decimal};

verus! {

/// The tally block of a proposal: its counted votes, or zeros where it has no
/// tally.
pub open spec fn tally_info_view(tally: Option<ProposalResultView>) -> FinalTallyInfoView {
    match tally {
        Some(t) => tally_view(t.total_yay_power, t.total_nay_power),
        None => tally_view("0"@, "0"@),
    }
}

/// The content block of a proposal: its kind, and the title and details of
/// its content map.
pub open spec fn proposal_info_view(record: StorageProposalView) -> ProposalInfoView {
    ProposalInfoView {
        at_type: record.proposal_type,
        title: content_lookup(record.content, "title"@),
        description: content_lookup(record.content, "details"@),
        recipient: None,
        amount: None,
    }
}

/// The listing entry of `record` with the given status, tally and deposit.
/// Times are not known to the chain: the epochs of the voting window stand in
/// for them.
pub open spec fn proposal_item_view(
    record: StorageProposalView,
    status: CosmosProposalStatus,
    tally: Option<ProposalResultView>,
    deposit: Seq<DenomAmountView>,
) -> ProposalItemView {
    ProposalItemView {
        proposal_id: decimal(record.id as nat),
        content: proposal_info_view(record),
        status,
        final_tally_result: tally_info_view(tally),
        submit_time: DEFAULT_TIMESTAMP@,
        deposit_end_time: decimal(record.voting_start_epoch as nat),
        total_deposit: deposit,
        voting_start_time: decimal(record.voting_start_epoch as nat),
        voting_end_time: decimal(record.voting_end_epoch as nat),
    }
}

/// The listing entry of a fetched proposal at `epoch`, before a deposit is
/// attached to it.
pub open spec fn translated_record(bundle: RawBundleView, epoch: Epoch) -> ProposalItemView {
    proposal_item_view(
        bundle.record,
        translated_status(bundle.record, epoch, bundle.tally),
        bundle.tally,
        Seq::empty(),
    )
}

/// The tally block of a proposal.
pub fn final_tally_info(tally: &Option<ProposalResult>) -> (info: FinalTallyInfo)
    ensures
        info.deep_view() == tally_info_view(tally.deep_view()),
{
    let mut info = FinalTallyInfo::default();
    match tally {
        Some(t) => {
            info.yes = t.total_yay_power.clone();
            info.no = t.total_nay_power.clone();
        },
        None => {},
    }
    info
}

/// The content block of a proposal.
pub fn proposal_info(record: &StorageProposal) -> (info: ProposalInfo)
    ensures
        info.deep_view() == proposal_info_view(record.deep_view()),
{
    let title_key = String::from_str("title");
    let details_key = String::from_str("details");
    ProposalInfo {
        at_type: record.proposal_type.clone(),
        title: record.content_value(&title_key),
        description: record.content_value(&details_key),
        recipient: None,
        amount: None,
    }
}

/// The listing entry of `record` with the given status, tally and deposit.
pub fn proposal_item(
    record: &StorageProposal,
    status: CosmosProposalStatus,
    tally: &Option<ProposalResult>,
    deposit: Vec<DenomAmount>,
) -> (item: ProposalItem)
    ensures
        item.deep_view() == proposal_item_view(
            record.deep_view(),
            status,
            tally.deep_view(),
            deposit.deep_view(),
        ),
{
    ProposalItem {
        proposal_id: u64_to_decimal(record.id),
        content: proposal_info(record),
        status,
        final_tally_result: final_tally_info(tally),
        submit_time: String::from_str(DEFAULT_TIMESTAMP),
        deposit_end_time: u64_to_decimal(record.voting_start_epoch),
        total_deposit: deposit,
        voting_start_time: u64_to_decimal(record.voting_start_epoch),
        voting_end_time: u64_to_decimal(record.voting_end_epoch),
    }
}

/// Translates one fetched proposal into its listing entry at `epoch`. No
/// deposit is attached yet.
pub fn translate_record(bundle: &RawBundle, epoch: Epoch) -> (item: ProposalItem)
    ensures
        item.deep_view() == translated_record(bundle.deep_view(), epoch),
{
    let status = translate_status(&bundle.record, epoch, &bundle.tally);
    let deposit: Vec<DenomAmount> = Vec::new();
    assert(deposit.deep_view() =~= Seq::empty());
    proposal_item(&bundle.record, status, &bundle.tally, deposit)
}

/// The listing entries of a batch of lookups at `epoch`, in the order of the
/// lookups: one for each id that has a record, none for an id without one.
pub open spec fn translated_records(
    bundles: Seq<Option<RawBundleView>>,
    epoch: Epoch,
) -> Seq<ProposalItemView> {
    bundles.filter_map(
        |b: Option<RawBundleView>|
            match b {
                Some(bundle) => Some(translated_record(bundle, epoch)),
                None => None,
            },
    )
}

/// The entries of `records` that a listing asking for `requested` shows, in
/// their order.
pub open spec fn filtered_records(
    records: Seq<ProposalItemView>,
    requested: Option<u32>,
) -> Seq<ProposalItemView> {
    records.filter(|p: ProposalItemView| status_matches(requested, p.status))
}

/// The deposit shown for every proposal: the minimum proposal fund, in the
/// native token.
pub open spec fn uniform_deposit(min_proposal_fund: Seq<char>) -> Seq<DenomAmountView> {
    seq![nam_amount_view(min_proposal_fund)]
}

/// `item` with the uniform deposit in place of its own.
pub open spec fn with_deposit(
    item: ProposalItemView,
    min_proposal_fund: Seq<char>,
) -> ProposalItemView {
    ProposalItemView { total_deposit: uniform_deposit(min_proposal_fund), ..item }
}

/// The answer to a listing that shows `records`: each with the uniform
/// deposit, all on one page.
pub open spec fn list_response_view(
    records: Seq<ProposalItemView>,
    min_proposal_fund: Seq<char>,
) -> ProposalsResponseView {
    ProposalsResponseView {
        proposals: records.map_values(|p: ProposalItemView| with_deposit(p, min_proposal_fund)),
        pagination: Some(
            PaginationInfoView { next_key: None, total: Some(decimal(records.len())) },
        ),
    }
}

/// The answer to a listing over a batch of lookups: translate, filter, then
/// assemble.
pub open spec fn proposals_response_view(
    bundles: Seq<Option<RawBundleView>>,
    epoch: Epoch,
    min_proposal_fund: Seq<char>,
    requested: Option<u32>,
) -> ProposalsResponseView {
    list_response_view(
        filtered_records(translated_records(bundles, epoch), requested),
        min_proposal_fund,
    )
}

/// Translates a batch of lookups into listing entries at `epoch`. An id
/// without a record leaves no entry; the others keep their order.
pub fn translate_records(bundles: &Vec<Option<RawBundle>>, epoch: Epoch) -> (records: Vec<
    ProposalItem,
>)
    ensures
        records.deep_view() == translated_records(bundles.deep_view(), epoch),
{
    let ghost all = bundles.deep_view();
    let ghost f = |b: Option<RawBundleView>|
        match b {
            Some(bundle) => Some(translated_record(bundle, epoch)),
            None => None,
        };
    let mut records: Vec<ProposalItem> = Vec::new();
    let mut i: usize = 0;
    assert(records.deep_view() =~= all.take(0).filter_map(f));
    while i < bundles.len()
        invariant
            i <= bundles.len(),
            all == bundles.deep_view(),
            all.len() == bundles.len(),
            f == (|b: Option<RawBundleView>|
                match b {
                    Some(bundle) => Some(translated_record(bundle, epoch)),
                    None => None,
                }),
            records.deep_view() == all.take(i as int).filter_map(f),
        decreases bundles.len() - i,
    {
        let ghost before = records.deep_view();
        proof {
            assert(all.take(i + 1).drop_last() =~= all.take(i as int));
            assert(all.take(i + 1).last() == bundles[i as int].deep_view());
        }
        match &bundles[i] {
            Some(bundle) => {
                let item = translate_record(bundle, epoch);
                records.push(item);
                assert(records.deep_view() =~= before + seq![item.deep_view()]);
            },
            None => {},
        }
        i = i + 1;
    }
    assert(all.take(all.len() as int) =~= all);
    records
}

/// Keeps the entries that a listing asking for `requested` shows, in their
/// order. Where nothing was asked for, every entry is kept.
pub fn filter_proposals(records: Vec<ProposalItem>, requested: Option<u32>) -> (kept: Vec<
    ProposalItem,
>)
    ensures
        kept.deep_view() == filtered_records(records.deep_view(), requested),
{
    let ghost all = records.deep_view();
    let ghost pred = |p: ProposalItemView| status_matches(requested, p.status);
    let mut kept: Vec<ProposalItem> = Vec::new();
    proof {
        reveal(Seq::filter);
        assert(kept.deep_view() =~= all.take(0).filter(pred));
    }
    for item in it: records
        invariant
            it.seq() == records@,
            all == records.deep_view(),
            pred == (|p: ProposalItemView| status_matches(requested, p.status)),
            kept.deep_view() == all.take(it.index() as int).filter(pred),
    {
        let ghost before = kept.deep_view();
        proof {
            reveal(Seq::filter);
            let i = it.index() as int;
            assert(all.take(i + 1).drop_last() =~= all.take(i));
            assert(all.take(i + 1).last() == item.deep_view());
        }
        if filter_proposal_by_status(requested, item.status) {
            kept.push(item);
            assert(kept.deep_view() =~= before.push(item.deep_view()));
        }
    }
    assert(all.take(all.len() as int) =~= all);
    kept
}

/// The deposit shown for every proposal of a listing.
pub fn deposit_of(params: &GovernanceParameters) -> (deposit: Vec<DenomAmount>)
    ensures
        deposit.deep_view() == uniform_deposit(params.min_proposal_fund@),
{
    let mut deposit: Vec<DenomAmount> = Vec::new();
    deposit.push(DenomAmount::nam_amount(params.min_proposal_fund.clone()));
    assert(deposit.deep_view() =~= uniform_deposit(params.min_proposal_fund@));
    deposit
}

/// Builds the answer to a listing from the entries that passed its filter:
/// every entry gets the same deposit, the minimum proposal fund of `params`,
/// and the page block says that this page holds them all.
pub fn assemble_list(filtered: Vec<ProposalItem>, params: &GovernanceParameters) -> (response:
    ProposalsResponse)
    ensures
        response.deep_view() == list_response_view(
            filtered.deep_view(),
            params.min_proposal_fund@,
        ),
        response.proposals.len() == filtered.len(),
        forall|i: int|
            0 <= i < response.proposals.len() ==> (
            #[trigger] response.proposals[i]).total_deposit.deep_view() == uniform_deposit(
                params.min_proposal_fund@,
            ),
{
    let ghost all = filtered.deep_view();
    let ghost fund = params.min_proposal_fund@;
    let ghost g = |p: ProposalItemView| with_deposit(p, fund);
    let total = filtered.len();
    let mut proposals: Vec<ProposalItem> = Vec::new();
    assert(proposals.deep_view() =~= all.take(0).map_values(g));
    for item in it: filtered
        invariant
            it.seq() == filtered@,
            all == filtered.deep_view(),
            fund == params.min_proposal_fund@,
            g == (|p: ProposalItemView| with_deposit(p, fund)),
            proposals.deep_view() == all.take(it.index() as int).map_values(g),
    {
        let ghost before = proposals.deep_view();
        let ghost i = it.index() as int;
        let mut item = item;
        let ghost plain = item.deep_view();
        assert(plain == all[i]);
        item.total_deposit = deposit_of(params);
        proposals.push(item);
        assert(proposals.deep_view() =~= before.push(with_deposit(plain, fund)));
        assert(all.take(i + 1).map_values(g) =~= all.take(i).map_values(g).push(g(all[i])));
    }
    assert(all.take(all.len() as int) =~= all);
    assert forall|i: int| 0 <= i < proposals.len() implies (
    #[trigger] proposals[i]).total_deposit.deep_view() == uniform_deposit(fund) by {
        assert(proposals.deep_view()[i] == with_deposit(all[i], fund));
    }
    ProposalsResponse { proposals, pagination: Some(PaginationInfo::single_page(total)) }
}

/// Answers a proposal listing from the lookups of its ids.
///
/// `bundles` holds, for each id in ascending order, the record that was found
/// with its tally, or `None` where the chain has no record under that id. Ids
/// without a record are left out; the others are named in the schema's
/// vocabulary as of `epoch`, filtered by the status that was asked for, and
/// given the deposit of `params`.
pub fn list_proposals(
    bundles: &Vec<Option<RawBundle>>,
    epoch: Epoch,
    params: &GovernanceParameters,
    requested: Option<u32>,
) -> (response: ProposalsResponse)
    ensures
        response.deep_view() == proposals_response_view(
            bundles.deep_view(),
            epoch,
            params.min_proposal_fund@,
            requested,
        ),
        forall|i: int|
            0 <= i < response.proposals.len() ==> (
            #[trigger] response.proposals[i]).total_deposit.deep_view() == uniform_deposit(
                params.min_proposal_fund@,
            ),
{
    let records = translate_records(bundles, epoch);
    let filtered = filter_proposals(records, requested);
    assemble_list(filtered, params)
}

/// The status under which a query for one proposal shows it: its status at
/// `epoch`, tally or not, where the chain has a record and the status is the
/// one asked for (or none was asked for); none otherwise.
pub open spec fn shown_status_view(
    bundle: Option<RawBundleView>,
    epoch: Epoch,
    requested: Option<u32>,
) -> Option<CosmosProposalStatus> {
    match bundle {
        Some(b) => {
            let status = translated_status(b.record, epoch, b.tally);
            if status_matches(requested, status) {
                Some(status)
            } else {
                None
            }
        },
        None => None,
    }
}

/// The entry that a query for one proposal shows: none where the chain has no
/// record for it, or where its status is not the one asked for. A record
/// without a tally is shown like any other, by its status at `epoch`.
pub open spec fn single_proposal_view(
    bundle: Option<RawBundleView>,
    epoch: Epoch,
    min_proposal_fund: Seq<char>,
    requested: Option<u32>,
) -> Option<ProposalItemView> {
    match bundle {
        Some(b) => {
            let status = translated_status(b.record, epoch, b.tally);
            if status_matches(requested, status) {
                Some(
                    proposal_item_view(
                        b.record,
                        status,
                        b.tally,
                        uniform_deposit(min_proposal_fund),
                    ),
                )
            } else {
                None
            }
        },
        None => None,
    }
}

/// Decides whether a query for one proposal shows it, and under which status.
/// Only a proposal that is shown needs the governance parameters looked up.
pub fn shown_status(
    bundle: &Option<RawBundle>,
    current_epoch: Epoch,
    requested_status: Option<u32>,
) -> (status: Option<CosmosProposalStatus>)
    ensures
        status == shown_status_view(bundle.deep_view(), current_epoch, requested_status),
        forall|fund: Seq<char>|
            status.is_some() == (#[trigger] single_proposal_view(
                bundle.deep_view(),
                current_epoch,
                fund,
                requested_status,
            )).is_some(),
{
    match bundle {
        Some(b) => {
            let status = translate_status(&b.record, current_epoch, &b.tally);
            if filter_proposal_by_status(requested_status, status) {
                Some(status)
            } else {
                None
            }
        },
        None => None,
    }
}

/// Presents one looked-up proposal at `current_epoch`.
///
/// `bundle` is the outcome of the lookup: the record with its tally where it
/// has one, or `None` where the chain has no record under the id. A record
/// that was found is shown if its status is the one asked for (or none was
/// asked for), with or without a tally: before voting has closed a tally means
/// nothing, and after it a proposal without one is shown as failed. The entry
/// carries the deposit of `params`.
pub fn get_proposal(
    bundle: &Option<RawBundle>,
    current_epoch: Epoch,
    params: &GovernanceParameters,
    requested_status: Option<u32>,
) -> (item: Option<ProposalItem>)
    ensures
        item.deep_view() == single_proposal_view(
            bundle.deep_view(),
            current_epoch,
            params.min_proposal_fund@,
            requested_status,
        ),
{
    match bundle {
        Some(b) => {
            match shown_status(bundle, current_epoch, requested_status) {
                Some(status) => Some(
                    proposal_item(&b.record, status, &b.tally, deposit_of(params)),
                ),
                None => None,
            }
        },
        None => None,
    }
}

/// Answers a query for one proposal; see [`get_proposal`].
pub fn single_proposal(
    bundle: &Option<RawBundle>,
    current_epoch: Epoch,
    params: &GovernanceParameters,
) -> (response: IndividualProposalResponse)
    ensures
        response.deep_view() == (IndividualProposalResponseView {
            proposal: single_proposal_view(
                bundle.deep_view(),
                current_epoch,
                params.min_proposal_fund@,
                None,
            ),
        }),
{
    IndividualProposalResponse { proposal: get_proposal(bundle, current_epoch, params, None) }
}

/// Answers a query for one proposal's tally. A proposal without a tally is an
/// error here, whatever its record says.
pub fn assemble_tally(tally: &Option<ProposalResult>) -> (response: Result<
    TallyResponse,
    ApiError,
>)
    ensures
        response is Ok <==> tally is Some,
        response matches Ok(r) ==> r.deep_view() == (TallyResponseView {
            tally: tally_info_view(tally.deep_view()),
        }),
        response matches Err(e) ==> e.deep_view() == result_not_found(),
{
    match tally {
        Some(t) => {
            let mut final_tally = FinalTallyInfo::default();
            final_tally.yes = t.total_yay_power.clone();
            final_tally.no = t.total_nay_power.clone();
            Ok(TallyResponse { tally: final_tally })
        },
        None => Err(ApiError::proposal_result_not_found()),
    }
}

} // verus!
