//! What holds of every proposal listing.

use vstd::prelude::*;
use crate::governance::assemble::{
    filtered_records, proposals_response_view, single_proposal_view, translated_record,
    translated_records, uniform_deposit,
};
use crate::governance::enumerate::{lemma_id_range, proposal_id_range};
use crate::governance::join_laws::{
    all_answer, lemma_initial_well_formed, lemma_order_independence, lemma_run_well_formed,
    lemma_step_well_formed, outcome_after, Snapshot,
};
use crate::governance::native::{Epoch, ProposalStatus, RawBundleView, StorageProposalView};
use crate::governance::orchestrator::{initial, FetchActionView, FetchEventView};
use crate::governance::status::status_matches;
use crate::model::gov::{CosmosProposalStatus, ProposalItemView};

verus! {

/// The bundles that are there, in their order.
pub open spec fn present(bundles: Seq<Option<RawBundleView>>) -> Seq<RawBundleView> {
    bundles.filter(|b: Option<RawBundleView>| b is Some).map_values(
        |b: Option<RawBundleView>| b->Some_0,
    )
}

/// An id without a record leaves no trace in a listing, and is no error: the
/// entries are those of the ids that have a record, one each, in the order of
/// the ids.
pub proof fn lemma_absent_records_excluded(bundles: Seq<Option<RawBundleView>>, epoch: Epoch)
    ensures
        translated_records(bundles, epoch) == present(bundles).map_values(
            |b: RawBundleView| translated_record(b, epoch),
        ),
        translated_records(bundles, epoch).len() <= bundles.len(),
    decreases bundles.len(),
{
    reveal(Seq::filter);
    let f = |b: Option<RawBundleView>|
        match b {
            Some(bundle) => Some(translated_record(bundle, epoch)),
            None => None,
        };
    let g = |b: RawBundleView| translated_record(b, epoch);
    if bundles.len() > 0 {
        let rest = bundles.drop_last();
        lemma_absent_records_excluded(rest, epoch);
        assert(translated_records(rest, epoch) == rest.filter_map(f));
        match bundles.last() {
            Some(b) => {
                assert(present(bundles) =~= present(rest).push(b));
                assert(present(bundles).map_values(g) =~= present(rest).map_values(g).push(
                    g(b),
                ));
                assert(bundles.filter_map(f) =~= rest.filter_map(f).push(g(b)));
            },
            None => {
                assert(present(bundles) =~= present(rest));
            },
        }
    } else {
        assert(present(bundles) =~= Seq::empty());
        assert(present(bundles).map_values(g) =~= Seq::empty());
    }
}

/// A listing that asks for no status shows every entry.
pub proof fn lemma_no_filter_keeps_all(records: Seq<ProposalItemView>)
    ensures
        filtered_records(records, None) == records,
    decreases records.len(),
{
    reveal(Seq::filter);
    if records.len() > 0 {
        lemma_no_filter_keeps_all(records.drop_last());
        assert(records.drop_last().push(records.last()) =~= records);
    }
}

/// A listing that asks for a status shows entries of that status only, shows
/// every entry of that status, and keeps them in their order: an entry that
/// stood before another still does.
pub proof fn lemma_filter_by_status(records: Seq<ProposalItemView>, wanted: u32)
    ensures
        forall|i: int|
            0 <= i < filtered_records(records, Some(wanted)).len() ==> (
            #[trigger] filtered_records(records, Some(wanted))[i]).status.code_spec() == wanted,
        forall|i: int|
            0 <= i < records.len() && (#[trigger] records[i]).status.code_spec() == wanted
                ==> filtered_records(records, Some(wanted)).contains(records[i]),
        exists|positions: Seq<int>|
            #[trigger] is_selection(positions, records.len() as int) && filtered_records(
                records,
                Some(wanted),
            ) == positions.map_values(|p: int| records[p]),
{
    let pred = |p: ProposalItemView| status_matches(Some(wanted), p.status);
    assert forall|i: int| 0 <= i < filtered_records(records, Some(wanted)).len() implies (
    #[trigger] filtered_records(records, Some(wanted))[i]).status.code_spec() == wanted by {
        records.lemma_filter_pred(pred, i);
    }
    assert forall|i: int|
        0 <= i < records.len() && (#[trigger] records[i]).status.code_spec()
            == wanted implies filtered_records(records, Some(wanted)).contains(records[i]) by {
        assert(pred(records[i]));
        records.lemma_filter_contains(pred, i);
    }
    lemma_filter_selects(records, pred);
}

/// `positions` picks places below `len`, each after the one before it.
pub open spec fn is_selection(positions: Seq<int>, len: int) -> bool {
    &&& forall|k: int| 0 <= k < positions.len() ==> 0 <= #[trigger] positions[k] < len
    &&& forall|j: int, k: int|
        0 <= j < k < positions.len() ==> #[trigger] positions[j] < #[trigger] positions[k]
}

/// Filtering picks places of the sequence in ascending order.
proof fn lemma_filter_selects(records: Seq<ProposalItemView>, pred: spec_fn(ProposalItemView) -> bool)
    ensures
        exists|positions: Seq<int>|
            #[trigger] is_selection(positions, records.len() as int) && records.filter(pred)
                == positions.map_values(|p: int| records[p]),
    decreases records.len(),
{
    reveal(Seq::filter);
    if records.len() == 0 {
        let positions = Seq::<int>::empty();
        assert(is_selection(positions, 0));
        assert(records.filter(pred) =~= positions.map_values(|p: int| records[p]));
    } else {
        let rest = records.drop_last();
        lemma_filter_selects(rest, pred);
        let chosen = choose|positions: Seq<int>|
            #[trigger] is_selection(positions, rest.len() as int) && rest.filter(pred)
                == positions.map_values(|p: int| rest[p]);
        let positions = if pred(records.last()) {
            chosen.push(records.len() - 1)
        } else {
            chosen
        };
        assert(is_selection(positions, records.len() as int));
        assert(records.filter(pred) =~= positions.map_values(|p: int| records[p])) by {
            assert forall|k: int| 0 <= k < chosen.len() implies rest[chosen[k]]
                == records[chosen[k]] by {}
            assert(chosen.map_values(|p: int| rest[p]) =~= chosen.map_values(
                |p: int| records[p],
            ));
        }
    }
}

/// Every entry of a listing carries the same deposit: the minimum proposal
/// fund, in the native token. The listing has one entry for each record that
/// passed the filter, and its page block counts them.
pub proof fn lemma_deposit_uniform(
    bundles: Seq<Option<RawBundleView>>,
    epoch: Epoch,
    min_proposal_fund: Seq<char>,
    requested: Option<u32>,
)
    ensures
        forall|i: int|
            0 <= i < proposals_response_view(
                bundles,
                epoch,
                min_proposal_fund,
                requested,
            ).proposals.len() ==> (#[trigger] proposals_response_view(
                bundles,
                epoch,
                min_proposal_fund,
                requested,
            ).proposals[i]).total_deposit == uniform_deposit(min_proposal_fund),
        proposals_response_view(bundles, epoch, min_proposal_fund, requested).proposals.len()
            == filtered_records(translated_records(bundles, epoch), requested).len(),
{
}

/// A proposal whose voting has closed and that has no tally is listed as
/// failed; one whose voting has not closed is listed by its phase, tally or
/// not.
pub proof fn lemma_listed_without_tally(record: StorageProposalView, epoch: Epoch)
    ensures
        translated_record(RawBundleView { record, tally: None }, epoch).status == match record.status(
            epoch,
        ) {
            ProposalStatus::Pending => CosmosProposalStatus::PROPOSAL_STATUS_DEPOSIT_PERIOD,
            ProposalStatus::OnGoing => CosmosProposalStatus::PROPOSAL_STATUS_VOTING_PERIOD,
            ProposalStatus::Ended => CosmosProposalStatus::PROPOSAL_STATUS_FAILED,
        },
{
}

/// Two listings against the same unchanged chain are the same listing: with
/// the same ids, epoch, parameters and filter, the payload does not depend on
/// the order in which the lookups completed.
pub proof fn lemma_listing_repeatable(
    ids: Seq<u64>,
    snapshot: Snapshot,
    first: Seq<FetchEventView>,
    second: Seq<FetchEventView>,
    epoch: Epoch,
    min_proposal_fund: Seq<char>,
    requested: Option<u32>,
)
    requires
        snapshot.records.len() == ids.len(),
        snapshot.tallies.len() == ids.len(),
        all_answer(snapshot, first),
        all_answer(snapshot, second),
        outcome_after(ids, first).1 is Complete,
        outcome_after(ids, second).1 is Complete,
    ensures
        proposals_response_view(
            outcome_after(ids, first).1->Complete_0,
            epoch,
            min_proposal_fund,
            requested,
        ) == proposals_response_view(
            outcome_after(ids, second).1->Complete_0,
            epoch,
            min_proposal_fund,
            requested,
        ),
{
    lemma_order_independence(ids, snapshot, first, second);
}

/// A listing never asks the chain about an id that is not below the chain's
/// proposal counter: whatever completions arrive, every query that the join
/// asks for is for an id below the counter.
pub proof fn lemma_queries_stay_in_range(counter: u64, events: Seq<FetchEventView>)
    ensures
        match outcome_after(proposal_id_range(counter), events).1 {
            FetchActionView::QueryRecords(ids) => forall|i: int|
                0 <= i < ids.len() ==> #[trigger] ids[i] < counter,
            FetchActionView::QueryTally { index, id } => id < counter,
            _ => true,
        },
{
    let ids = proposal_id_range(counter);
    lemma_id_range(counter);
    if events.len() == 0 {
        lemma_initial_well_formed(ids);
    } else {
        let before = outcome_after(ids, events.drop_last()).0;
        lemma_run_well_formed(ids, events.drop_last());
        lemma_step_well_formed(before, events.last());
    }
}

/// A query for one proposal shows what a listing over that one lookup shows:
/// the same entry where the listing has one, and nothing where it has none.
pub proof fn lemma_single_agrees_with_listing(
    bundle: Option<RawBundleView>,
    epoch: Epoch,
    min_proposal_fund: Seq<char>,
    requested: Option<u32>,
)
    ensures
        proposals_response_view(seq![bundle], epoch, min_proposal_fund, requested).proposals
            == match single_proposal_view(bundle, epoch, min_proposal_fund, requested) {
            Some(entry) => seq![entry],
            None => Seq::empty(),
        },
{
    reveal(Seq::filter);
    let bundles = seq![bundle];
    let f = |b: Option<RawBundleView>|
        match b {
            Some(found) => Some(translated_record(found, epoch)),
            None => None,
        };
    let pred = |p: ProposalItemView| status_matches(requested, p.status);
    assert(bundles.drop_last() =~= Seq::<Option<RawBundleView>>::empty());
    assert(bundles.drop_last().filter_map(f) =~= Seq::<ProposalItemView>::empty());
    let records = translated_records(bundles, epoch);
    match bundle {
        Some(found) => {
            let record = translated_record(found, epoch);
            assert(records =~= seq![record]);
            assert(records.drop_last() =~= Seq::<ProposalItemView>::empty());
            assert(records.drop_last().filter(pred) =~= Seq::<ProposalItemView>::empty());
            let kept = filtered_records(records, requested);
            if status_matches(requested, record.status) {
                assert(kept =~= seq![record]);
                assert(proposals_response_view(
                    bundles,
                    epoch,
                    min_proposal_fund,
                    requested,
                ).proposals =~= seq![single_proposal_view(
                    bundle,
                    epoch,
                    min_proposal_fund,
                    requested,
                )->Some_0]);
            } else {
                assert(kept =~= Seq::<ProposalItemView>::empty());
                assert(proposals_response_view(
                    bundles,
                    epoch,
                    min_proposal_fund,
                    requested,
                ).proposals =~= Seq::<ProposalItemView>::empty());
            }
        },
        None => {
            assert(records =~= Seq::<ProposalItemView>::empty());
            assert(filtered_records(records, requested) =~= Seq::<ProposalItemView>::empty());
            assert(proposals_response_view(
                bundles,
                epoch,
                min_proposal_fund,
                requested,
            ).proposals =~= Seq::<ProposalItemView>::empty());
        },
    }
}

/// A listing on a chain whose proposal counter is `counter` asks for the
/// records of exactly the ids `0, 1, .., counter - 1`: as many ids as the
/// counter says, in ascending order, each once, and none that is not below
/// the counter. With a counter of zero it asks for nothing and is complete
/// at once.
pub proof fn lemma_listing_asks_for_every_id_once(counter: u64)
    ensures
        counter > 0 ==> initial(proposal_id_range(counter)).1 == FetchActionView::QueryRecords(
            proposal_id_range(counter),
        ),
        counter == 0 ==> initial(proposal_id_range(counter)).1 == FetchActionView::Complete(
            Seq::empty(),
        ),
        proposal_id_range(counter).len() == counter,
        forall|i: int| 0 <= i < counter ==> #[trigger] proposal_id_range(counter)[i] == i,
        proposal_id_range(counter).no_duplicates(),
        forall|id: u64| proposal_id_range(counter).contains(id) <==> id < counter,
{
    lemma_id_range(counter);
}

} // verus!
