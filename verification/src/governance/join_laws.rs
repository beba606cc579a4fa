//! What holds of every run of the join in [`crate::governance::orchestrator`].

use vstd::prelude::*;
use crate::governance::native::{ProposalResultView, RawBundleView, StorageProposalView};
use crate::governance::orchestrator::{
    all_settled, closed_state, initial, open_state, settle, settled_results, step, well_formed,
    FetchActionView, FetchEventView, FetchSlotView, FetchStateView,
};

verus! {

/// The state and the last action of a join over `ids` after it has taken
/// `events`, in their order.
pub open spec fn outcome_after(ids: Seq<u64>, events: Seq<FetchEventView>) -> (
    FetchStateView,
    FetchActionView,
)
    decreases events.len(),
{
    if events.len() == 0 {
        initial(ids)
    } else {
        step(outcome_after(ids, events.drop_last()).0, events.last())
    }
}

/// What the chain holds at one moment, by position among the ids of a join:
/// the record under each id, if there is one, and the tally of each, if there
/// is one.
pub struct Snapshot {
    pub records: Seq<Option<StorageProposalView>>,
    pub tallies: Seq<Option<ProposalResultView>>,
}

/// The completion is one that a chain in state `snapshot` gives: not a
/// failure, and, where it speaks of a position that the snapshot has, with
/// what the snapshot holds there.
pub open spec fn answers(snapshot: Snapshot, event: FetchEventView) -> bool {
    match event {
        FetchEventView::Record { index, record } => record is Ok && (index
            < snapshot.records.len() ==> record->Ok_0 == snapshot.records[index as int]),
        FetchEventView::Tally { index, tally } => tally is Ok && (index < snapshot.tallies.len()
            ==> tally->Ok_0 == snapshot.tallies[index as int]),
    }
}

/// Every one of `events` is a completion that a chain in state `snapshot`
/// gives.
pub open spec fn all_answer(snapshot: Snapshot, events: Seq<FetchEventView>) -> bool {
    forall|k: int| 0 <= k < events.len() ==> answers(snapshot, #[trigger] events[k])
}

/// What a join over a chain in state `snapshot` has to hand out: for each
/// position nothing where there is no record, else the record with its tally.
pub open spec fn expected_results(snapshot: Snapshot) -> Seq<Option<RawBundleView>> {
    Seq::new(
        snapshot.records.len(),
        |i: int|
            match snapshot.records[i] {
                Some(record) => Some(RawBundleView { record, tally: snapshot.tallies[i] }),
                None => None,
            },
    )
}

/// What an open join has learnt so far is what `snapshot` holds.
pub open spec fn agrees(state: FetchStateView, snapshot: Snapshot) -> bool {
    !state.finished ==> forall|i: int|
        0 <= i < state.slots.len() ==> match #[trigger] state.slots[i] {
            FetchSlotView::AwaitingRecord => true,
            FetchSlotView::AwaitingTally(record) => snapshot.records[i] == Some(record),
            FetchSlotView::Settled(found) => found == expected_results(snapshot)[i],
        }
}

/// A join starts in a well-formed state, and the records it asks for are
/// those of its ids, no others.
pub proof fn lemma_initial_well_formed(ids: Seq<u64>)
    ensures
        well_formed(initial(ids).0),
        initial(ids).1 is QueryRecords ==> initial(ids).1->QueryRecords_0 == ids,
        initial(ids).1 is QueryRecords || initial(ids).1 == FetchActionView::Complete(
            Seq::empty(),
        ),
        initial(ids).1 is Complete <==> ids.len() == 0,
{
    if ids.len() > 0 {
        assert(open_state(ids).slots[0] is AwaitingRecord);
    }
}

/// Every transition keeps the state well-formed and the ids unchanged. The
/// only query it may ask for is the tally of one of the join's own ids, at
/// that id's position.
pub proof fn lemma_step_well_formed(state: FetchStateView, event: FetchEventView)
    requires
        well_formed(state),
    ensures
        well_formed(step(state, event).0),
        step(state, event).0.ids == state.ids,
        !(step(state, event).1 is QueryRecords),
        step(state, event).1 matches FetchActionView::QueryTally { index, id } ==> index
            < state.ids.len() && id == state.ids[index as int],
        step(state, event).1 is Complete || step(state, event).1 is Fail ==> step(
            state,
            event,
        ).0.finished,
{
    let next = step(state, event);
    if !state.finished {
        match event {
            FetchEventView::Record { index, record } => {
                if index < state.slots.len() && index < state.ids.len()
                    && state.slots[index as int] is AwaitingRecord {
                    if record matches Ok(Some(r)) {
                        assert(next.0.slots[index as int] is AwaitingTally);
                    }
                }
            },
            FetchEventView::Tally { index, tally } => {},
        }
    }
}

/// A closed join stays closed: it ignores every event, asks for nothing and
/// hands out nothing.
pub proof fn lemma_closed_is_final(state: FetchStateView, event: FetchEventView)
    requires
        state.finished,
    ensures
        step(state, event) == (state, FetchActionView::Wait),
{
}

/// A failure that answers a query under way closes the join at once, with
/// that failure and without results, whatever else has been found.
pub proof fn lemma_failure_closes(state: FetchStateView, event: FetchEventView)
    requires
        well_formed(state),
        !state.finished,
        match event {
            FetchEventView::Record { index, record } => record is Err && index
                < state.slots.len() && state.slots[index as int] is AwaitingRecord,
            FetchEventView::Tally { index, tally } => tally is Err && index < state.slots.len()
                && state.slots[index as int] is AwaitingTally,
        },
    ensures
        step(state, event).0 == closed_state(state.ids),
        match event {
            FetchEventView::Record { index, record } => step(state, event).1
                == FetchActionView::Fail(record->Err_0),
            FetchEventView::Tally { index, tally } => step(state, event).1
                == FetchActionView::Fail(tally->Err_0),
        },
{
}

/// While the chain does not change, a transition keeps what the join has
/// learnt in agreement with the chain, never fails, and, if it completes,
/// hands out exactly what the chain holds, position by position.
pub proof fn lemma_step_agrees(state: FetchStateView, snapshot: Snapshot, event: FetchEventView)
    requires
        well_formed(state),
        snapshot.records.len() == state.ids.len(),
        snapshot.tallies.len() == state.ids.len(),
        agrees(state, snapshot),
        answers(snapshot, event),
    ensures
        agrees(step(state, event).0, snapshot),
        !(step(state, event).1 is Fail),
        step(state, event).1 is Complete ==> step(state, event).1->Complete_0
            == expected_results(snapshot),
{
    let next = step(state, event);
    let expected = expected_results(snapshot);
    if !state.finished {
        match event {
            FetchEventView::Record { index, record } => {
                if index < state.slots.len() && index < state.ids.len()
                    && state.slots[index as int] is AwaitingRecord {
                    match record {
                        Ok(None) => {
                            lemma_settle_agrees(state, snapshot, index as int, None);
                        },
                        Ok(Some(r)) => {
                            assert forall|i: int| 0 <= i < next.0.slots.len() implies match #[trigger] next.0.slots[i] {
                                FetchSlotView::AwaitingRecord => true,
                                FetchSlotView::AwaitingTally(rec) => snapshot.records[i] == Some(
                                    rec,
                                ),
                                FetchSlotView::Settled(found) => found == expected[i],
                            } by {
                                if i != index as int {
                                    assert(next.0.slots[i] == state.slots[i]);
                                }
                            }
                        },
                        Err(_) => {},
                    }
                }
            },
            FetchEventView::Tally { index, tally } => {
                if index < state.slots.len() && state.slots[index as int] is AwaitingTally {
                    let record = state.slots[index as int]->AwaitingTally_0;
                    assert(snapshot.records[index as int] == Some(record));
                    lemma_settle_agrees(
                        state,
                        snapshot,
                        index as int,
                        Some(RawBundleView { record, tally: tally->Ok_0 }),
                    );
                }
            },
        }
    }
}

/// Settling a lookup with what the chain holds at its position keeps the
/// agreement, and completes with the chain's contents if it completes.
proof fn lemma_settle_agrees(
    state: FetchStateView,
    snapshot: Snapshot,
    index: int,
    found: Option<RawBundleView>,
)
    requires
        !state.finished,
        state.slots.len() == state.ids.len(),
        snapshot.records.len() == state.ids.len(),
        snapshot.tallies.len() == state.ids.len(),
        agrees(state, snapshot),
        0 <= index < state.slots.len(),
        found == expected_results(snapshot)[index],
    ensures
        agrees(settle(state, index, found).0, snapshot),
        settle(state, index, found).1 is Complete ==> settle(state, index, found).1->Complete_0
            == expected_results(snapshot),
        !(settle(state, index, found).1 is Fail),
{
    let slots = state.slots.update(index, FetchSlotView::Settled(found));
    let expected = expected_results(snapshot);
    assert forall|i: int| 0 <= i < slots.len() implies match #[trigger] slots[i] {
        FetchSlotView::AwaitingRecord => true,
        FetchSlotView::AwaitingTally(rec) => snapshot.records[i] == Some(rec),
        FetchSlotView::Settled(f) => f == expected[i],
    } by {
        if i != index {
            assert(slots[i] == state.slots[i]);
        }
    }
    if all_settled(slots) {
        assert forall|i: int| 0 <= i < slots.len() implies settled_results(slots)[i]
            == expected[i] by {
            assert(slots[i] is Settled);
        }
        assert(settled_results(slots) =~= expected);
    }
}

/// Whatever events a join takes, its state stays well-formed and its ids stay
/// the ones it was started with.
pub proof fn lemma_run_well_formed(ids: Seq<u64>, events: Seq<FetchEventView>)
    ensures
        well_formed(outcome_after(ids, events).0),
        outcome_after(ids, events).0.ids == ids,
    decreases events.len(),
{
    if events.len() == 0 {
        lemma_initial_well_formed(ids);
    } else {
        lemma_run_well_formed(ids, events.drop_last());
        lemma_step_well_formed(outcome_after(ids, events.drop_last()).0, events.last());
    }
}

/// Against a chain that does not change and does not fail, a join never
/// fails, and when it completes it hands out what the chain holds under each
/// id, in the order of the ids, whatever the order of the completions was.
pub proof fn lemma_run_agrees(ids: Seq<u64>, snapshot: Snapshot, events: Seq<FetchEventView>)
    requires
        snapshot.records.len() == ids.len(),
        snapshot.tallies.len() == ids.len(),
        all_answer(snapshot, events),
    ensures
        agrees(outcome_after(ids, events).0, snapshot),
        !(outcome_after(ids, events).1 is Fail),
        outcome_after(ids, events).1 is Complete ==> outcome_after(ids, events).1->Complete_0
            == expected_results(snapshot),
    decreases events.len(),
{
    if events.len() == 0 {
        if ids.len() == 0 {
            assert(expected_results(snapshot) =~= Seq::empty());
        }
    } else {
        let before = events.drop_last();
        assert forall|k: int| 0 <= k < before.len() implies answers(
            snapshot,
            #[trigger] before[k],
        ) by {
            assert(before[k] == events[k]);
        }
        lemma_run_agrees(ids, snapshot, before);
        lemma_run_well_formed(ids, before);
        assert(answers(snapshot, events[events.len() - 1]));
        lemma_step_agrees(outcome_after(ids, before).0, snapshot, events.last());
    }
}

/// Two joins over the same ids against the same unchanged chain hand out the
/// same results, however differently their completions were ordered.
pub proof fn lemma_order_independence(
    ids: Seq<u64>,
    snapshot: Snapshot,
    first: Seq<FetchEventView>,
    second: Seq<FetchEventView>,
)
    requires
        snapshot.records.len() == ids.len(),
        snapshot.tallies.len() == ids.len(),
        all_answer(snapshot, first),
        all_answer(snapshot, second),
        outcome_after(ids, first).1 is Complete,
        outcome_after(ids, second).1 is Complete,
    ensures
        outcome_after(ids, first).1 == outcome_after(ids, second).1,
{
    lemma_run_agrees(ids, snapshot, first);
    lemma_run_agrees(ids, snapshot, second);
}

/// Once a join has closed, by completing or by failing, nothing that arrives
/// later changes it or draws anything from it: after a failure no results are
/// ever handed out, and results are handed out at most once.
pub proof fn lemma_nothing_after_close(ids: Seq<u64>, events: Seq<FetchEventView>, k: int)
    requires
        0 <= k < events.len(),
        outcome_after(ids, events.take(k)).0.finished,
    ensures
        outcome_after(ids, events) == (
            outcome_after(ids, events.take(k)).0,
            FetchActionView::Wait,
        ),
    decreases events.len(),
{
    let before = events.drop_last();
    if k == events.len() - 1 {
        assert(before =~= events.take(k));
    } else {
        assert(before.take(k) =~= events.take(k));
        lemma_nothing_after_close(ids, before, k);
    }
    lemma_closed_is_final(outcome_after(ids, before).0, events.last());
}

/// The action that closes a join is the one that hands out its results or its
/// failure: a transition ends in a closed state from an open one exactly when
/// its action is a completion or a failure.
pub proof fn lemma_close_is_announced(state: FetchStateView, event: FetchEventView)
    requires
        well_formed(state),
        !state.finished,
    ensures
        step(state, event).0.finished <==> (step(state, event).1 is Complete || step(
            state,
            event,
        ).1 is Fail),
{
    lemma_step_well_formed(state, event);
    let next = step(state, event);
    match event {
        FetchEventView::Record { index, record } => {
            if index < state.slots.len() && index < state.ids.len()
                && state.slots[index as int] is AwaitingRecord {
                if record matches Ok(Some(r)) {
                    assert(!next.0.finished);
                }
            }
        },
        FetchEventView::Tally { index, tally } => {},
    }
}

/// The queries that one lookup may still need: its record and its tally, its
/// tally alone, or none.
pub open spec fn queries_of(slot: FetchSlotView) -> nat {
    match slot {
        FetchSlotView::AwaitingRecord => 2,
        FetchSlotView::AwaitingTally(_) => 1,
        FetchSlotView::Settled(_) => 0,
    }
}

/// An upper bound on the queries that the lookups may still need, all
/// together.
pub open spec fn queries_left(slots: Seq<FetchSlotView>) -> nat
    decreases slots.len(),
{
    if slots.len() == 0 {
        0
    } else {
        queries_left(slots.drop_last()) + queries_of(slots.last())
    }
}

/// The event answers a query that is under way in `state`: a record for a
/// lookup that waits for its record, or a tally for one that waits for its
/// tally.
pub open spec fn is_due(state: FetchStateView, event: FetchEventView) -> bool {
    match event {
        FetchEventView::Record { index, record } => index < state.slots.len() && index
            < state.ids.len() && state.slots[index as int] is AwaitingRecord,
        FetchEventView::Tally { index, tally } => index < state.slots.len()
            && state.slots[index as int] is AwaitingTally,
    }
}

/// Replacing one lookup changes the bound by the difference between the two.
proof fn lemma_queries_left_update(slots: Seq<FetchSlotView>, index: int, slot: FetchSlotView)
    requires
        0 <= index < slots.len(),
    ensures
        queries_left(slots.update(index, slot)) + queries_of(slots[index]) == queries_left(slots)
            + queries_of(slot),
    decreases slots.len(),
{
    let updated = slots.update(index, slot);
    if index == slots.len() - 1 {
        assert(updated.drop_last() =~= slots.drop_last());
    } else {
        assert(updated.drop_last() =~= slots.drop_last().update(index, slot));
        lemma_queries_left_update(slots.drop_last(), index, slot);
    }
}

/// Lookups of which none needs a query are all settled.
proof fn lemma_none_left_means_settled(slots: Seq<FetchSlotView>)
    ensures
        queries_left(slots) == 0 <==> all_settled(slots),
    decreases slots.len(),
{
    if slots.len() > 0 {
        lemma_none_left_means_settled(slots.drop_last());
        if all_settled(slots) {
            assert forall|i: int| 0 <= i < slots.drop_last().len() implies (
            #[trigger] slots.drop_last()[i]) is Settled by {
                assert(slots[i] is Settled);
            }
            assert(slots[slots.len() - 1] is Settled);
        }
        if queries_left(slots) == 0 {
            assert forall|i: int| 0 <= i < slots.len() implies (#[trigger] slots[i]) is Settled by {
                if i < slots.len() - 1 {
                    assert(slots.drop_last()[i] is Settled);
                }
            }
        }
    }
}

/// A join that starts with queries asks for at most two per id.
pub proof fn lemma_queries_at_start(ids: Seq<u64>)
    ensures
        queries_left(initial(ids).0.slots) == 2 * ids.len(),
    decreases ids.len(),
{
    if ids.len() == 0 {
    } else {
        let slots = open_state(ids).slots;
        let fewer = ids.drop_last();
        lemma_queries_at_start(fewer);
        assert(slots.drop_last() =~= open_state(fewer).slots);
        if fewer.len() == 0 {
            assert(queries_left(slots.drop_last()) == 0);
        }
    }
}

/// An open join always has a query under way, and every answer to one brings
/// it nearer to its end: it closes the join, or leaves fewer queries to wait
/// for. So a join over `n` ids closes after at most `2 * n` answers.
pub proof fn lemma_step_progress(state: FetchStateView, event: FetchEventView)
    requires
        well_formed(state),
        !state.finished,
    ensures
        queries_left(state.slots) > 0,
        exists|i: int| 0 <= i < state.slots.len() && !((#[trigger] state.slots[i]) is Settled),
        is_due(state, event) ==> step(state, event).0.finished || queries_left(
            step(state, event).0.slots,
        ) < queries_left(state.slots),
        !is_due(state, event) ==> step(state, event) == (state, FetchActionView::Wait),
{
    lemma_none_left_means_settled(state.slots);
    if is_due(state, event) {
        match event {
            FetchEventView::Record { index, record } => {
                match record {
                    Ok(None) => {
                        lemma_queries_left_update(
                            state.slots,
                            index as int,
                            FetchSlotView::Settled(None),
                        );
                    },
                    Ok(Some(r)) => {
                        lemma_queries_left_update(
                            state.slots,
                            index as int,
                            FetchSlotView::AwaitingTally(r),
                        );
                    },
                    Err(_) => {},
                }
            },
            FetchEventView::Tally { index, tally } => {
                match tally {
                    Ok(t) => {
                        lemma_queries_left_update(
                            state.slots,
                            index as int,
                            FetchSlotView::Settled(
                                Some(
                                    RawBundleView {
                                        record: state.slots[index as int]->AwaitingTally_0,
                                        tally: t,
                                    },
                                ),
                            ),
                        );
                    },
                    Err(_) => {},
                }
            },
        }
    }
}

} // verus!
