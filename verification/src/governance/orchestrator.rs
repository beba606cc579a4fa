//! Joining the lookups of one listing.
//!
//! A listing looks up every id at once: first the record, then, where a record
//! was found, its tally. The lookups complete in any order. This module holds
//! the decisions that the join takes on each completion, as a transition from
//! a state and an event to the next state and an action; the program that
//! embeds the crate performs the actions and reports the completions.
//!
//! The join is all or nothing. The first failure closes it, and whatever had
//! been found until then is dropped. Without a failure it closes when the last
//! id is settled, with one result per id in the order of the ids.

use vstd::prelude::*;
use vstd::pervasive::VecAdditionalExecFns;
use crate::governance::enumerate::{enumerate_proposal_ids, proposal_id_range};
use crate::governance::native::{
    ProposalResult, ProposalResultView, RawBundle, RawBundleView, StorageProposal,
    StorageProposalView, TransportError,
};

verus! {

/// How far the lookup of one id has come.
#[derive(Debug)]
pub enum FetchSlot {
    /// The record has been asked for.
    AwaitingRecord,
    /// The record was found, and its tally has been asked for.
    AwaitingTally(StorageProposal),
    /// Nothing more is asked: the chain has no record (`None`), or the record
    /// and what was learnt of its tally are here.
    Settled(Option<RawBundle>),
}

/// What a [`FetchSlot`] holds, as mathematical values.
pub enum FetchSlotView {
    AwaitingRecord,
    AwaitingTally(StorageProposalView),
    Settled(Option<RawBundleView>),
}

impl DeepView for FetchSlot {
    type V = FetchSlotView;

    open spec fn deep_view(&self) -> FetchSlotView {
        match self {
            FetchSlot::AwaitingRecord => FetchSlotView::AwaitingRecord,
            FetchSlot::AwaitingTally(record) => FetchSlotView::AwaitingTally(record.deep_view()),
            FetchSlot::Settled(found) => FetchSlotView::Settled(found.deep_view()),
        }
    }
}

/// The completion of one query. `index` is the position, among the ids of the
/// join, of the id that was queried.
#[derive(Debug)]
pub enum FetchEvent {
    /// A record query completed: with the record, with the news that there is
    /// none, or with a failure.
    Record { index: usize, record: Result<Option<StorageProposal>, TransportError> },
    /// A tally query completed: with the tally, with the news that there is
    /// none, or with a failure.
    Tally { index: usize, tally: Result<Option<ProposalResult>, TransportError> },
}

/// What a [`FetchEvent`] holds, as mathematical values. A failure is held by
/// its message.
pub enum FetchEventView {
    Record { index: usize, record: Result<Option<StorageProposalView>, Seq<char>> },
    Tally { index: usize, tally: Result<Option<ProposalResultView>, Seq<char>> },
}

impl DeepView for FetchEvent {
    type V = FetchEventView;

    open spec fn deep_view(&self) -> FetchEventView {
        match self {
            FetchEvent::Record { index, record } => FetchEventView::Record {
                index: *index,
                record: match record {
                    Ok(found) => Ok(found.deep_view()),
                    Err(e) => Err(e.message@),
                },
            },
            FetchEvent::Tally { index, tally } => FetchEventView::Tally {
                index: *index,
                tally: match tally {
                    Ok(found) => Ok(found.deep_view()),
                    Err(e) => Err(e.message@),
                },
            },
        }
    }
}

/// What the join asks of its driver after a transition.
#[derive(Debug)]
pub enum FetchAction {
    /// Nothing new: go on waiting for completions.
    Wait,
    /// Query the record of each of these ids, all at once, and report each
    /// completion with the id's position in this list.
    QueryRecords(Vec<u64>),
    /// Query the tally of proposal `id`, and report the completion with
    /// `index`.
    QueryTally { index: usize, id: u64 },
    /// The join failed with this error. Nothing that was found is handed out;
    /// completions that still arrive are ignored.
    Fail(TransportError),
    /// Every id is settled. The results stand in the order of the ids.
    Complete(Vec<Option<RawBundle>>),
}

/// What a [`FetchAction`] holds, as mathematical values.
pub enum FetchActionView {
    Wait,
    QueryRecords(Seq<u64>),
    QueryTally { index: usize, id: u64 },
    Fail(Seq<char>),
    Complete(Seq<Option<RawBundleView>>),
}

impl DeepView for FetchAction {
    type V = FetchActionView;

    open spec fn deep_view(&self) -> FetchActionView {
        match self {
            FetchAction::Wait => FetchActionView::Wait,
            FetchAction::QueryRecords(ids) => FetchActionView::QueryRecords(ids@),
            FetchAction::QueryTally { index, id } => FetchActionView::QueryTally {
                index: *index,
                id: *id,
            },
            FetchAction::Fail(e) => FetchActionView::Fail(e.message@),
            FetchAction::Complete(results) => FetchActionView::Complete(results.deep_view()),
        }
    }
}

/// The state of a join: the ids it looks up, how far each lookup has come, and
/// whether the join has closed.
#[derive(Debug)]
pub struct FetchOrchestrator {
    ids: Vec<u64>,
    slots: Vec<FetchSlot>,
    /// How many lookups are not settled yet.
    open: usize,
    finished: bool,
}

/// What a [`FetchOrchestrator`] holds, as mathematical values. The join also
/// keeps count of its unsettled lookups; the count is no part of the view,
/// since the lookups fix it (see [`unsettled`]).
pub struct FetchStateView {
    pub ids: Seq<u64>,
    pub slots: Seq<FetchSlotView>,
    pub finished: bool,
}

impl DeepView for FetchOrchestrator {
    type V = FetchStateView;

    closed spec fn deep_view(&self) -> FetchStateView {
        FetchStateView {
            ids: self.ids@,
            slots: self.slots.deep_view(),
            finished: self.finished,
        }
    }
}

/// What every state of a join looks like: closed with nothing kept, or open
/// with one lookup per id, at least one of which is still under way.
pub open spec fn well_formed(state: FetchStateView) -> bool {
    if state.finished {
        state.slots.len() == 0
    } else {
        &&& state.slots.len() == state.ids.len()
        &&& !all_settled(state.slots)
    }
}

/// Every lookup is settled.
pub open spec fn all_settled(slots: Seq<FetchSlotView>) -> bool {
    forall|i: int| 0 <= i < slots.len() ==> (#[trigger] slots[i]) is Settled
}

/// What each lookup found, in the order of the ids. Meant for slots that are
/// all settled.
pub open spec fn settled_results(slots: Seq<FetchSlotView>) -> Seq<Option<RawBundleView>> {
    Seq::new(slots.len(), |i: int| slots[i]->Settled_0)
}

/// The state of a closed join over `ids`.
pub open spec fn closed_state(ids: Seq<u64>) -> FetchStateView {
    FetchStateView { ids, slots: Seq::empty(), finished: true }
}

/// The state of a join over `ids` whose record queries are all under way.
pub open spec fn open_state(ids: Seq<u64>) -> FetchStateView {
    FetchStateView {
        ids,
        slots: Seq::new(ids.len(), |i: int| FetchSlotView::AwaitingRecord),
        finished: false,
    }
}

/// The start of a join over `ids`: it asks for every record at once, or, with
/// no ids, is complete at once.
pub open spec fn initial(ids: Seq<u64>) -> (FetchStateView, FetchActionView) {
    if ids.len() == 0 {
        (closed_state(ids), FetchActionView::Complete(Seq::empty()))
    } else {
        (open_state(ids), FetchActionView::QueryRecords(ids))
    }
}

/// Settles the lookup at `index` with `found`: the join completes if that was
/// the last open lookup, and waits otherwise.
pub open spec fn settle(state: FetchStateView, index: int, found: Option<RawBundleView>) -> (
    FetchStateView,
    FetchActionView,
) {
    let slots = state.slots.update(index, FetchSlotView::Settled(found));
    if all_settled(slots) {
        (closed_state(state.ids), FetchActionView::Complete(settled_results(slots)))
    } else {
        (FetchStateView { slots, ..state }, FetchActionView::Wait)
    }
}

/// One transition of the join.
///
/// A closed join ignores every event. So does an open one for an event that
/// answers no query that is under way (a position that it does not have, or a
/// lookup that is not waiting for this kind of answer). Otherwise:
/// a failure closes the join; a record that was found asks for its tally; the
/// news that there is no record settles the lookup with nothing; a tally, or
/// the news that there is none, settles the lookup with the record and that.
pub open spec fn step(state: FetchStateView, event: FetchEventView) -> (
    FetchStateView,
    FetchActionView,
) {
    if state.finished {
        (state, FetchActionView::Wait)
    } else {
        match event {
            FetchEventView::Record { index, record: outcome } => {
                if index < state.slots.len() && index < state.ids.len()
                    && state.slots[index as int] is AwaitingRecord {
                    match outcome {
                        Err(cause) => (closed_state(state.ids), FetchActionView::Fail(cause)),
                        Ok(None) => settle(state, index as int, None),
                        Ok(Some(record)) => (
                            FetchStateView {
                                slots: state.slots.update(
                                    index as int,
                                    FetchSlotView::AwaitingTally(record),
                                ),
                                ..state
                            },
                            FetchActionView::QueryTally { index, id: state.ids[index as int] },
                        ),
                    }
                } else {
                    (state, FetchActionView::Wait)
                }
            },
            FetchEventView::Tally { index, tally: outcome } => {
                if index < state.slots.len() && state.slots[index as int] is AwaitingTally {
                    match outcome {
                        Err(cause) => (closed_state(state.ids), FetchActionView::Fail(cause)),
                        Ok(tally) => settle(
                            state,
                            index as int,
                            Some(
                                RawBundleView {
                                    record: state.slots[index as int]->AwaitingTally_0,
                                    tally,
                                },
                            ),
                        ),
                    }
                } else {
                    (state, FetchActionView::Wait)
                }
            },
        }
    }
}

/// A copy of `ids`.
fn copy_ids(ids: &Vec<u64>) -> (copy: Vec<u64>)
    ensures
        copy@ == ids@,
{
    let mut copy: Vec<u64> = Vec::new();
    let mut i: usize = 0;
    while i < ids.len()
        invariant
            i <= ids.len(),
            copy@ == ids@.take(i as int),
        decreases ids.len() - i,
    {
        copy.push(ids[i]);
        assert(copy@ =~= ids@.take(i + 1));
        i = i + 1;
    }
    assert(ids@.take(ids.len() as int) =~= ids@);
    copy
}

/// `n` lookups that all wait for their record.
fn fresh_slots(n: usize) -> (slots: Vec<FetchSlot>)
    ensures
        slots.deep_view() == Seq::new(n as nat, |i: int| FetchSlotView::AwaitingRecord),
{
    let mut slots: Vec<FetchSlot> = Vec::new();
    let mut i: usize = 0;
    while i < n
        invariant
            i <= n,
            slots.len() == i,
            forall|j: int| 0 <= j < i ==> (#[trigger] slots[j]).deep_view() is AwaitingRecord,
        decreases n - i,
    {
        slots.push(FetchSlot::AwaitingRecord);
        i = i + 1;
    }
    assert(slots.deep_view() =~= Seq::new(n as nat, |i: int| FetchSlotView::AwaitingRecord));
    slots
}

/// How many of the lookups are not settled.
pub open spec fn unsettled(slots: Seq<FetchSlotView>) -> nat
    decreases slots.len(),
{
    if slots.len() == 0 {
        0
    } else {
        unsettled(slots.drop_last()) + if slots.last() is Settled {
            0nat
        } else {
            1nat
        }
    }
}

/// No lookup is unsettled exactly when all are settled, and there are never
/// more unsettled lookups than lookups.
pub proof fn lemma_unsettled_none(slots: Seq<FetchSlotView>)
    ensures
        unsettled(slots) == 0 <==> all_settled(slots),
        unsettled(slots) <= slots.len(),
    decreases slots.len(),
{
    if slots.len() > 0 {
        let fewer = slots.drop_last();
        lemma_unsettled_none(fewer);
        if all_settled(slots) {
            assert forall|i: int| 0 <= i < fewer.len() implies (#[trigger] fewer[i]) is Settled by {
                assert(slots[i] is Settled);
            }
            assert(slots[slots.len() - 1] is Settled);
        }
        if unsettled(slots) == 0 {
            assert forall|i: int| 0 <= i < slots.len() implies (#[trigger] slots[i]) is Settled by {
                if i < slots.len() - 1 {
                    assert(fewer[i] is Settled);
                }
            }
        }
    }
}

/// Replacing one lookup changes the number of unsettled ones by one where a
/// settled lookup takes the place of an unsettled one or the other way round,
/// and not at all otherwise.
pub proof fn lemma_unsettled_update(slots: Seq<FetchSlotView>, index: int, slot: FetchSlotView)
    requires
        0 <= index < slots.len(),
    ensures
        unsettled(slots.update(index, slot)) + (if slots[index] is Settled {
            0nat
        } else {
            1nat
        }) == unsettled(slots) + (if slot is Settled {
            0nat
        } else {
            1nat
        }),
    decreases slots.len(),
{
    let updated = slots.update(index, slot);
    if index == slots.len() - 1 {
        assert(updated.drop_last() =~= slots.drop_last());
    } else {
        assert(updated.drop_last() =~= slots.drop_last().update(index, slot));
        lemma_unsettled_update(slots.drop_last(), index, slot);
    }
}

/// Of lookups that all wait for their record, none is settled.
proof fn lemma_unsettled_fresh(n: nat)
    ensures
        unsettled(Seq::new(n, |i: int| FetchSlotView::AwaitingRecord)) == n,
    decreases n,
{
    if n > 0 {
        let slots = Seq::new(n, |i: int| FetchSlotView::AwaitingRecord);
        lemma_unsettled_fresh((n - 1) as nat);
        assert(slots.drop_last() =~= Seq::new((n - 1) as nat, |i: int| FetchSlotView::AwaitingRecord));
    }
}

/// What each lookup found, in the order of the ids.
fn collect_results(slots: Vec<FetchSlot>) -> (results: Vec<Option<RawBundle>>)
    requires
        all_settled(slots.deep_view()),
    ensures
        results.deep_view() == settled_results(slots.deep_view()),
{
    let ghost views = slots.deep_view();
    let mut results: Vec<Option<RawBundle>> = Vec::new();
    for slot in it: slots
        invariant
            it.seq() == slots@,
            views == slots.deep_view(),
            all_settled(views),
            results.len() == it.index(),
            forall|j: int|
                0 <= j < it.index() ==> (#[trigger] results[j]).deep_view()
                    == views[j]->Settled_0,
    {
        let ghost i = it.index() as int;
        assert(views[i] is Settled);
        assert(views[i] == slot.deep_view());
        match slot {
            FetchSlot::Settled(found) => {
                results.push(found);
            },
            _ => {
                results.push(None);
            },
        }
    }
    assert(results.deep_view() =~= settled_results(views));
    results
}

impl FetchOrchestrator {
    /// Every join is well-formed, at every moment, and knows how many of its
    /// lookups are not settled.
    #[verifier::type_invariant]
    closed spec fn is_well_formed(self) -> bool {
        &&& well_formed(self.deep_view())
        &&& self.open == unsettled(self.slots.deep_view())
    }

    /// Starts a join over `ids`. With ids, the action asks for the record of
    /// each; without, the join is complete at once, with no results.
    pub fn begin(ids: Vec<u64>) -> (start: (FetchOrchestrator, FetchAction))
        ensures
            (start.0.deep_view(), start.1.deep_view()) == initial(ids@),
            well_formed(start.0.deep_view()),
    {
        if ids.len() == 0 {
            let results: Vec<Option<RawBundle>> = Vec::new();
            let slots: Vec<FetchSlot> = Vec::new();
            assert(results.deep_view() =~= Seq::empty());
            assert(slots.deep_view() =~= Seq::empty());
            (
                FetchOrchestrator { ids, slots, open: 0, finished: true },
                FetchAction::Complete(results),
            )
        } else {
            let wanted = copy_ids(&ids);
            let open = ids.len();
            let slots = fresh_slots(open);
            proof {
                lemma_unsettled_fresh(open as nat);
                assert(!(slots.deep_view()[0] is Settled));
            }
            (
                FetchOrchestrator { ids, slots, open, finished: false },
                FetchAction::QueryRecords(wanted),
            )
        }
    }

    /// Starts the join of a listing on a chain whose proposal counter is
    /// `counter`: a join over the ids `0, 1, .., counter - 1`, in that order.
    /// With a counter above zero the action asks for the record of each of
    /// those ids, once each and of no other; with a counter of zero the join
    /// is complete at once.
    pub fn begin_listing(counter: u64) -> (start: (FetchOrchestrator, FetchAction))
        requires
            counter <= usize::MAX,
        ensures
            (start.0.deep_view(), start.1.deep_view()) == initial(proposal_id_range(counter)),
            counter > 0 ==> start.1.deep_view() == FetchActionView::QueryRecords(
                proposal_id_range(counter),
            ),
            counter == 0 ==> start.1.deep_view() == FetchActionView::Complete(Seq::empty()),
            well_formed(start.0.deep_view()),
    {
        Self::begin(enumerate_proposal_ids(counter))
    }

    /// Closes the join.
    fn close(ids: Vec<u64>) -> (closed: FetchOrchestrator)
        ensures
            closed.deep_view() == closed_state(ids@),
    {
        let slots: Vec<FetchSlot> = Vec::new();
        assert(slots.deep_view() =~= Seq::empty());
        FetchOrchestrator { ids, slots, open: 0, finished: true }
    }

    /// Settles the lookup at `index`, which was not settled, with `found`.
    fn settle_at(
        ids: Vec<u64>,
        slots: Vec<FetchSlot>,
        open: usize,
        index: usize,
        found: Option<RawBundle>,
    ) -> (next: (FetchOrchestrator, FetchAction))
        requires
            index < slots.len(),
            slots.len() == ids.len(),
            !(slots.deep_view()[index as int] is Settled),
            open == unsettled(slots.deep_view()),
        ensures
            (next.0.deep_view(), next.1.deep_view()) == settle(
                FetchStateView { ids: ids@, slots: slots.deep_view(), finished: false },
                index as int,
                found.deep_view(),
            ),
    {
        let ghost before = slots.deep_view();
        let ghost found_view = found.deep_view();
        let mut slots = slots;
        slots.set(index, FetchSlot::Settled(found));
        proof {
            assert(slots.deep_view() =~= before.update(
                index as int,
                FetchSlotView::Settled(found_view),
            ));
            lemma_unsettled_update(before, index as int, FetchSlotView::Settled(found_view));
            lemma_unsettled_none(slots.deep_view());
        }
        let open = open - 1;
        if open == 0 {
            let results = collect_results(slots);
            (Self::close(ids), FetchAction::Complete(results))
        } else {
            (FetchOrchestrator { ids, slots, open, finished: false }, FetchAction::Wait)
        }
    }

    /// Whether the join has closed, by completing or by failing.
    pub fn is_finished(&self) -> (finished: bool)
        ensures
            finished == self.deep_view().finished,
            well_formed(self.deep_view()),
    {
        proof {
            use_type_invariant(self);
        }
        self.finished
    }

    /// Takes one completion into account and says what to do next; see
    /// [`step`] for the rules.
    pub fn advance(self, event: FetchEvent) -> (next: (FetchOrchestrator, FetchAction))
        ensures
            (next.0.deep_view(), next.1.deep_view()) == step(
                self.deep_view(),
                event.deep_view(),
            ),
            well_formed(self.deep_view()),
            well_formed(next.0.deep_view()),
    {
        proof {
            use_type_invariant(&self);
        }
        if self.finished {
            return (self, FetchAction::Wait);
        }
        let ghost state = self.deep_view();
        let FetchOrchestrator { ids, slots, open, finished } = self;
        let mut slots = slots;
        match event {
            FetchEvent::Record { index, record: outcome } => {
                let waiting = index < slots.len() && index < ids.len() && match &slots[index] {
                    FetchSlot::AwaitingRecord => true,
                    _ => false,
                };
                if !waiting {
                    return (FetchOrchestrator { ids, slots, open, finished }, FetchAction::Wait);
                }
                match outcome {
                    Err(cause) => (Self::close(ids), FetchAction::Fail(cause)),
                    Ok(None) => Self::settle_at(ids, slots, open, index, None),
                    Ok(Some(record)) => {
                        let ghost record_view = record.deep_view();
                        let id = ids[index];
                        slots.set(index, FetchSlot::AwaitingTally(record));
                        assert(slots.deep_view() =~= state.slots.update(
                            index as int,
                            FetchSlotView::AwaitingTally(record_view),
                        ));
                        proof {
                            assert(!(slots.deep_view()[index as int] is Settled));
                            lemma_unsettled_update(
                                state.slots,
                                index as int,
                                FetchSlotView::AwaitingTally(record_view),
                            );
                        }
                        (
                            FetchOrchestrator { ids, slots, open, finished },
                            FetchAction::QueryTally { index, id },
                        )
                    },
                }
            },
            FetchEvent::Tally { index, tally: outcome } => {
                let waiting = index < slots.len() && match &slots[index] {
                    FetchSlot::AwaitingTally(_) => true,
                    _ => false,
                };
                if !waiting {
                    return (FetchOrchestrator { ids, slots, open, finished }, FetchAction::Wait);
                }
                match outcome {
                    Err(cause) => (Self::close(ids), FetchAction::Fail(cause)),
                    Ok(tally) => {
                        let mut taken = FetchSlot::AwaitingRecord;
                        slots.set_and_swap(index, &mut taken);
                        proof {
                            assert(slots.deep_view() =~= state.slots.update(
                                index as int,
                                FetchSlotView::AwaitingRecord,
                            ));
                            assert(taken.deep_view() == state.slots[index as int]);
                            lemma_unsettled_update(
                                state.slots,
                                index as int,
                                FetchSlotView::AwaitingRecord,
                            );
                        }
                        match taken {
                            FetchSlot::AwaitingTally(record) => {
                                let bundle = RawBundle { record, tally };
                                let ghost mid = slots.deep_view();
                                let next = Self::settle_at(ids, slots, open, index, Some(bundle));
                                assert(mid.update(
                                    index as int,
                                    FetchSlotView::Settled(Some(bundle.deep_view())),
                                ) =~= state.slots.update(
                                    index as int,
                                    FetchSlotView::Settled(Some(bundle.deep_view())),
                                ));
                                next
                            },
                            other => {
                                slots.set(index, other);
                                assert(slots.deep_view() =~= state.slots);
                                (FetchOrchestrator { ids, slots, open, finished }, FetchAction::Wait)
                            },
                        }
                    },
                }
            },
        }
    }
}

} // verus!
