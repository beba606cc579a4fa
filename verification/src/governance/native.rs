//! What the chain knows of a proposal, held as plain values: the record, its
//! tally, the epoch, and the parameters that all proposals share.

use vstd::prelude::*;

verus! {

/// The chain's logical time unit.
pub type Epoch = u64;

/// Where a proposal stands in its life, as the chain sees it.
#[derive(Clone, Copy, Debug, PartialEq, Eq, Structural)]
pub enum ProposalStatus {
    /// Voting has not begun.
    Pending,
    /// Voting is open.
    OnGoing,
    /// Voting has closed.
    Ended,
}

/// How the vote on a proposal came out.
#[derive(Clone, Copy, Debug, PartialEq, Eq, Structural)]
pub enum TallyResult {
    Passed,
    Rejected,
}

/// The counted votes of a proposal. The two powers are amounts of the native
/// token, written in its native denomination.
#[derive(Debug)]
pub struct ProposalResult {
    pub result: TallyResult,
    pub total_yay_power: String,
    pub total_nay_power: String,
}

/// What a [`ProposalResult`] holds, as mathematical values.
pub struct ProposalResultView {
    pub result: TallyResult,
    pub total_yay_power: Seq<char>,
    pub total_nay_power: Seq<char>,
}

impl DeepView for ProposalResult {
    type V = ProposalResultView;

    open spec fn deep_view(&self) -> ProposalResultView {
        ProposalResultView {
            result: self.result,
            total_yay_power: self.total_yay_power@,
            total_nay_power: self.total_nay_power@,
        }
    }
}

/// One entry of a proposal's content map.
#[derive(Debug)]
pub struct ContentEntry {
    pub key: String,
    pub value: String,
}

/// What a [`ContentEntry`] holds, as mathematical values.
pub struct ContentEntryView {
    pub key: Seq<char>,
    pub value: Seq<char>,
}

impl DeepView for ContentEntry {
    type V = ContentEntryView;

    open spec fn deep_view(&self) -> ContentEntryView {
        ContentEntryView { key: self.key@, value: self.value@ }
    }
}

/// A proposal as the chain stores it. `proposal_type` is the text by which the
/// chain names the proposal's kind. `content` holds the entries of the chain's
/// content map, each key once (see [`distinct_keys`]).
#[derive(Debug)]
pub struct StorageProposal {
    pub id: u64,
    pub proposal_type: String,
    pub content: Vec<ContentEntry>,
    pub voting_start_epoch: Epoch,
    pub voting_end_epoch: Epoch,
}

/// What a [`StorageProposal`] holds, as mathematical values.
pub struct StorageProposalView {
    pub id: u64,
    pub proposal_type: Seq<char>,
    pub content: Seq<ContentEntryView>,
    pub voting_start_epoch: Epoch,
    pub voting_end_epoch: Epoch,
}

impl DeepView for StorageProposal {
    type V = StorageProposalView;

    open spec fn deep_view(&self) -> StorageProposalView {
        StorageProposalView {
            id: self.id,
            proposal_type: self.proposal_type@,
            content: self.content.deep_view(),
            voting_start_epoch: self.voting_start_epoch,
            voting_end_epoch: self.voting_end_epoch,
        }
    }
}

/// The lifecycle phase of a proposal whose voting window is
/// `[voting_start_epoch, voting_end_epoch]`, seen at `current_epoch`.
pub open spec fn status_at(
    voting_start_epoch: Epoch,
    voting_end_epoch: Epoch,
    current_epoch: Epoch,
) -> ProposalStatus {
    if current_epoch < voting_start_epoch {
        ProposalStatus::Pending
    } else if current_epoch <= voting_end_epoch {
        ProposalStatus::OnGoing
    } else {
        ProposalStatus::Ended
    }
}

/// The value that the first entry with key `key` holds, or the empty text
/// where no entry has that key.
pub open spec fn content_lookup(content: Seq<ContentEntryView>, key: Seq<char>) -> Seq<char>
    decreases content.len(),
{
    if content.len() == 0 {
        Seq::empty()
    } else if content[0].key == key {
        content[0].value
    } else {
        content_lookup(content.drop_first(), key)
    }
}

/// No two entries have the same key: the entries are those of a map.
pub open spec fn distinct_keys(content: Seq<ContentEntryView>) -> bool {
    forall|i: int, j: int|
        0 <= i < j < content.len() ==> (#[trigger] content[i]).key != (#[trigger] content[j]).key
}

/// In a content map, looking up the key of an entry finds that entry's value.
pub proof fn lemma_lookup_finds_entry(content: Seq<ContentEntryView>, i: int)
    requires
        distinct_keys(content),
        0 <= i < content.len(),
    ensures
        content_lookup(content, content[i].key) == content[i].value,
    decreases content.len(),
{
    if i > 0 {
        let rest = content.drop_first();
        assert(content[0].key != content[i].key);
        assert forall|a: int, b: int| 0 <= a < b < rest.len() implies (#[trigger] rest[a]).key != (
        #[trigger] rest[b]).key by {
            assert(rest[a] == content[a + 1]);
            assert(rest[b] == content[b + 1]);
        }
        assert(rest[i - 1] == content[i]);
        lemma_lookup_finds_entry(rest, i - 1);
    }
}

/// Looking up a key that no entry has finds the empty text.
pub proof fn lemma_lookup_absent(content: Seq<ContentEntryView>, key: Seq<char>)
    requires
        forall|i: int| 0 <= i < content.len() ==> (#[trigger] content[i]).key != key,
    ensures
        content_lookup(content, key) == Seq::<char>::empty(),
    decreases content.len(),
{
    if content.len() > 0 {
        let rest = content.drop_first();
        assert forall|i: int| 0 <= i < rest.len() implies (#[trigger] rest[i]).key != key by {
            assert(rest[i] == content[i + 1]);
        }
        lemma_lookup_absent(rest, key);
    }
}

impl StorageProposalView {
    /// The lifecycle phase at `current_epoch`.
    pub open spec fn status(self, current_epoch: Epoch) -> ProposalStatus {
        status_at(self.voting_start_epoch, self.voting_end_epoch, current_epoch)
    }
}

/// Whether no entry before position `upto` has the key of the entry at `upto`.
fn key_is_new(content: &Vec<ContentEntry>, upto: usize) -> (fresh: bool)
    requires
        upto < content.len(),
    ensures
        fresh == forall|i: int|
            0 <= i < upto ==> (#[trigger] content.deep_view()[i]).key
                != content.deep_view()[upto as int].key,
{
    let ghost views = content.deep_view();
    let mut i: usize = 0;
    while i < upto
        invariant
            i <= upto < content.len(),
            views == content.deep_view(),
            forall|a: int| 0 <= a < i ==> (#[trigger] views[a]).key != views[upto as int].key,
        decreases upto - i,
    {
        assert(views[i as int].key == content[i as int].key@);
        assert(views[upto as int].key == content[upto as int].key@);
        if content[i].key == content[upto].key {
            return false;
        }
        i = i + 1;
    }
    true
}

/// Whether the entries are those of a map: whether no key occurs twice.
pub fn entries_have_distinct_keys(content: &Vec<ContentEntry>) -> (ok: bool)
    ensures
        ok == distinct_keys(content.deep_view()),
{
    let ghost views = content.deep_view();
    let mut j: usize = 0;
    while j < content.len()
        invariant
            j <= content.len(),
            views == content.deep_view(),
            forall|a: int, b: int|
                0 <= a < b < j ==> (#[trigger] views[a]).key != (#[trigger] views[b]).key,
        decreases content.len() - j,
    {
        if !key_is_new(content, j) {
            proof {
                let a = choose|a: int| 0 <= a < j && (#[trigger] views[a]).key == views[j as int].key;
                assert(views[a].key == views[j as int].key);
            }
            return false;
        }
        j = j + 1;
    }
    true
}

impl StorageProposal {
    /// A proposal with the given content, if the content is that of a map:
    /// if no key occurs twice in it. Otherwise there is none.
    pub fn new(
        id: u64,
        proposal_type: String,
        content: Vec<ContentEntry>,
        voting_start_epoch: Epoch,
        voting_end_epoch: Epoch,
    ) -> (proposal: Option<StorageProposal>)
        ensures
            proposal is Some <==> distinct_keys(content.deep_view()),
            proposal matches Some(p) ==> p.deep_view() == (StorageProposalView {
                id,
                proposal_type: proposal_type@,
                content: content.deep_view(),
                voting_start_epoch,
                voting_end_epoch,
            }),
    {
        if entries_have_distinct_keys(&content) {
            Some(StorageProposal { id, proposal_type, content, voting_start_epoch, voting_end_epoch })
        } else {
            None
        }
    }

    /// Whether the content is that of a map: whether no key occurs twice.
    pub fn has_distinct_keys(&self) -> (ok: bool)
        ensures
            ok == distinct_keys(self.deep_view().content),
    {
        entries_have_distinct_keys(&self.content)
    }

    /// The lifecycle phase of this proposal at `current_epoch`: pending before
    /// its voting window, ongoing inside it (both ends included), ended after.
    pub fn get_status(&self, current_epoch: Epoch) -> (status: ProposalStatus)
        ensures
            status == self.deep_view().status(current_epoch),
    {
        if self.voting_start_epoch > current_epoch {
            ProposalStatus::Pending
        } else if current_epoch <= self.voting_end_epoch {
            ProposalStatus::OnGoing
        } else {
            ProposalStatus::Ended
        }
    }

    /// The value stored in the content map under `key`, or the empty text where
    /// the map has no such key. Where the content is no map, because a key
    /// occurs twice, the first entry with the key counts.
    pub fn content_value(&self, key: &String) -> (value: String)
        ensures
            value@ == content_lookup(self.deep_view().content, key@),
            distinct_keys(self.deep_view().content) ==> forall|i: int|
                0 <= i < self.deep_view().content.len() && (
                #[trigger] self.deep_view().content[i]).key == key@ ==> value@
                    == self.deep_view().content[i].value,
            (forall|i: int|
                0 <= i < self.deep_view().content.len() ==> (
                #[trigger] self.deep_view().content[i]).key != key@) ==> value@
                == Seq::<char>::empty(),
    {
        let ghost content = self.deep_view().content;
        proof {
            if distinct_keys(content) {
                assert forall|i: int|
                    0 <= i < content.len() && (#[trigger] content[i]).key
                        == key@ implies content_lookup(content, key@) == content[i].value by {
                    lemma_lookup_finds_entry(content, i);
                }
            }
            if forall|i: int| 0 <= i < content.len() ==> (#[trigger] content[i]).key != key@ {
                lemma_lookup_absent(content, key@);
            }
        }
        let mut i: usize = 0;
        assert(content.skip(0) =~= content);
        while i < self.content.len()
            invariant
                i <= self.content.len(),
                content == self.deep_view().content,
                content.len() == self.content.len(),
                content_lookup(content, key@) == content_lookup(content.skip(i as int), key@),
            decreases self.content.len() - i,
        {
            let entry = &self.content[i];
            proof {
                let rest = content.skip(i as int);
                assert(rest[0] == entry.deep_view());
                assert(rest.drop_first() =~= content.skip(i as int + 1));
            }
            if entry.key == *key {
                return entry.value.clone();
            }
            i = i + 1;
        }
        String::new()
    }
}

/// The governance parameters that every proposal of a listing shares.
/// `min_proposal_fund` is an amount of the native token, written in its native
/// denomination.
#[derive(Debug)]
pub struct GovernanceParameters {
    pub min_proposal_fund: String,
    pub min_proposal_voting_period: u64,
}

/// A proposal record together with its tally, where one could be had.
#[derive(Debug)]
pub struct RawBundle {
    pub record: StorageProposal,
    pub tally: Option<ProposalResult>,
}

/// What a [`RawBundle`] holds, as mathematical values.
pub struct RawBundleView {
    pub record: StorageProposalView,
    pub tally: Option<ProposalResultView>,
}

impl DeepView for RawBundle {
    type V = RawBundleView;

    open spec fn deep_view(&self) -> RawBundleView {
        RawBundleView { record: self.record.deep_view(), tally: self.tally.deep_view() }
    }
}

/// Why a query to the chain failed, in the words of the transport.
#[derive(Debug)]
pub struct TransportError {
    pub message: String,
}

} // verus!
