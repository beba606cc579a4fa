//! The ids that a proposal listing walks over.

use vstd::prelude::*;

verus! {

/// The ids below `counter`, in ascending order.
pub open spec fn proposal_id_range(counter: u64) -> Seq<u64> {
    Seq::new(counter as nat, |i: int| i as u64)
}

/// Lists every proposal id that the chain may hold a record for, given its
/// proposal counter: `0, 1, .., counter - 1`.
///
/// The counter has to fit in a `usize`, since the ids are handed out as a `Vec`.
pub fn enumerate_proposal_ids(counter: u64) -> (ids: Vec<u64>)
    requires
        counter <= usize::MAX,
    ensures
        ids@ == proposal_id_range(counter),
{
    let mut ids: Vec<u64> = Vec::new();
    let mut next: u64 = 0;
    while next < counter
        invariant
            next <= counter,
            ids@ == proposal_id_range(next),
        decreases counter - next,
    {
        ids.push(next);
        next = next + 1;
    }
    ids
}

/// The ids of a chain whose counter is `counter` are exactly the `counter`
/// numbers below it, each at the position of its own value, and so in
/// strictly ascending order.
pub proof fn lemma_id_range(counter: u64)
    ensures
        proposal_id_range(counter).len() == counter,
        forall|i: int| 0 <= i < counter ==> #[trigger] proposal_id_range(counter)[i] == i,
        forall|i: int, j: int|
            0 <= i < j < counter ==> #[trigger] proposal_id_range(counter)[i]
                < #[trigger] proposal_id_range(counter)[j],
        forall|id: u64| proposal_id_range(counter).contains(id) <==> id < counter,
{
    assert forall|id: u64| proposal_id_range(counter).contains(id) <==> id < counter by {
        if id < counter {
            assert(proposal_id_range(counter)[id as int] == id);
        }
    }
}

} // verus!
