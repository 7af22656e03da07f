//! How a caller claims a slot in a word that other callers change at the
//! same time.
//!
//! A caller never writes the word from what it read earlier. It picks a
//! slot that it last saw free and clears that slot's bit in one atomic
//! step, which also tells it what the word held just before. Only the
//! caller whose step found the bit still set has the slot; every other
//! caller learns from its own step that it was too late, and looks on in
//! the word as that step saw it. A slot once lost is not tried again, so
//! a search ends after at most as many steps as the pool has slots.

use crate::mask::{is_lowest, lease_from, lemma_lowest_unique, FreeMask, MAX_SLOTS};
use vstd::prelude::*;

verus! {

/// A search for a free slot that is under way.
#[derive(Clone, Copy, Debug, PartialEq, Eq, Structural)]
pub struct LeaseSearch {
    /// The slots of the pool that this search has not yet lost.
    pub untried: FreeMask,
    /// The free slots as the word last showed them.
    pub seen: FreeMask,
}

impl LeaseSearch {
    /// The slots that the search may still claim: those last seen free
    /// among those not yet lost.
    pub open spec fn candidates(self) -> Set<int> {
        self.seen@.intersect(self.untried@)
    }

    /// A search in a pool of `size` slots that has just read the word as
    /// `seen`.
    pub fn start(size: u8, seen: FreeMask) -> (search: LeaseSearch)
        requires
            size <= MAX_SLOTS,
        ensures
            search.untried@ == Set::new(|i: int| 0 <= i < size),
            search.seen == seen,
    {
        LeaseSearch { untried: FreeMask::full(size), seen }
    }

    /// The slot to claim next: the lowest candidate, or none if no
    /// candidate is left and the search has failed.
    pub fn candidate(&self) -> (next: Option<u8>)
        ensures
            match next {
                None => self.candidates() == Set::<int>::empty(),
                Some(i) => is_lowest(self.candidates(), i as int),
            },
    {
        self.seen.intersect(self.untried).lowest()
    }

    /// Reads the answer of the atomic step that cleared the bit of slot
    /// `index` and found the word as `before`. The claim is won exactly if
    /// the bit was still set; if it was not, the search goes on without
    /// that slot, in the word as the step found it.
    pub fn observe(self, index: u8, before: FreeMask) -> (verdict: Result<u8, LeaseSearch>)
        ensures
            match verdict {
                Ok(won) => before@.contains(index as int) && won == index,
                Err(search) => {
                    &&& !before@.contains(index as int)
                    &&& search.untried@ == self.untried@.remove(index as int)
                    &&& search.seen == before
                },
            },
    {
        if before.contains(index) {
            Ok(index)
        } else {
            Err(LeaseSearch { untried: self.untried.without(index), seen: before })
        }
    }
}

/// A search that has lost a claim never returns to the slot it lost, and
/// has fewer slots left to try than before.
pub proof fn lemma_lost_slot_not_retried(search: LeaseSearch, next: LeaseSearch, index: int)
    requires
        is_lowest(search.candidates(), index),
        next.untried@ == search.untried@.remove(index),
    ensures
        !next.candidates().contains(index),
        next.untried@.subset_of(search.untried@),
        next.untried@ != search.untried@,
{
}

/// In a word that nobody else changes, the first claim is won: the slot
/// that the search picks is still free when its bit is cleared, and it is
/// the slot that a lease takes from the free slots of the pool.
pub proof fn lemma_quiet_claim_wins(search: LeaseSearch, i: int)
    requires
        is_lowest(search.candidates(), i),
    ensures
        search.seen@.contains(i),
        lease_from(search.candidates()) == Some((i, search.candidates().remove(i))),
{
    let k = choose|k: int| is_lowest(search.candidates(), k);
    lemma_lowest_unique(search.candidates(), i, k);
}

} // verus!
