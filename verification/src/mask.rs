//! The free-slot word: one bit per pool position, set while the slot is free.

use vstd::prelude::*;

verus! {

/// Number of bits in the free-slot word.
pub const WORD_BITS: u8 = 64;

/// Largest number of slots a pool may hold.
pub const MAX_SLOTS: u8 = 63;

/// Whether bit `i` of `word` is set. False for every `i` outside `0..64`.
pub open spec fn bit_is_set(word: u64, i: int) -> bool {
    0 <= i < 64 && (word >> (i as u64)) & 1 == 1
}

/// Whether `i` is the lowest slot in `free`.
pub open spec fn is_lowest(free: Set<int>, i: int) -> bool {
    free.contains(i) && forall|j: int| free.contains(j) ==> i <= j
}

/// What a lease takes from the free slots `free`: the lowest of them, and
/// the slots that stay free; nothing if none is free.
pub open spec fn lease_from(free: Set<int>) -> Option<(int, Set<int>)> {
    if exists|i: int| is_lowest(free, i) {
        let i = choose|i: int| is_lowest(free, i);
        Some((i, free.remove(i)))
    } else {
        None
    }
}

/// A set of slot indices held in one machine word.
#[derive(Clone, Copy, Debug, PartialEq, Eq, Structural)]
pub struct FreeMask {
    pub bits: u64,
}

impl View for FreeMask {
    type V = Set<int>;

    /// The indices whose bit is set.
    open spec fn view(&self) -> Set<int> {
        Set::new(|i: int| bit_is_set(self.bits, i))
    }
}

proof fn lemma_no_bits(i: u64)
    by (bit_vector)
    requires
        i < 64,
    ensures
        (0u64 >> i) & 1 == 0,
{
}

proof fn lemma_bit_cleared(w: u64, k: u64, i: u64)
    by (bit_vector)
    requires
        k < 64,
        i < 64,
    ensures
        (((w & !(1u64 << k)) >> i) & 1 == 1) <==> ((w >> i) & 1 == 1 && i != k),
{
}

proof fn lemma_bit_raised(w: u64, k: u64, i: u64)
    by (bit_vector)
    requires
        k < 64,
        i < 64,
    ensures
        (((w | (1u64 << k)) >> i) & 1 == 1) <==> ((w >> i) & 1 == 1 || i == k),
{
}

proof fn lemma_bit_shared(w: u64, v: u64, i: u64)
    by (bit_vector)
    requires
        i < 64,
    ensures
        (((w & v) >> i) & 1 == 1) <==> ((w >> i) & 1 == 1 && (v >> i) & 1 == 1),
{
}

proof fn lemma_low_bits(n: u64, i: u64)
    by (bit_vector)
    requires
        n < 64,
        i < 64,
    ensures
        ((((1u64 << n) - 1) as u64 >> i) & 1 == 1) <==> i < n,
{
}

impl FreeMask {
    /// The mask with no slot in it.
    pub fn empty() -> (m: FreeMask)
        ensures
            m@ == Set::<int>::empty(),
    {
        let m = FreeMask { bits: 0 };
        proof {
            assert forall|i: int| !bit_is_set(0u64, i) by {
                if 0 <= i < 64 {
                    lemma_no_bits(i as u64);
                }
            }
        }
        m
    }

    /// The mask of the first `n` slots: `0, 1, .., n - 1`.
    pub fn full(n: u8) -> (m: FreeMask)
        requires
            n <= MAX_SLOTS,
        ensures
            m@ == Set::new(|i: int| 0 <= i < n),
    {
        let shifted: u64 = 1u64 << (n as u64);
        assert(shifted >= 1) by (bit_vector)
            requires
                shifted == 1u64 << (n as u64),
                n <= 63,
        ;
        let m = FreeMask { bits: shifted - 1 };
        proof {
            assert forall|i: int| bit_is_set(m.bits, i) <==> 0 <= i < n by {
                if 0 <= i < 64 {
                    lemma_low_bits(n as u64, i as u64);
                }
            }
        }
        m
    }

    /// Whether slot `index` is in the mask.
    pub fn contains(self, index: u8) -> (found: bool)
        ensures
            found == self@.contains(index as int),
    {
        index < WORD_BITS && (self.bits >> (index as u64)) & 1 == 1
    }

    /// The lowest slot in the mask, if it has any.
    pub fn lowest(self) -> (first: Option<u8>)
        ensures
            match first {
                None => self@ == Set::<int>::empty(),
                Some(i) => is_lowest(self@, i as int),
            },
    {
        proof {
            vstd::std_specs::bits::axiom_u64_trailing_zeros(self.bits);
        }
        if self.bits == 0 {
            proof {
                assert forall|i: int| !bit_is_set(self.bits, i) by {
                    if 0 <= i < 64 {
                        lemma_no_bits(i as u64);
                    }
                }
            }
            None
        } else {
            let zeros: u32 = self.bits.trailing_zeros();
            let first: u8 = zeros as u8;
            proof {
                assert forall|j: int| self@.contains(j) implies first <= j by {
                    if j < first {
                        let k = j as u64;
                        assert((self.bits >> k) & 1 == 0);
                    }
                }
            }
            Some(first)
        }
    }

    /// The mask without slot `index`.
    pub fn without(self, index: u8) -> (m: FreeMask)
        ensures
            m@ == self@.remove(index as int),
    {
        if index < WORD_BITS {
            let m = FreeMask { bits: self.bits & !(1u64 << (index as u64)) };
            proof {
                assert forall|i: int| m@.contains(i) <==> self@.remove(index as int).contains(
                    i,
                ) by {
                    if 0 <= i < 64 {
                        lemma_bit_cleared(self.bits, index as u64, i as u64);
                    }
                }
            }
            m
        } else {
            self
        }
    }

    /// The mask with slot `index` added. A word has no room for an index
    /// of `WORD_BITS` or more: the mask then stays as it is.
    pub fn with(self, index: u8) -> (m: FreeMask)
        ensures
            m@ == if index < WORD_BITS {
                self@.insert(index as int)
            } else {
                self@
            },
    {
        if index < WORD_BITS {
            let m = FreeMask { bits: self.bits | (1u64 << (index as u64)) };
            proof {
                assert forall|i: int| m@.contains(i) <==> self@.insert(index as int).contains(
                    i,
                ) by {
                    if 0 <= i < 64 {
                        lemma_bit_raised(self.bits, index as u64, i as u64);
                    }
                }
            }
            m
        } else {
            self
        }
    }

    /// The slots that are in both masks.
    pub fn intersect(self, other: FreeMask) -> (m: FreeMask)
        ensures
            m@ == self@.intersect(other@),
    {
        let m = FreeMask { bits: self.bits & other.bits };
        proof {
            assert forall|i: int| m@.contains(i) <==> self@.intersect(other@).contains(i) by {
                if 0 <= i < 64 {
                    lemma_bit_shared(self.bits, other.bits, i as u64);
                }
            }
        }
        m
    }

    /// Takes the lowest slot out of the mask: the slot and what is left,
    /// or nothing if the mask is empty.
    pub fn take(self) -> (taken: Option<(u8, FreeMask)>)
        ensures
            match taken {
                None => self@ == Set::<int>::empty() && lease_from(self@) is None,
                Some((i, rest)) => {
                    &&& is_lowest(self@, i as int)
                    &&& rest@ == self@.remove(i as int)
                    &&& lease_from(self@) == Some((i as int, rest@))
                },
            },
    {
        match self.lowest() {
            None => None,
            Some(i) => {
                proof {
                    let k = choose|k: int| is_lowest(self@, k);
                    lemma_lowest_unique(self@, i as int, k);
                }
                Some((i, self.without(i)))
            },
        }
    }
}

/// One request to a pool.
pub enum PoolOp {
    /// Take the lowest free slot, if there is one.
    Lease,
    /// Give back the slot with this index, if it is out on lease.
    Release(int),
}

/// A pool as its callers, one after the other, would see it: the slots
/// that are free and the slots that are out on lease.
pub struct PoolModel {
    pub free: Set<int>,
    pub live: Set<int>,
}

/// A pool of `size` slots, all free.
pub open spec fn pool_start(size: nat) -> PoolModel {
    PoolModel { free: Set::new(|i: int| 0 <= i < size), live: Set::empty() }
}

/// The pool after one request.
pub open spec fn pool_apply(pool: PoolModel, op: PoolOp) -> PoolModel {
    match op {
        PoolOp::Lease => match lease_from(pool.free) {
            Some((i, rest)) => PoolModel { free: rest, live: pool.live.insert(i) },
            None => pool,
        },
        PoolOp::Release(i) => if pool.live.contains(i) {
            PoolModel { free: pool.free.insert(i), live: pool.live.remove(i) }
        } else {
            pool
        },
    }
}

/// The pool of `size` slots after the requests `ops`, in order.
pub open spec fn pool_run(size: nat, ops: Seq<PoolOp>) -> PoolModel
    decreases ops.len(),
{
    if ops.len() == 0 {
        pool_start(size)
    } else {
        pool_apply(pool_run(size, ops.drop_last()), ops.last())
    }
}

/// At most one slot is the lowest.
pub proof fn lemma_lowest_unique(free: Set<int>, i: int, j: int)
    requires
        is_lowest(free, i),
        is_lowest(free, j),
    ensures
        i == j,
{
}

/// A set of slot indices that is not empty has a lowest slot.
pub proof fn lemma_lowest_exists(free: Set<int>, bound: nat)
    requires
        free != Set::<int>::empty(),
        forall|i: int| free.contains(i) ==> 0 <= i < bound,
    ensures
        exists|i: int| is_lowest(free, i),
    decreases bound,
{
    if bound == 0 {
        assert(free =~= Set::<int>::empty());
    } else {
        let top = bound - 1;
        let below = free.remove(top);
        if below =~= Set::<int>::empty() {
            assert(free.contains(top)) by {
                if !free.contains(top) {
                    assert(free =~= below);
                }
            }
            assert(is_lowest(free, top)) by {
                assert forall|j: int| free.contains(j) implies top <= j by {
                    if j != top {
                        assert(below.contains(j));
                    }
                }
            }
        } else {
            lemma_lowest_exists(below, top as nat);
            let i = choose|i: int| is_lowest(below, i);
            assert(is_lowest(free, i)) by {
                assert forall|j: int| free.contains(j) implies i <= j by {
                    if j != top {
                        assert(below.contains(j));
                    }
                }
            }
        }
    }
}

/// Whatever is asked of a pool, in whatever order, every slot is either
/// free or out on lease and never both: a slot is free exactly while
/// nobody holds it.
pub proof fn lemma_pool_partition(size: nat, ops: Seq<PoolOp>)
    ensures
        pool_run(size, ops).free.disjoint(pool_run(size, ops).live),
        pool_run(size, ops).free.union(pool_run(size, ops).live) == Set::new(
            |i: int| 0 <= i < size,
        ),
    decreases ops.len(),
{
    if ops.len() > 0 {
        lemma_pool_partition(size, ops.drop_last());
    }
}

/// A lease never hands out a slot that is already out on lease: no two
/// leases that are live at once hold the same slot. It fails, and changes
/// nothing, exactly when no slot is free.
pub proof fn lemma_lease_is_exclusive(size: nat, ops: Seq<PoolOp>)
    ensures
        ({
            let before = pool_run(size, ops);
            let after = pool_apply(before, PoolOp::Lease);
            if before.free == Set::<int>::empty() {
                after == before
            } else {
                exists|i: int|
                    {
                        &&& is_lowest(before.free, i)
                        &&& !before.live.contains(i)
                        &&& after.live == before.live.insert(i)
                        &&& after.free == before.free.remove(i)
                    }
            }
        }),
{
    let before = pool_run(size, ops);
    lemma_pool_partition(size, ops);
    if before.free != Set::<int>::empty() {
        assert forall|i: int| before.free.contains(i) implies 0 <= i < size by {
            assert(before.free.union(before.live).contains(i));
        }
        lemma_lowest_exists(before.free, size);
    }
}

/// A lease from a pool with no free slot takes nothing and leaves the
/// pool as it was.
pub proof fn lemma_exhausted_pool_unchanged(pool: PoolModel)
    requires
        pool.free == Set::<int>::empty(),
    ensures
        lease_from(pool.free) is None,
        pool_apply(pool, PoolOp::Lease) == pool,
{
}

/// A slot that was given back is free again, and the next lease takes it
/// unless a lower slot is free as well.
pub proof fn lemma_released_slot_is_reused(pool: PoolModel, i: int)
    requires
        pool.live.contains(i),
    ensures
        ({
            let back = pool_apply(pool, PoolOp::Release(i));
            let again = pool_apply(back, PoolOp::Lease);
            &&& back.free.contains(i)
            &&& !back.live.contains(i)
            &&& (forall|j: int| pool.free.contains(j) ==> i <= j) ==> again.live.contains(i)
                && again.free == back.free.remove(i)
        }),
{
    let back = pool_apply(pool, PoolOp::Release(i));
    if forall|j: int| pool.free.contains(j) ==> i <= j {
        let k = choose|k: int| is_lowest(back.free, k);
        lemma_lowest_unique(back.free, i, k);
    }
}

} // verus!
