use std::collections::HashSet;
use vm_runner::addr::Ipv4;
use vm_runner::claim::LeaseSearch;
use vm_runner::mask::{FreeMask, MAX_SLOTS, WORD_BITS};
use vm_runner::vm::{PoolError, VmHandler};

fn pool(size: u8) -> VmHandler {
    VmHandler::new(size, Ipv4::new(172, 16, 0, 0)).unwrap()
}

#[test]
fn full_mask_has_the_low_bits() {
    assert_eq!(FreeMask::full(0).bits, 0);
    assert_eq!(FreeMask::full(1).bits, 0b1);
    assert_eq!(FreeMask::full(2).bits, 0b11);
    assert_eq!(FreeMask::full(20).bits, (1u64 << 20) - 1);
    assert_eq!(FreeMask::full(63).bits, u64::MAX >> 1);
    assert_eq!(FreeMask::empty().bits, 0);
    assert_eq!(MAX_SLOTS, 63);
    assert_eq!(WORD_BITS, 64);
}

#[test]
fn contains_reads_one_bit() {
    let m = FreeMask { bits: 0b1010 };
    assert!(!m.contains(0));
    assert!(m.contains(1));
    assert!(!m.contains(2));
    assert!(m.contains(3));
    assert!(!m.contains(63));
    assert!(!m.contains(64));
    assert!(!m.contains(255));
    assert!(FreeMask { bits: 1 << 63 }.contains(63));
}

#[test]
fn lowest_is_the_least_set_bit() {
    assert_eq!(FreeMask::empty().lowest(), None);
    assert_eq!(FreeMask { bits: 0b1 }.lowest(), Some(0));
    assert_eq!(FreeMask { bits: 0b1100 }.lowest(), Some(2));
    assert_eq!(FreeMask { bits: 1 << 63 }.lowest(), Some(63));
    assert_eq!(FreeMask { bits: u64::MAX }.lowest(), Some(0));
}

#[test]
fn with_and_without_change_one_bit() {
    let m = FreeMask { bits: 0b0101 };
    assert_eq!(m.without(0).bits, 0b0100);
    assert_eq!(m.without(1).bits, 0b0101);
    assert_eq!(m.without(2).bits, 0b0001);
    assert_eq!(m.without(64).bits, 0b0101);
    assert_eq!(m.with(1).bits, 0b0111);
    assert_eq!(m.with(0).bits, 0b0101);
    assert_eq!(m.with(63).bits, 0b0101 | (1 << 63));
    assert_eq!(m.with(64).bits, 0b0101);
    assert_eq!(m.with(200).bits, 0b0101);
}

#[test]
fn intersect_keeps_shared_bits() {
    let a = FreeMask { bits: 0b1100 };
    let b = FreeMask { bits: 0b1010 };
    assert_eq!(a.intersect(b).bits, 0b1000);
    assert_eq!(a.intersect(FreeMask::empty()).bits, 0);
    assert_eq!(a.intersect(a), a);
}

#[test]
fn take_removes_the_lowest() {
    let m = FreeMask::full(3);
    let (i, rest) = m.take().unwrap();
    assert_eq!(i, 0);
    assert_eq!(rest.bits, 0b110);
    let (j, rest) = rest.take().unwrap();
    assert_eq!(j, 1);
    assert_eq!(rest.bits, 0b100);
    let (k, rest) = rest.take().unwrap();
    assert_eq!(k, 2);
    assert_eq!(rest.bits, 0);
    assert_eq!(rest.take(), None);
}

#[test]
fn new_pool_has_every_slot_free() {
    assert_eq!(pool(0).free_mask().bits, 0);
    assert_eq!(pool(2).free_mask().bits, 0b11);
    assert_eq!(pool(63).free_mask().bits, u64::MAX >> 1);
}

#[test]
fn lease_takes_the_lowest_free_slot() {
    let p = pool(3);
    let a = p.lease().unwrap();
    assert_eq!(a.index(), 0);
    assert_eq!(p.free_mask().bits, 0b110);
    let b = p.lease().unwrap();
    assert_eq!(b.index(), 1);
    assert_eq!(p.free_mask().bits, 0b100);
    p.release(a);
    assert_eq!(p.free_mask().bits, 0b101);
    let c = p.lease().unwrap();
    assert_eq!(c.index(), 0);
    let d = p.lease().unwrap();
    assert_eq!(d.index(), 2);
    assert_eq!(p.free_mask().bits, 0);
    p.release(b);
    p.release(c);
    p.release(d);
    assert_eq!(p.free_mask().bits, 0b111);
}

#[test]
fn lease_on_exhausted_pool_fails_and_changes_nothing() {
    let p = pool(2);
    let a = p.lease().unwrap();
    let b = p.lease().unwrap();
    assert_eq!(p.free_mask().bits, 0);
    for _ in 0..5 {
        assert_eq!(p.lease().err(), Some(PoolError::ResourceExhausted));
        assert_eq!(p.free_mask().bits, 0);
    }
    assert_eq!(a.index(), 0);
    assert_eq!(b.index(), 1);
    let empty = pool(0);
    assert_eq!(empty.lease().err(), Some(PoolError::ResourceExhausted));
    assert_eq!(empty.free_mask().bits, 0);
}

#[test]
fn pool_error_in_words() {
    assert_eq!(
        PoolError::ResourceExhausted.message(),
        "No free VMs to handle the request"
    );
}

#[test]
fn released_slot_is_leased_again() {
    let p = pool(4);
    let first = p.lease().unwrap();
    let index = first.index();
    p.release(first);
    let again = p.lease().unwrap();
    assert_eq!(again.index(), index);

    let others: Vec<_> = (0..3).map(|_| p.lease().unwrap()).collect();
    assert!(p.lease().is_err());
    let mut others = others;
    let given = others.remove(1);
    let given_index = given.index();
    p.release(given);
    assert_eq!(p.lease().unwrap().index(), given_index);
}

#[test]
fn every_slot_of_a_full_pool_can_be_leased_once() {
    let p = pool(63);
    let mut seen = HashSet::new();
    let mut held = Vec::new();
    for expected in 0..63u8 {
        let lease = p.lease().unwrap();
        assert_eq!(lease.index(), expected);
        assert!(seen.insert(lease.index()));
        held.push(lease);
    }
    assert!(p.lease().is_err());
    for lease in held {
        p.release(lease);
    }
    assert_eq!(p.free_mask().bits, u64::MAX >> 1);
}

#[test]
fn live_leases_never_share_a_slot() {
    let p = pool(16);
    let mut live: Vec<vm_runner::vm::Lease> = Vec::new();
    let mut state: u64 = 0x2545_F491_4F6C_DD1D;
    for _ in 0..20_000 {
        state ^= state << 13;
        state ^= state >> 7;
        state ^= state << 17;
        if state % 3 != 0 {
            match p.lease() {
                Ok(lease) => {
                    assert!(lease.index() < 16);
                    assert!(live.iter().all(|l| l.index() != lease.index()));
                    assert!(live.iter().all(|l| lease.index() < l.index())
                        || (0..lease.index()).all(|i| live.iter().any(|l| l.index() == i)));
                    live.push(lease);
                }
                Err(e) => {
                    assert_eq!(e, PoolError::ResourceExhausted);
                    assert_eq!(live.len(), 16);
                }
            }
        } else if !live.is_empty() {
            let pick = (state >> 32) as usize % live.len();
            p.release(live.swap_remove(pick));
        }
        let held: u64 = live.iter().map(|l| 1u64 << l.index()).sum();
        assert_eq!(p.free_mask().bits, 0xFFFF & !held);
        assert_eq!(p.free_mask().bits.count_ones() as usize, 16 - live.len());
    }
}

#[test]
fn search_claims_the_lowest_slot_seen_free() {
    let search = LeaseSearch::start(3, FreeMask { bits: 0b111 });
    assert_eq!(search.untried.bits, 0b111);
    assert_eq!(search.candidate(), Some(0));
    assert_eq!(search.observe(0, FreeMask { bits: 0b111 }), Ok(0));
    let search = LeaseSearch::start(3, FreeMask { bits: 0b100 });
    assert_eq!(search.candidate(), Some(2));
    let search = LeaseSearch::start(3, FreeMask { bits: 0 });
    assert_eq!(search.candidate(), None);
}

#[test]
fn search_ignores_bits_beyond_the_pool() {
    let search = LeaseSearch::start(2, FreeMask { bits: 0b1100 });
    assert_eq!(search.candidate(), None);
    let search = LeaseSearch::start(2, FreeMask { bits: u64::MAX });
    assert_eq!(search.candidate(), Some(0));
    let lost = search.observe(0, FreeMask { bits: u64::MAX & !1 }).unwrap_err();
    assert_eq!(lost.candidate(), Some(1));
    let lost = lost.observe(1, FreeMask { bits: u64::MAX & !3 }).unwrap_err();
    assert_eq!(lost.candidate(), None);
}

#[test]
fn search_that_loses_a_race_moves_on() {
    // Two callers read 0b11. The other one clears bit 0 first.
    let search = LeaseSearch::start(2, FreeMask { bits: 0b11 });
    assert_eq!(search.candidate(), Some(0));
    let search = search.observe(0, FreeMask { bits: 0b10 }).unwrap_err();
    assert_eq!(search.untried.bits, 0b10);
    assert_eq!(search.seen.bits, 0b10);
    assert_eq!(search.candidate(), Some(1));
    assert_eq!(search.observe(1, FreeMask { bits: 0b10 }), Ok(1));
}

#[test]
fn search_that_loses_every_race_fails() {
    // Three callers read 0b11; the other two take both slots.
    let search = LeaseSearch::start(2, FreeMask { bits: 0b11 });
    let search = search.observe(0, FreeMask { bits: 0b10 }).unwrap_err();
    let search = search.observe(1, FreeMask { bits: 0b00 }).unwrap_err();
    assert_eq!(search.untried.bits, 0);
    assert_eq!(search.candidate(), None);
}

#[test]
fn search_does_not_return_to_a_lost_slot() {
    let search = LeaseSearch::start(3, FreeMask { bits: 0b001 });
    // Slot 0 was taken meanwhile, then given back while slot 2 came free.
    let search = search.observe(0, FreeMask { bits: 0b100 }).unwrap_err();
    assert_eq!(search.candidate(), Some(2));
    let search = search.observe(2, FreeMask { bits: 0b001 }).unwrap_err();
    assert_eq!(search.untried.bits, 0b010);
    assert_eq!(search.candidate(), None);
}
