//! The pool of slots: built once from a base subnet, then shared by every
//! connection, each of which holds at most one slot at a time.

use crate::addr::Ipv4;
use crate::claim::LeaseSearch;
use crate::conn::{conn_step, ConnAction, ConnEvent, ConnState};
use crate::mask::{FreeMask, MAX_SLOTS};
use crate::slot::{
    lemma_guest_follows_gateway, lemma_plan_wf, lemma_slots_disjoint, slot_block, slot_plan,
    slot_wf, SlotView, VmNetCfg, SLOT_STRIDE,
};
use crate::word::SharedWord;
use vstd::prelude::*;
use vstd::string::StringExecFns;

verus! {

/// Why a pool could not be built.
#[derive(Clone, Copy, Debug, PartialEq, Eq, Structural)]
pub enum ConfigError {
    /// More slots were asked for than one word of free bits can track.
    TooManySlots,
    /// The blocks of the slots asked for do not all fit at and after the
    /// base address.
    SubnetTooSmall,
}

impl ConfigError {
    /// The error in words.
    pub fn message(&self) -> (text: String)
        ensures
            text@ == match *self {
                ConfigError::TooManySlots => "Up to 63 VMs per handler"@,
                ConfigError::SubnetTooSmall => "Subnet too small for the requested VMs"@,
            },
    {
        match self {
            ConfigError::TooManySlots => String::from_str("Up to 63 VMs per handler"),
            ConfigError::SubnetTooSmall => String::from_str(
                "Subnet too small for the requested VMs",
            ),
        }
    }
}

/// Why no slot was handed out.
#[derive(Clone, Copy, Debug, PartialEq, Eq, Structural)]
pub enum PoolError {
    /// Every slot is in use.
    ResourceExhausted,
}

impl PoolError {
    /// The error in words.
    pub fn message(&self) -> (text: String)
        ensures
            text@ == "No free VMs to handle the request"@,
    {
        String::from_str("No free VMs to handle the request")
    }
}

/// Whether a pool of `size` slots can be laid out from `subnet` on: at most
/// `MAX_SLOTS` of them, every block inside the subnet's last octet.
pub open spec fn plan_fits(subnet: Ipv4, size: int) -> bool {
    0 <= size <= MAX_SLOTS && subnet.d + SLOT_STRIDE * size <= 256
}

/// The configurations of a pool of `size` slots that starts at `subnet`.
pub open spec fn pool_plan(subnet: Ipv4, size: nat) -> Seq<SlotView> {
    Seq::new(size, |j: int| slot_plan(subnet, j))
}

/// The slots of a pool are laid out one block after the other from the
/// base address on, the same way whenever the same pool is asked for, and
/// no two of them share an address, a name or a hardware address.
pub proof fn lemma_pool_plan_disjoint(subnet: Ipv4, size: nat, i: int, j: int)
    requires
        plan_fits(subnet, size as int),
        0 <= i < size,
        0 <= j < size,
        i != j,
    ensures
        slot_wf(pool_plan(subnet, size)[i]),
        pool_plan(subnet, size)[i].index == i,
        pool_plan(subnet, size)[i].tap_ip.value() == subnet.value() + SLOT_STRIDE * i,
        pool_plan(subnet, size)[i].vm_ip.value() == pool_plan(subnet, size)[i].tap_ip.value() + 1,
        slot_block(pool_plan(subnet, size)[i]).disjoint(slot_block(pool_plan(subnet, size)[j])),
        pool_plan(subnet, size)[i].vm_mac != pool_plan(subnet, size)[j].vm_mac,
        pool_plan(subnet, size)[i].tap_iface != pool_plan(subnet, size)[j].tap_iface,
{
    lemma_plan_wf(subnet, i);
    lemma_guest_follows_gateway(subnet, i);
    lemma_slots_disjoint(subnet, i, j);
}

/// The right to use one slot. It cannot be copied; it is made by
/// `VmHandler::lease` and given up to `VmHandler::release`.
#[derive(Debug)]
pub struct Lease {
    index: u8,
}

impl View for Lease {
    type V = nat;

    /// The index of the slot that is held.
    closed spec fn view(&self) -> nat {
        self.index as nat
    }
}

impl Lease {
    #[verifier::type_invariant]
    spec fn in_word(self) -> bool {
        self.index < MAX_SLOTS
    }

    /// The index of the slot that is held.
    pub fn index(&self) -> (i: u8)
        ensures
            i == self@,
            i < MAX_SLOTS,
    {
        proof {
            use_type_invariant(self);
        }
        self.index
    }
}

/// A fixed pool of slots and the word that says which of them are free.
#[derive(Debug)]
pub struct VmHandler {
    vms: Vec<VmNetCfg>,
    free: SharedWord,
}

impl VmHandler {
    #[verifier::type_invariant]
    spec fn bounded(self) -> bool {
        &&& self.vms@.len() <= MAX_SLOTS
        &&& forall|j: int| 0 <= j < self.vms@.len() ==> (#[trigger] self.vms@[j])@.index == j
    }

    /// The configurations of the pool's slots, in order.
    pub closed spec fn slots(&self) -> Seq<SlotView> {
        Seq::new(self.vms@.len(), |j: int| self.vms@[j]@)
    }

    /// The configurations of the first `len` slots from `subnet` on.
    pub fn populate_vm_configs(len: usize, subnet: Ipv4) -> (vms: Vec<VmNetCfg>)
        requires
            plan_fits(subnet, len as int),
        ensures
            vms@.len() == len,
            forall|j: int| 0 <= j < len ==> (#[trigger] vms@[j])@ == slot_plan(subnet, j),
    {
        let mut vms: Vec<VmNetCfg> = Vec::new();
        let mut j: usize = 0;
        while j < len
            invariant
                j <= len,
                plan_fits(subnet, len as int),
                vms@.len() == j,
                forall|k: int| 0 <= k < j ==> (#[trigger] vms@[k])@ == slot_plan(subnet, k),
            decreases len - j,
        {
            vms.push(VmNetCfg::plan(subnet, j as u8));
            j = j + 1;
        }
        vms
    }

    /// A pool of `size` slots laid out from `subnet` on, all of them free.
    pub fn new(size: u8, subnet: Ipv4) -> (made: Result<VmHandler, ConfigError>)
        ensures
            match made {
                Ok(handler) => plan_fits(subnet, size as int) && handler.slots() == pool_plan(
                    subnet,
                    size as nat,
                ),
                Err(e) => !plan_fits(subnet, size as int) && e == if size > MAX_SLOTS {
                    ConfigError::TooManySlots
                } else {
                    ConfigError::SubnetTooSmall
                },
            },
    {
        if size > MAX_SLOTS {
            return Err(ConfigError::TooManySlots);
        }
        if subnet.d as u16 + (SLOT_STRIDE as u16) * (size as u16) > 256 {
            return Err(ConfigError::SubnetTooSmall);
        }
        let vms = Self::populate_vm_configs(size as usize, subnet);
        let free = SharedWord::new(FreeMask::full(size).bits);
        let handler = VmHandler { vms, free };
        Ok(handler)
    }

    /// How many slots the pool has.
    pub fn capacity(&self) -> (n: usize)
        ensures
            n == self.slots().len(),
            n <= MAX_SLOTS,
    {
        proof {
            use_type_invariant(self);
        }
        self.vms.len()
    }

    /// The configuration of slot `index`, if the pool has such a slot.
    pub fn slot(&self, index: u8) -> (cfg: Option<&VmNetCfg>)
        ensures
            match cfg {
                Some(c) => index < self.slots().len() && c@ == self.slots()[index as int],
                None => index >= self.slots().len(),
            },
    {
        if (index as usize) < self.vms.len() {
            Some(&self.vms[index as usize])
        } else {
            None
        }
    }

    /// The slots of the pool that are free at the moment of the call.
    /// Other threads may have changed that by the time the caller looks at
    /// the answer.
    pub fn free_mask(&self) -> (free: FreeMask)
        ensures
            forall|i: int| free@.contains(i) ==> 0 <= i < self.slots().len(),
    {
        proof {
            use_type_invariant(self);
        }
        let size: u8 = self.vms.len() as u8;
        FreeMask { bits: self.free.load() }.intersect(FreeMask::full(size))
    }

    /// Takes a free slot, or fails at once when none is to be had.
    ///
    /// The word is read once; then the lowest candidate is claimed by
    /// clearing its bit in one atomic step, until a claim is won or no
    /// candidate is left. Each slot is tried at most once, so the call
    /// always returns.
    pub fn lease(&self) -> (leased: Result<Lease, PoolError>)
        ensures
            match leased {
                Ok(lease) => lease@ < self.slots().len(),
                Err(e) => e == PoolError::ResourceExhausted,
            },
            self.slots().len() == 0 ==> leased is Err,
    {
        proof {
            use_type_invariant(self);
        }
        let size: u8 = self.vms.len() as u8;
        let mut search = LeaseSearch::start(size, FreeMask { bits: self.free.load() });
        proof {
            vstd::set_lib::lemma_int_range(0, size as int);
            assert(search.untried@ =~= vstd::set_lib::set_int_range(0, size as int));
        }
        loop
            invariant
                search.untried@.finite(),
                forall|i: int| search.untried@.contains(i) ==> 0 <= i < self.vms@.len(),
                self.vms@.len() <= MAX_SLOTS,
            decreases search.untried@.len(),
        {
            match search.candidate() {
                None => {
                    return Err(PoolError::ResourceExhausted);
                },
                Some(index) => {
                    let bit = FreeMask::empty().with(index);
                    let before = FreeMask { bits: self.free.keep_only(!bit.bits) };
                    match search.observe(index, before) {
                        Ok(won) => {
                            return Ok(Lease { index: won });
                        },
                        Err(next) => {
                            search = next;
                        },
                    }
                },
            }
        }
    }

    /// Gives a slot back: sets its bit in one atomic step. The lease is
    /// used up by the call, so no slot is given back twice.
    pub fn release(&self, lease: Lease) {
        let bit = FreeMask::empty().with(lease.index());
        let _ = self.free.raise(bit.bits);
    }

    /// Takes one event of a connection and does the pool's part of what
    /// follows: where the connection asks for a slot, one is leased and the
    /// answer taken as the next event; where it gives its slot back, the
    /// slot is released and that taken as the next event. What comes back
    /// is left for the caller to carry out.
    pub fn handle_tcp_conn(&self, state: ConnState, event: ConnEvent) -> (next: (
        ConnState,
        ConnAction,
    ))
        ensures
            match conn_step(state, event) {
                (asking, ConnAction::AcquireLease) => {
                    ||| next == conn_step(asking, ConnEvent::LeaseDenied)
                    ||| exists|lease: Lease|
                        (#[trigger] lease@) < self.slots().len() && next == conn_step(
                            asking,
                            ConnEvent::LeaseGranted(lease),
                        )
                },
                (returning, ConnAction::Release(_)) => next == conn_step(
                    returning,
                    ConnEvent::SlotReleased,
                ),
                first => next == first,
            },
    {
        let (state, action) = state.on_event(event);
        match action {
            ConnAction::AcquireLease => match self.lease() {
                Ok(lease) => state.on_event(ConnEvent::LeaseGranted(lease)),
                Err(_) => state.on_event(ConnEvent::LeaseDenied),
            },
            ConnAction::Release(lease) => {
                self.release(lease);
                state.on_event(ConnEvent::SlotReleased)
            },
            other => (state, other),
        }
    }
}

} // verus!
