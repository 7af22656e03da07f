//! The network identity of one pool position: what a slot's tap interface
//! and guest are called and where they live in the base subnet.

use crate::addr::{nth_ip, nth_ip_in_subnet, Ipv4};
use crate::mask::MAX_SLOTS;
use crate::text::{decimal, lemma_decimal_injective, push_decimal};
use vstd::prelude::*;
use vstd::string::StringExecFns;

verus! {

/// Addresses set aside for each slot.
pub const SLOT_STRIDE: u8 = 4;

/// Milliseconds to wait after the last slot is provisioned, so that the
/// host's neighbour cache has dropped what an earlier run left in it.
pub const ARP_SETTLE_MS: u64 = 1100;

/// What a slot configuration holds, as plain mathematical values.
pub struct SlotView {
    pub index: nat,
    pub vm_ip: Ipv4,
    pub tap_ip: Ipv4,
    pub netmask: Ipv4,
    pub tap_iface: Seq<char>,
    pub vm_mac: Seq<u8>,
}

/// The netmask every slot shares: a block of four addresses.
pub open spec fn slot_netmask() -> Ipv4 {
    Ipv4 { a: 255, b: 255, c: 255, d: 252 }
}

/// The name of slot `index`'s tap interface.
pub open spec fn tap_name(index: nat) -> Seq<char> {
    "mytap"@ + decimal(index)
}

/// The guest's hardware address: a locally administered prefix, then the
/// slot index.
pub open spec fn guest_mac(index: nat) -> Seq<u8> {
    seq![0x06u8, 0x00u8, 0xACu8, 0x10u8, 0x00u8, index as u8]
}

/// Whether slot `index` has its whole block of addresses at or after
/// `subnet` without leaving the subnet's last octet.
pub open spec fn slot_fits(subnet: Ipv4, index: int) -> bool {
    0 <= index < MAX_SLOTS && subnet.d + SLOT_STRIDE * index + (SLOT_STRIDE - 1) <= 255
}

/// The configuration of slot `index` in the pool that starts at `subnet`.
pub open spec fn slot_plan(subnet: Ipv4, index: int) -> SlotView {
    SlotView {
        index: index as nat,
        vm_ip: nth_ip(subnet, SLOT_STRIDE * index + 1),
        tap_ip: nth_ip(subnet, SLOT_STRIDE * index),
        netmask: slot_netmask(),
        tap_iface: tap_name(index as nat),
        vm_mac: guest_mac(index as nat),
    }
}

/// The addresses of a slot's block, as numbers: the tap address and the
/// three that follow it.
pub open spec fn slot_block(slot: SlotView) -> Set<int> {
    Set::new(|v: int| slot.tap_ip.value() <= v < slot.tap_ip.value() + SLOT_STRIDE)
}

/// Whether `slot` is laid out as a planned slot is: its block inside the
/// last octet, the guest one address after the tap, the shared netmask, and
/// a name and a hardware address made from the index.
pub open spec fn slot_wf(slot: SlotView) -> bool {
    &&& slot.index < MAX_SLOTS
    &&& slot.tap_ip.d + (SLOT_STRIDE - 1) <= 255
    &&& slot.vm_ip == nth_ip(slot.tap_ip, 1)
    &&& slot.netmask == slot_netmask()
    &&& slot.tap_iface == tap_name(slot.index)
    &&& slot.vm_mac == guest_mac(slot.index)
}

/// The fixed network identity of one pool position.
#[derive(Debug)]
pub struct VmNetCfg {
    index: u8,
    vm_ip: Ipv4,
    tap_ip: Ipv4,
    netmask: Ipv4,
    tap_iface: String,
    vm_mac: Vec<u8>,
}

impl View for VmNetCfg {
    type V = SlotView;

    closed spec fn view(&self) -> SlotView {
        SlotView {
            index: self.index as nat,
            vm_ip: self.vm_ip,
            tap_ip: self.tap_ip,
            netmask: self.netmask,
            tap_iface: self.tap_iface@,
            vm_mac: self.vm_mac@,
        }
    }
}

impl Clone for VmNetCfg {
    fn clone(&self) -> (copy: VmNetCfg)
        ensures
            copy@ == self@,
    {
        proof {
            use_type_invariant(self);
        }
        VmNetCfg {
            index: self.index,
            vm_ip: self.vm_ip,
            tap_ip: self.tap_ip,
            netmask: self.netmask,
            tap_iface: self.tap_iface.clone(),
            vm_mac: self.vm_mac.clone(),
        }
    }
}

/// The name of slot `index`'s tap interface.
pub fn tap_iface_name(index: u8) -> (name: String)
    ensures
        name@ == tap_name(index as nat),
{
    let mut name = String::from_str("mytap");
    push_decimal(&mut name, index);
    name
}

impl VmNetCfg {
    /// Every configuration is laid out as a planned slot is.
    #[verifier::type_invariant]
    pub closed spec fn planned(self) -> bool {
        slot_wf(self@)
    }

    /// The configuration of slot `index` in the pool that starts at `subnet`.
    pub fn plan(subnet: Ipv4, index: u8) -> (cfg: VmNetCfg)
        requires
            slot_fits(subnet, index as int),
        ensures
            cfg@ == slot_plan(subnet, index as int),
    {
        let tap_ip = nth_ip_in_subnet(subnet, index * SLOT_STRIDE);
        let vm_ip = nth_ip_in_subnet(subnet, index * SLOT_STRIDE + 1);
        let netmask = Ipv4::new(255, 255, 255, 252);
        let vm_mac: Vec<u8> = vec![0x06, 0x00, 0xAC, 0x10, 0x00, index];
        let tap_iface = tap_iface_name(index);
        VmNetCfg { index, vm_ip, tap_ip, netmask, tap_iface, vm_mac }
    }

    /// What the invariant of a configuration says of its view.
    pub proof fn lemma_planned(&self)
        requires
            self.planned(),
        ensures
            slot_wf(self@),
    {
    }

    /// The slot's position in the pool.
    pub fn index(&self) -> (i: u8)
        ensures
            i == self@.index,
            i < MAX_SLOTS,
    {
        proof {
            use_type_invariant(self);
        }
        self.index
    }

    /// The guest's address.
    pub fn vm_ip(&self) -> (ip: Ipv4)
        ensures
            ip == self@.vm_ip,
    {
        self.vm_ip
    }

    /// The host-side address of the tap interface, the guest's gateway.
    pub fn tap_ip(&self) -> (ip: Ipv4)
        ensures
            ip == self@.tap_ip,
    {
        self.tap_ip
    }

    /// The netmask of the slot's block.
    pub fn netmask(&self) -> (ip: Ipv4)
        ensures
            ip == self@.netmask,
    {
        self.netmask
    }

    /// The name of the slot's tap interface.
    pub fn tap_iface(&self) -> (name: &String)
        ensures
            name@ == self@.tap_iface,
    {
        &self.tap_iface
    }

    /// The guest's hardware address, six bytes.
    pub fn vm_mac(&self) -> (mac: &Vec<u8>)
        ensures
            mac@ == self@.vm_mac,
            mac@.len() == 6,
    {
        proof {
            use_type_invariant(self);
        }
        &self.vm_mac
    }
}

/// A slot that fits is planned well-formed, with its index as given.
pub proof fn lemma_plan_wf(subnet: Ipv4, index: int)
    requires
        slot_fits(subnet, index),
    ensures
        slot_wf(slot_plan(subnet, index)),
        slot_plan(subnet, index).index == index,
{
}

/// The guest's address is the one right after its gateway's, and both lie
/// in the slot's own block, which starts `SLOT_STRIDE * index` addresses
/// after the subnet's base.
pub proof fn lemma_guest_follows_gateway(subnet: Ipv4, index: int)
    requires
        slot_fits(subnet, index),
    ensures
        ({
            let slot = slot_plan(subnet, index);
            &&& slot.tap_ip.value() == subnet.value() + SLOT_STRIDE * index
            &&& slot.vm_ip.value() == slot.tap_ip.value() + 1
            &&& slot_block(slot).contains(slot.tap_ip.value())
            &&& slot_block(slot).contains(slot.vm_ip.value())
        }),
{
}

/// Two different slots of one pool share no address, no interface name
/// and no hardware address.
pub proof fn lemma_slots_disjoint(subnet: Ipv4, i: int, j: int)
    requires
        slot_fits(subnet, i),
        slot_fits(subnet, j),
        i != j,
    ensures
        slot_block(slot_plan(subnet, i)).disjoint(slot_block(slot_plan(subnet, j))),
        slot_plan(subnet, i).vm_ip != slot_plan(subnet, j).vm_ip,
        slot_plan(subnet, i).tap_ip != slot_plan(subnet, j).tap_ip,
        slot_plan(subnet, i).vm_ip != slot_plan(subnet, j).tap_ip,
        slot_plan(subnet, i).vm_mac != slot_plan(subnet, j).vm_mac,
        slot_plan(subnet, i).tap_iface != slot_plan(subnet, j).tap_iface,
{
    lemma_guest_follows_gateway(subnet, i);
    lemma_guest_follows_gateway(subnet, j);
    let a = slot_plan(subnet, i);
    let b = slot_plan(subnet, j);
    if a.tap_iface == b.tap_iface {
        let prefix = "mytap"@;
        assert(decimal(i as nat) =~= a.tap_iface.subrange(
            prefix.len() as int,
            a.tap_iface.len() as int,
        ));
        assert(decimal(j as nat) =~= b.tap_iface.subrange(
            prefix.len() as int,
            b.tap_iface.len() as int,
        ));
        lemma_decimal_injective(i as nat, j as nat);
    }
}

} // verus!
