//! The tap interface of a slot: what the host is asked to create for it.

use crate::addr::Ipv4;
use crate::slot::{SlotView, VmNetCfg};
use vstd::prelude::*;

verus! {

/// The layer at which a virtual interface carries traffic.
#[derive(Clone, Copy, Debug, PartialEq, Eq, Structural)]
pub enum TapLayer {
    /// Ethernet frames.
    L2,
    /// IP packets.
    L3,
}

/// The settings of a virtual interface, as plain mathematical values.
pub struct TapView {
    pub name: Seq<char>,
    pub address: Ipv4,
    pub netmask: Ipv4,
    pub layer: TapLayer,
    pub up: bool,
    pub persistent: bool,
}

/// The settings of a virtual interface.
#[derive(Debug)]
pub struct TapSettings {
    /// The interface's name.
    pub name: String,
    /// The host-side address of the interface.
    pub address: Ipv4,
    /// The netmask of the interface's network.
    pub netmask: Ipv4,
    /// The layer at which the interface carries traffic.
    pub layer: TapLayer,
    /// Whether the interface is brought up as soon as it exists.
    pub up: bool,
    /// Whether the interface outlives the process that created it.
    pub persistent: bool,
}

impl View for TapSettings {
    type V = TapView;

    open spec fn view(&self) -> TapView {
        TapView {
            name: self.name@,
            address: self.address,
            netmask: self.netmask,
            layer: self.layer,
            up: self.up,
            persistent: self.persistent,
        }
    }
}

/// The interface of a slot: an Ethernet-level interface under the slot's
/// name, with the gateway address and the netmask of the slot, up at once
/// and persistent.
pub open spec fn tap_plan(slot: SlotView) -> TapView {
    TapView {
        name: slot.tap_iface,
        address: slot.tap_ip,
        netmask: slot.netmask,
        layer: TapLayer::L2,
        up: true,
        persistent: true,
    }
}

/// The settings of `cfg`'s tap interface.
pub fn tap_settings(cfg: &VmNetCfg) -> (settings: TapSettings)
    ensures
        settings@ == tap_plan(cfg@),
{
    TapSettings {
        name: cfg.tap_iface().clone(),
        address: cfg.tap_ip(),
        netmask: cfg.netmask(),
        layer: TapLayer::L2,
        up: true,
        persistent: true,
    }
}

} // verus!
