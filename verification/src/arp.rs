//! The static neighbour entry that lets the host reach a guest before the
//! guest's own network stack answers.

use crate::slot::{tap_name, SlotView, VmNetCfg};
use crate::text::decimal;
use crate::trusted::{af_inet, arphrd_ether, atf_com, atf_perm};
use vstd::prelude::*;
use vstd::string::{is_ascii_spec_bytes, StrSliceExecFns};
use vstd::utf8::is_ascii_chars;

verus! {

/// Bytes in the hardware half of a neighbour request.
pub const HW_ADDR_LEN: usize = 14;

/// Bytes in the device name of a neighbour request.
pub const DEVICE_NAME_LEN: usize = 16;

/// `bytes`, then zeros up to `len` bytes in all.
pub open spec fn zero_padded(bytes: Seq<u8>, len: nat) -> Seq<u8> {
    Seq::new(
        len,
        |i: int|
            if i < bytes.len() {
                bytes[i]
            } else {
                0u8
            },
    )
}

/// The bytes of a text in which every character is one byte.
pub open spec fn ascii_bytes(chars: Seq<char>) -> Seq<u8> {
    Seq::new(chars.len(), |i: int| chars[i] as u8)
}

/// A neighbour request, as plain mathematical values.
pub struct ArpView {
    pub protocol_family: int,
    pub protocol_addr: int,
    pub hw_family: int,
    pub hw_addr: Seq<u8>,
    pub flags: int,
    pub device: Seq<u8>,
}

/// What is handed to the kernel to bind a guest's address to its hardware
/// address on one interface.
#[derive(Debug)]
pub struct ArpRequest {
    /// Address family of the protocol address.
    pub protocol_family: u16,
    /// The guest's address as `in_addr` holds it.
    pub protocol_addr: u32,
    /// Hardware type of the hardware address.
    pub hw_family: u16,
    /// The guest's hardware address, zero-padded.
    pub hw_addr: Vec<u8>,
    /// Entry flags.
    pub flags: i32,
    /// The interface's name, zero-padded.
    pub device: Vec<u8>,
}

impl View for ArpRequest {
    type V = ArpView;

    open spec fn view(&self) -> ArpView {
        ArpView {
            protocol_family: self.protocol_family as int,
            protocol_addr: self.protocol_addr as int,
            hw_family: self.hw_family as int,
            hw_addr: self.hw_addr@,
            flags: self.flags as int,
            device: self.device@,
        }
    }
}

/// The permanent, completed IPv4-to-Ethernet entry for a slot's guest on
/// the slot's tap interface.
pub open spec fn arp_plan(slot: SlotView) -> ArpView {
    ArpView {
        protocol_family: 2,
        protocol_addr: slot.vm_ip.wire_word(),
        hw_family: 1,
        hw_addr: zero_padded(slot.vm_mac, HW_ADDR_LEN as nat),
        flags: 6,
        device: zero_padded(ascii_bytes(slot.tap_iface), DEVICE_NAME_LEN as nat),
    }
}

/// `src`, then zeros up to `len` bytes in all.
pub fn pad_with_zeros(src: &Vec<u8>, len: usize) -> (out: Vec<u8>)
    requires
        src@.len() <= len,
    ensures
        out@ == zero_padded(src@, len as nat),
{
    let mut out: Vec<u8> = Vec::new();
    let mut i: usize = 0;
    while i < len
        invariant
            i <= len,
            out@.len() == i,
            forall|k: int|
                0 <= k < i ==> out@[k] == if k < src@.len() {
                    src@[k]
                } else {
                    0u8
                },
        decreases len - i,
    {
        if i < src.len() {
            out.push(src[i]);
        } else {
            out.push(0);
        }
        i = i + 1;
    }
    out
}

/// A tap interface's name is plain ASCII and short enough for a device
/// name field.
pub proof fn lemma_tap_name_ascii(index: nat)
    requires
        index < 256,
    ensures
        is_ascii_chars(tap_name(index)),
        6 <= tap_name(index).len() <= 8,
{
    reveal_strlit("mytap");
    reveal_with_fuel(decimal, 3);
    let digits = decimal(index);
    let name = tap_name(index);
    assert forall|i: int| 0 <= i < name.len() implies '\0' <= #[trigger] name[i] <= '\u{7f}' by {
        if i >= 5 {
            assert(name[i] == digits[i - 5]);
        }
    }
}

/// The neighbour request that binds `cfg`'s guest address to its hardware
/// address on its tap interface.
pub fn arp_request(cfg: &VmNetCfg) -> (req: ArpRequest)
    ensures
        req@ == arp_plan(cfg@),
{
    let name = cfg.tap_iface().as_str();
    let index = cfg.index();
    let mac = cfg.vm_mac();
    proof {
        use_type_invariant(cfg);
        cfg.lemma_planned();
        lemma_tap_name_ascii(index as nat);
        is_ascii_spec_bytes(name);
    }
    let name_bytes = name.as_bytes_vec();
    let family = af_inet();
    let com = atf_com();
    let perm = atf_perm();
    assert(com | perm == 6) by (bit_vector)
        requires
            com == 2,
            perm == 4,
    ;
    ArpRequest {
        protocol_family: family as u16,
        protocol_addr: cfg.vm_ip().to_wire_word(),
        hw_family: arphrd_ether(),
        hw_addr: pad_with_zeros(mac, HW_ADDR_LEN),
        flags: com | perm,
        device: pad_with_zeros(&name_bytes, DEVICE_NAME_LEN),
    }
}

} // verus!
