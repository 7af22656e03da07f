//! What a slot's microVM is booted with, and how its exit is read.

use crate::slot::{SlotView, VmNetCfg};
use crate::text::{dotted, push_dotted};
use crate::trusted::{cmdline_accepted, parse_cmdline};
use linux_loader::cmdline::Cmdline;
use vstd::prelude::*;
use vstd::string::StringExecFns;

verus! {

/// Virtual CPUs given to each guest.
pub const VCPU_COUNT: u8 = 1;

/// Guest memory, in MiB.
pub const MEM_SIZE_MIB: usize = 32;

/// Bytes the kernel command line may take, terminator included.
pub const CMDLINE_CAPACITY: usize = 4096;

/// The exit code with which the hypervisor reports an orderly shutdown.
pub const EXIT_CODE_OK: u8 = 0;

/// The kernel arguments for a slot: the fixed boot flags, then the guest's
/// static network setup as `ip=<guest>::<gateway>:<netmask>:hostname:eth0:off`.
pub open spec fn boot_args_text(slot: SlotView) -> Seq<char> {
    "panic=-1 reboot=t quiet ip.dev_wait_ms=0 root=/dev/vda ip="@ + dotted(slot.vm_ip) + "::"@
        + dotted(slot.tap_ip) + ":"@ + dotted(slot.netmask) + ":hostname:eth0:off init=/init"@
}

/// The kernel arguments for `slot`.
pub fn boot_args(slot: &VmNetCfg) -> (args: String)
    ensures
        args@ == boot_args_text(slot@),
{
    let mut args = String::from_str("panic=-1 reboot=t quiet ip.dev_wait_ms=0 root=/dev/vda ip=");
    push_dotted(&mut args, slot.vm_ip());
    args.append("::");
    push_dotted(&mut args, slot.tap_ip());
    args.append(":");
    push_dotted(&mut args, slot.netmask());
    args.append(":hostname:eth0:off init=/init");
    args
}

/// What the hypervisor is asked to boot, as plain mathematical values.
pub struct BootView {
    pub vcpu_count: nat,
    pub mem_size_mib: nat,
    pub kernel_path: Seq<char>,
    pub kernel_cmdline: Seq<char>,
    pub root_block_device_path: Seq<char>,
    pub iface_name: Seq<char>,
    pub guest_mac: Seq<u8>,
}

/// What the hypervisor is asked to boot for one slot.
#[derive(Debug)]
pub struct BootDescriptor {
    pub vcpu_count: u8,
    pub mem_size_mib: usize,
    pub kernel_path: String,
    pub kernel_cmdline: String,
    pub root_block_device_path: String,
    pub iface_name: String,
    pub guest_mac: Vec<u8>,
}

impl View for BootDescriptor {
    type V = BootView;

    open spec fn view(&self) -> BootView {
        BootView {
            vcpu_count: self.vcpu_count as nat,
            mem_size_mib: self.mem_size_mib as nat,
            kernel_path: self.kernel_path@,
            kernel_cmdline: self.kernel_cmdline@,
            root_block_device_path: self.root_block_device_path@,
            iface_name: self.iface_name@,
            guest_mac: self.guest_mac@,
        }
    }
}

/// The descriptor of `slot`'s guest: one virtual CPU, the fixed memory
/// size, the given kernel and root device, kernel arguments that give the
/// guest the addresses the host side was provisioned with, and a network
/// device on the slot's tap interface with the slot's hardware address.
pub open spec fn boot_plan(slot: SlotView, kernel_path: Seq<char>, rootfs_path: Seq<char>)
    -> BootView {
    BootView {
        vcpu_count: VCPU_COUNT as nat,
        mem_size_mib: MEM_SIZE_MIB as nat,
        kernel_path,
        kernel_cmdline: boot_args_text(slot),
        root_block_device_path: rootfs_path,
        iface_name: slot.tap_iface,
        guest_mac: slot.vm_mac,
    }
}

/// Assembles the boot descriptor of `slot`'s guest.
pub fn build_boot_config(slot: &VmNetCfg, kernel_path: &str, rootfs_path: &str) -> (desc:
    BootDescriptor)
    ensures
        desc@ == boot_plan(slot@, kernel_path@, rootfs_path@),
{
    BootDescriptor {
        vcpu_count: VCPU_COUNT,
        mem_size_mib: MEM_SIZE_MIB,
        kernel_path: String::from_str(kernel_path),
        kernel_cmdline: boot_args(slot),
        root_block_device_path: String::from_str(rootfs_path),
        iface_name: slot.tap_iface().clone(),
        guest_mac: slot.vm_mac().clone(),
    }
}

/// Why a guest could not be prepared for boot.
#[derive(Clone, Copy, Debug, PartialEq, Eq, Structural)]
pub enum BootError {
    /// The kernel arguments were refused as a command line.
    CmdlineRejected,
}

/// Reads what the command-line parser answered: its command line, or the
/// one error this crate reports for any refusal.
pub fn cmdline_outcome(parsed: Result<Cmdline, linux_loader::cmdline::Error>) -> (outcome: Result<
    Cmdline,
    BootError,
>)
    ensures
        match parsed {
            Ok(cmdline) => outcome == Ok::<Cmdline, BootError>(cmdline),
            Err(_) => outcome == Err::<Cmdline, BootError>(BootError::CmdlineRejected),
        },
{
    match parsed {
        Ok(cmdline) => Ok(cmdline),
        Err(_) => Err(BootError::CmdlineRejected),
    }
}

/// The descriptor's kernel arguments as a validated command line of at
/// most `CMDLINE_CAPACITY` bytes.
pub fn kernel_cmdline(desc: &BootDescriptor) -> (outcome: Result<Cmdline, BootError>)
    ensures
        outcome.is_ok() == cmdline_accepted(desc@.kernel_cmdline, CMDLINE_CAPACITY),
        outcome is Err ==> outcome == Err::<Cmdline, BootError>(BootError::CmdlineRejected),
{
    cmdline_outcome(parse_cmdline(desc.kernel_cmdline.as_str(), CMDLINE_CAPACITY))
}

/// How a guest's run ended.
#[derive(Clone, Copy, Debug, PartialEq, Eq, Structural)]
pub enum ExitClass {
    /// The guest shut down in order.
    Clean,
    /// The guest crashed or was stopped with an error.
    Abnormal,
}

/// Reads the hypervisor's exit code after one turn of its event loop:
/// nothing while the guest still runs, `Clean` for `EXIT_CODE_OK`, and
/// `Abnormal` for every other code.
pub fn classify_exit(code: Option<u8>) -> (class: Option<ExitClass>)
    ensures
        class == match code {
            None => None,
            Some(c) => Some(
                if c == EXIT_CODE_OK {
                    ExitClass::Clean
                } else {
                    ExitClass::Abnormal
                },
            ),
        },
{
    match code {
        None => None,
        Some(c) => if c == EXIT_CODE_OK {
            Some(ExitClass::Clean)
        } else {
            Some(ExitClass::Abnormal)
        },
    }
}

} // verus!
