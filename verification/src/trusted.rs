//! Everything this crate assumes of other crates. Nothing here is proved:
//! each contract restates what the named function or constant is seen to
//! do in its crate's source.

use linux_loader::cmdline::Cmdline;
use vstd::prelude::*;

verus! {

/// `linux_loader::cmdline::Cmdline`, a validated kernel command line. Its
/// contents are not visible here; values are only carried.
#[verifier::external_type_specification]
#[verifier::external_body]
pub struct ExCmdline(linux_loader::cmdline::Cmdline);

/// `linux_loader::cmdline::Error`, why a command line was refused.
#[verifier::external_type_specification]
#[verifier::external_body]
pub struct ExCmdlineError(linux_loader::cmdline::Error);

/// Whether `Cmdline::try_from` accepts the text `raw` for a command line
/// of at most `capacity` bytes, terminator included.
pub uninterp spec fn cmdline_accepted(raw: Seq<char>, capacity: usize) -> bool;

/// `Cmdline::try_from`: splits `raw` into boot and init arguments and
/// checks the size against `capacity`. Assumed: it returns, and whether it
/// accepts depends on the text and the capacity alone.
#[verifier::external_body]
pub(crate) fn parse_cmdline(raw: &str, capacity: usize) -> (parsed: Result<
    Cmdline,
    linux_loader::cmdline::Error,
>)
    ensures
        parsed.is_ok() == cmdline_accepted(raw@, capacity),
{
    Cmdline::try_from(raw, capacity)
}

/// `libc::AF_INET`, the address family of IPv4. Assumed: its value on
/// Linux, 2.
#[verifier::external_body]
pub(crate) fn af_inet() -> (family: i32)
    ensures
        family == 2,
{
    libc::AF_INET
}

/// `libc::ARPHRD_ETHER`, the hardware type of Ethernet. Assumed: its
/// value, 1.
#[verifier::external_body]
pub(crate) fn arphrd_ether() -> (hardware: u16)
    ensures
        hardware == 1,
{
    libc::ARPHRD_ETHER
}

/// `libc::ATF_COM`, the flag of a completed neighbour entry. Assumed: its
/// value, 0x02.
#[verifier::external_body]
pub(crate) fn atf_com() -> (flag: i32)
    ensures
        flag == 0x02,
{
    libc::ATF_COM
}

/// `libc::ATF_PERM`, the flag of a permanent neighbour entry. Assumed: its
/// value, 0x04.
#[verifier::external_body]
pub(crate) fn atf_perm() -> (flag: i32)
    ensures
        flag == 0x04,
{
    libc::ATF_PERM
}

} // verus!
