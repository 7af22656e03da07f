//! A pool of short-lived microVMs, one per inbound TCP connection.
//!
//! Each connection leases a slot of a fixed pool, boots the slot's guest,
//! reaches the guest's service as soon as it answers, relays the
//! connection into it, and gives the slot back when the guest has exited.
//!
//! This crate decides; it performs no input or output. It lays out the
//! addresses of the slots ([`addr`], [`slot`], [`text`]), says what the
//! host kernel and the hypervisor are to be handed ([`tap`], [`arp`],
//! [`boot`]), keeps the books of free slots ([`mask`], [`claim`], [`vm`]),
//! and holds the state machines that a server steps through
//! ([`provision`], [`conn`], [`connect`], [`splice`]): the server carries
//! out each action and reports what happened as the next event. What is
//! assumed of other crates is gathered in [`trusted`].

pub mod addr;
pub mod arp;
pub mod boot;
pub mod claim;
pub mod conn;
pub mod connect;
pub mod mask;
pub mod provision;
pub mod slot;
pub mod splice;
pub mod tap;
pub mod text;
pub mod trusted;
pub mod vm;
mod word;
