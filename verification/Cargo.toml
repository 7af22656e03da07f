[package]
name = "vm_runner"
version = "0.1.0"
edition = "2021"
publish = false

[dependencies]
libc = "0.2"
linux-loader = "0.10"
tun = "0.6"
rlimit = "0.10"
thiserror = "1"
displaydoc = "0.2"
