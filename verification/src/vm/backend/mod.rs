//! Hypervisor backends.
pub mod qemu;
