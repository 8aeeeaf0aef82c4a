//! Building blocks for a stealthy QEMU/KVM virtual machine: the hardware
//! identity presented to the guest, the QEMU command line, and the VM
//! lifecycle decisions.
pub mod text;
pub mod mac;
pub mod stealth;
pub mod vm;
