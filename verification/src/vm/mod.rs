//! VM lifecycle management on QEMU/KVM: configuration, disk images, the QEMU
//! command line and the running-state decisions.
pub mod display;
pub mod error;
pub mod snapshot;
pub mod disk;
pub mod config;
pub mod backend;
pub mod vm;

pub use config::{NetworkInterface, VmConfig};
pub use disk::{DiskFormat, DiskImage};
pub use display::DisplayMode;
pub use error::Error as VmError;
pub use error::Result as VmResult;
pub use vm::Vm;
