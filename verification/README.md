# xenith

Building blocks for a QEMU/KVM hypervisor toolkit whose guests should not
notice they are virtualised, written in Verus with the behaviour of every
library function stated and proved.

- `src/stealth/` — the fake hardware identity (`HardwareProfile`, drawn at
  random from real machines) and the QEMU arguments that present it: CPUID
  masking, SMBIOS tables, ACPI OEM ids, timing and USB devices.
- `src/vm/` — VM configuration, disk images, the full QEMU command line
  (`backend::qemu`), the decisions taken on what QEMU, `qemu-img` and the QMP
  monitor report, and the running-state rules of a `Vm`.
- `src/text.rs`, `src/mac.rs` — decimal rendering, Unix path joining,
  `str::trim` + `u32` parsing, and MAC addresses.
- `app/` — the unverified edge: environment, files, processes, signals, the
  QMP connection, async VM operations and serde/TOML copies of the
  configuration types.
