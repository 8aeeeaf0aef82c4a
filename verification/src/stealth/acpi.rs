//! ACPI table identity: replace the QEMU OEM identifiers.
use vstd::prelude::*;

verus! {

/// The ACPI arguments: the OEM and OEM-table identifiers of a common
/// real-world firmware vendor.
pub open spec fn acpi_args() -> Seq<Seq<char>> {
    seq!["-acpi"@, "oem_id=ALASKA,oem_table_id=A M I"@]
}

/// Build QEMU args that suppress ACPI artifacts that reveal QEMU/KVM.
///
/// The default QEMU ACPI tables carry `QEMU` as the OEM ID in the FACP and
/// MADT headers; overriding it with a plausible real-world OEM ID makes these
/// tables look like a physical machine.
pub fn build_args() -> (res: Vec<String>)
    ensures
        res.deep_view() == acpi_args(),
{
    let mut args: Vec<String> = Vec::new();
    args.push("-acpi".to_owned());
    args.push("oem_id=ALASKA,oem_table_id=A M I".to_owned());
    assert(args.deep_view() =~= acpi_args());
    args
}

} // verus!
