//! SMBIOS/DMI tables: BIOS, system, base board and chassis identity.
use vstd::prelude::*;

use crate::stealth::profile::HardwareProfile;

verus! {

/// The DMI type 0 (BIOS) table.
pub open spec fn bios_table(p: HardwareProfile) -> Seq<char> {
    "type=0,vendor="@ + p.bios_vendor@ + ",version="@ + p.bios_version@
}

/// The DMI type 1 (system) table.
pub open spec fn system_table(p: HardwareProfile) -> Seq<char> {
    "type=1,manufacturer="@ + p.system_manufacturer@ + ",product="@ + p.system_product@
        + ",serial="@ + p.system_serial@
}

/// The DMI type 2 (base board) table.
pub open spec fn board_table(p: HardwareProfile) -> Seq<char> {
    "type=2,manufacturer="@ + p.board_manufacturer@ + ",product="@ + p.board_product@
        + ",serial="@ + p.board_serial@
}

/// The DMI type 3 (chassis) table: generic, with no identifying strings.
pub open spec fn chassis_table() -> Seq<char> {
    "type=3,manufacturer=Default string"@
}

/// The SMBIOS arguments for a profile: each table after its own `-smbios`.
pub open spec fn smbios_args(p: HardwareProfile) -> Seq<Seq<char>> {
    seq![
        "-smbios"@,
        bios_table(p),
        "-smbios"@,
        system_table(p),
        "-smbios"@,
        board_table(p),
        "-smbios"@,
        chassis_table(),
    ]
}

/// Build QEMU `-smbios` arguments for BIOS, system, board and chassis tables
/// (DMI types 0, 1, 2 and 3).
pub fn build_args(profile: &HardwareProfile) -> (res: Vec<String>)
    ensures
        res.deep_view() == smbios_args(*profile),
{
    let mut bios = "type=0,vendor=".to_owned();
    bios.append(profile.bios_vendor.as_str());
    bios.append(",version=");
    bios.append(profile.bios_version.as_str());

    let mut system = "type=1,manufacturer=".to_owned();
    system.append(profile.system_manufacturer.as_str());
    system.append(",product=");
    system.append(profile.system_product.as_str());
    system.append(",serial=");
    system.append(profile.system_serial.as_str());

    let mut board = "type=2,manufacturer=".to_owned();
    board.append(profile.board_manufacturer.as_str());
    board.append(",product=");
    board.append(profile.board_product.as_str());
    board.append(",serial=");
    board.append(profile.board_serial.as_str());

    let mut args: Vec<String> = Vec::new();
    args.push("-smbios".to_owned());
    args.push(bios);
    args.push("-smbios".to_owned());
    args.push(system);
    args.push("-smbios".to_owned());
    args.push(board);
    args.push("-smbios".to_owned());
    args.push("type=3,manufacturer=Default string".to_owned());
    assert(args.deep_view() =~= smbios_args(*profile));
    args
}

/// Each SMBIOS table is built from its own fields only, in the documented
/// `key=value` form: the BIOS table from the BIOS vendor and version, the
/// system table from the system manufacturer, product and serial, the base
/// board table from the board manufacturer, product and serial, and the
/// chassis table from nothing. Two profiles that agree on a table's fields
/// get the same table, whatever else differs.
pub proof fn lemma_smbios_tables_use_own_fields(p: HardwareProfile, q: HardwareProfile)
    ensures
        smbios_args(p).len() == 8,
        smbios_args(p)[0] == "-smbios"@,
        smbios_args(p)[2] == "-smbios"@,
        smbios_args(p)[4] == "-smbios"@,
        smbios_args(p)[6] == "-smbios"@,
        smbios_args(p)[1] == "type=0,vendor="@ + p.bios_vendor@ + ",version="@ + p.bios_version@,
        smbios_args(p)[3] == "type=1,manufacturer="@ + p.system_manufacturer@ + ",product="@
            + p.system_product@ + ",serial="@ + p.system_serial@,
        smbios_args(p)[5] == "type=2,manufacturer="@ + p.board_manufacturer@ + ",product="@
            + p.board_product@ + ",serial="@ + p.board_serial@,
        smbios_args(p)[7] == "type=3,manufacturer=Default string"@,
        (p.bios_vendor@ == q.bios_vendor@ && p.bios_version@ == q.bios_version@) ==> smbios_args(
            p,
        )[1] == smbios_args(q)[1],
        (p.system_manufacturer@ == q.system_manufacturer@ && p.system_product@
            == q.system_product@ && p.system_serial@ == q.system_serial@) ==> smbios_args(p)[3]
            == smbios_args(q)[3],
        (p.board_manufacturer@ == q.board_manufacturer@ && p.board_product@ == q.board_product@
            && p.board_serial@ == q.board_serial@) ==> smbios_args(p)[5] == smbios_args(q)[5],
        smbios_args(p)[7] == smbios_args(q)[7],
{
}

} // verus!
