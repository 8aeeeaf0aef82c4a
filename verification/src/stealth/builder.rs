//! The complete stealth configuration of a VM.
use vstd::prelude::*;

use crate::stealth::acpi::{self, acpi_args};
use crate::stealth::cpuid::{self, cpuid_args};
use crate::stealth::devices::{self, devices_args};
use crate::stealth::profile::HardwareProfile;
use crate::stealth::smbios::{self, smbios_args};
use crate::stealth::timing::{self, timing_args};

verus! {

/// Complete stealth configuration for a VM.
///
/// [`StealthConfig::build`] gives the ready-to-use QEMU arg list, which can
/// be passed to [`crate::vm::config::VmConfig::with_extra_args`].
#[derive(Debug, Clone)]
pub struct StealthConfig {
    profile: HardwareProfile,
}

/// The complete stealth argument list for a profile: CPUID settings first
/// (they influence machine-type defaults), then SMBIOS, ACPI, timing and
/// devices.
pub open spec fn stealth_args(p: HardwareProfile) -> Seq<Seq<char>> {
    cpuid_args(p) + smbios_args(p) + acpi_args() + timing_args() + devices_args()
}

impl StealthConfig {
    /// The hardware profile of the configuration.
    pub closed spec fn spec_profile(&self) -> HardwareProfile {
        self.profile
    }

    /// Generate a new stealth config from a randomly generated hardware profile.
    pub fn generate() -> (res: Self)
        ensures
            res.spec_profile().is_generated(),
    {
        StealthConfig { profile: HardwareProfile::generate() }
    }

    /// A stealth config presenting the given profile.
    pub fn from_profile(profile: HardwareProfile) -> (res: Self)
        ensures
            res.spec_profile() == profile,
    {
        StealthConfig { profile }
    }

    /// The hardware profile used by this config.
    pub fn profile(&self) -> (res: &HardwareProfile)
        ensures
            *res == self.spec_profile(),
    {
        &self.profile
    }

    /// Build the complete QEMU arg list from this config.
    ///
    /// The args are ordered so that CPUID settings come first (they influence
    /// machine-type defaults), followed by SMBIOS, ACPI, timing and devices.
    pub fn build(&self) -> (res: Vec<String>)
        ensures
            res.deep_view() == stealth_args(self.spec_profile()),
    {
        let mut args: Vec<String> = Vec::new();
        let mut part = cpuid::build_args(&self.profile);
        args.append(&mut part);
        let mut part = smbios::build_args(&self.profile);
        args.append(&mut part);
        let mut part = acpi::build_args();
        args.append(&mut part);
        let mut part = timing::build_args();
        args.append(&mut part);
        let mut part = devices::build_args();
        args.append(&mut part);
        assert(args.deep_view() =~= stealth_args(self.profile));
        args
    }
}

/// `args[i]` is `x`, and no earlier argument is.
pub open spec fn first_at(args: Seq<Seq<char>>, x: Seq<char>, i: int) -> bool {
    &&& 0 <= i < args.len()
    &&& args[i] == x
    &&& forall|j: int| 0 <= j < i ==> args[j] != x
}

/// Whatever the profile, the stealth arguments are 17 strings in which the
/// first `-cpu` (at 0) precedes the first `-smbios` (at 2), which precedes
/// the first `-no-kvmclock` (at 12), which precedes the first `-device` (at
/// 13); and `-smbios` stands exactly four times, once before each of the
/// four DMI tables.
pub proof fn lemma_stealth_arg_order(p: HardwareProfile)
    ensures
        stealth_args(p).len() == 17,
        first_at(stealth_args(p), "-cpu"@, 0),
        first_at(stealth_args(p), "-smbios"@, 2),
        first_at(stealth_args(p), "-no-kvmclock"@, 12),
        first_at(stealth_args(p), "-device"@, 13),
        forall|i: int|
            0 <= i < 17 ==> (#[trigger] stealth_args(p)[i] == "-smbios"@ <==> (i == 2 || i == 4
                || i == 6 || i == 8)),
{
    reveal_strlit("-cpu");
    reveal_strlit("-smbios");
    reveal_strlit("-no-kvmclock");
    reveal_strlit("-device");
    reveal_strlit("-acpi");
    reveal_strlit("oem_id=ALASKA,oem_table_id=A M I");
    reveal_strlit("EPYC-v4");
    reveal_strlit("Skylake-Client-v4");
    reveal_strlit("type=0,vendor=");
    reveal_strlit("type=1,manufacturer=");
    reveal_strlit("type=2,manufacturer=");
    reveal_strlit("type=3,manufacturer=Default string");
    reveal_strlit("qemu-xhci,id=usb,p2=15,p3=15");
    reveal_strlit("usb-tablet,bus=usb.0");
    let a = stealth_args(p);
    assert(a[1][0] == 'E' || a[1][0] == 'S');
    assert(a[3][0] == 't');
    assert(a[5][0] == 't');
    assert(a[7][0] == 't');
    assert(a[9][0] == 't');
    assert(a[11][0] == 'o');
    assert(a[10][1] == 'a');
    assert(a[2][1] == 's');
    assert(a[4][1] == 's');
    assert(a[6][1] == 's');
    assert(a[8][1] == 's');
    assert(a[12][1] == 'n');
    assert(a[0][1] == 'c');
    assert(a[13][1] == 'd');
    assert(a[14][0] == 'q');
    assert(a[15][1] == 'd');
    assert(a[16][0] == 'u');
}

} // verus!
