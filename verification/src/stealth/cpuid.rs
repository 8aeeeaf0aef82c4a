//! CPUID masking: hide the hypervisor and present the profile's vendor.
use vstd::prelude::*;

use crate::stealth::profile::HardwareProfile;

verus! {

/// The QEMU CPU model the spoofed CPU is based on: an EPYC model for an AMD
/// vendor string, a Skylake client model for anything else.
pub open spec fn base_cpu_model(vendor: Seq<char>) -> Seq<char> {
    if vendor == "AuthenticAMD"@ {
        "EPYC-v4"@
    } else {
        "Skylake-Client-v4"@
    }
}

/// The `-cpu` value: the base model, the hypervisor bit hidden, the invariant
/// TSC exposed, the TSC-deadline timer turned off, the KVM paravirtual leaves
/// disabled and the vendor spoofed.
pub open spec fn cpu_flag_value(vendor: Seq<char>) -> Seq<char> {
    base_cpu_model(vendor) + ",-hypervisor,+invtsc,tsc-deadline=off,kvm=off,vendor="@ + vendor
}

/// The CPUID arguments for a profile.
pub open spec fn cpuid_args(profile: HardwareProfile) -> Seq<Seq<char>> {
    seq!["-cpu"@, cpu_flag_value(profile.cpu_vendor@)]
}

/// Build QEMU `-cpu` arguments that mask hypervisor CPUID leaves.
///
/// The resulting arg list hides the hypervisor bit (`-hypervisor`, CPUID.1:ECX[31]),
/// carries the CPU-level TSC flags (`+invtsc`, i.e. `invtsc=on`, and
/// `tsc-deadline=off`), disables KVM paravirtual leaves (`kvm=off`) and spoofs
/// the vendor string, so the guest sees bare metal.
pub fn build_args(profile: &HardwareProfile) -> (res: Vec<String>)
    ensures
        res.deep_view() == cpuid_args(*profile),
{
    let amd = "AuthenticAMD".to_owned();
    let base = if profile.cpu_vendor == amd {
        "EPYC-v4"
    } else {
        "Skylake-Client-v4"
    };
    let mut cpu_arg = base.to_owned();
    cpu_arg.append(",-hypervisor,+invtsc,tsc-deadline=off,kvm=off,vendor=");
    cpu_arg.append(profile.cpu_vendor.as_str());
    let mut args: Vec<String> = Vec::new();
    args.push("-cpu".to_owned());
    args.push(cpu_arg);
    assert(args.deep_view() =~= cpuid_args(*profile));
    args
}

} // verus!
