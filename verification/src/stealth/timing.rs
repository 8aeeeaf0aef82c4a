//! Timing behaviour: hide the KVM paravirtual clock.
use vstd::prelude::*;

verus! {

/// The timing arguments: `-no-kvmclock`.
pub open spec fn timing_args() -> Seq<Seq<char>> {
    seq!["-no-kvmclock"@]
}

/// Build QEMU args that configure timing behaviour to look like bare metal.
///
/// `-no-kvmclock` disables the KVM paravirtual clock device; guests that
/// detect its presence use it as a reliable hypervisor indicator. The
/// CPU-level TSC flags (`tsc-deadline=off`, `invtsc=on`, `kvm=off`) are set by
/// [`crate::stealth::cpuid::build_args`].
pub fn build_args() -> (res: Vec<String>)
    ensures
        res.deep_view() == timing_args(),
{
    let mut args: Vec<String> = Vec::new();
    args.push("-no-kvmclock".to_owned());
    assert(args.deep_view() =~= timing_args());
    args
}

} // verus!
