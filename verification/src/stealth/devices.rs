//! Device identity: real-world USB controller and HID devices.
use vstd::prelude::*;

verus! {

/// The device arguments: an xHCI controller and a USB tablet on it.
pub open spec fn devices_args() -> Seq<Seq<char>> {
    seq!["-device"@, "qemu-xhci,id=usb,p2=15,p3=15"@, "-device"@, "usb-tablet,bus=usb.0"@]
}

/// Build QEMU args that present plausible real PCI/USB devices in place of
/// QEMU's trivially detected defaults.
pub fn build_args() -> (res: Vec<String>)
    ensures
        res.deep_view() == devices_args(),
{
    let mut args: Vec<String> = Vec::new();
    // USB controller: xHCI with 15 USB2 and 15 USB3 ports, as on common boards.
    args.push("-device".to_owned());
    args.push("qemu-xhci,id=usb,p2=15,p3=15".to_owned());
    // USB HID tablet: looks like a real USB device and avoids relative-mouse issues.
    args.push("-device".to_owned());
    args.push("usb-tablet,bus=usb.0".to_owned());
    assert(args.deep_view() =~= devices_args());
    args
}

} // verus!
