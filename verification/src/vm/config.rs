//! The configuration of a VM instance.
use vstd::prelude::*;

use crate::mac::MacAddress;
use crate::text::{append_decimal, decimal, join_path, path_join};
use crate::vm::disk::{gib_bytes, DiskImage, DiskImageView, GIB};
use crate::vm::display::DisplayMode;

verus! {

/// Network interface attached to the VM.
#[derive(Debug, Clone, PartialEq, Eq)]
pub struct NetworkInterface {
    /// TAP device name on the host (e.g. `"tap0"`).
    tap: String,
    /// MAC address (e.g. `52:54:00:12:34:56`).
    mac: MacAddress,
    /// NIC model exposed to the guest (e.g. `"e1000"`, `"virtio-net-pci"`).
    model: String,
}

/// What a network interface is: its TAP device, MAC address and NIC model.
pub ghost struct NetworkInterfaceView {
    pub tap: Seq<char>,
    pub mac: MacAddress,
    pub model: Seq<char>,
}

impl View for NetworkInterface {
    type V = NetworkInterfaceView;

    closed spec fn view(&self) -> NetworkInterfaceView {
        NetworkInterfaceView { tap: self.tap@, mac: self.mac, model: self.model@ }
    }
}

impl NetworkInterface {
    /// Create a new network interface.
    pub fn new(tap: &str, mac: MacAddress, model: &str) -> (res: Self)
        ensures
            res@ == (NetworkInterfaceView { tap: tap@, mac, model: model@ }),
    {
        NetworkInterface { tap: tap.to_owned(), mac, model: model.to_owned() }
    }

    /// TAP device name on the host.
    pub fn tap(&self) -> (res: &str)
        ensures
            res@ == self@.tap,
    {
        self.tap.as_str()
    }

    /// MAC address.
    pub fn mac(&self) -> (res: MacAddress)
        ensures
            res == self@.mac,
    {
        self.mac
    }

    /// NIC model exposed to the guest.
    pub fn model(&self) -> (res: &str)
        ensures
            res@ == self@.model,
    {
        self.model.as_str()
    }
}

/// Complete configuration for a single VM instance.
#[derive(Debug, Clone)]
pub struct VmConfig {
    /// Human-readable name; used for the QMP socket path and config directory.
    name: String,
    /// Number of vCPUs.
    vcpus: u32,
    /// RAM in bytes.
    memory_bytes: u64,
    /// Disk images attached in order. The first disk is the boot device.
    disks: Vec<DiskImage>,
    /// Network interfaces.
    networks: Vec<NetworkInterface>,
    /// Display output.
    display: DisplayMode,
    /// OVMF firmware path (enables UEFI); `None` boots SeaBIOS.
    firmware: Option<String>,
    /// Extra QEMU args injected verbatim.
    extra_args: Vec<String>,
}

/// What a VM configuration is.
pub ghost struct VmConfigView {
    pub name: Seq<char>,
    pub vcpus: u32,
    pub memory_bytes: u64,
    pub disks: Seq<DiskImageView>,
    pub networks: Seq<NetworkInterfaceView>,
    pub display: DisplayMode,
    pub firmware: Option<Seq<char>>,
    pub extra_args: Seq<Seq<char>>,
}

impl View for VmConfig {
    type V = VmConfigView;

    closed spec fn view(&self) -> VmConfigView {
        VmConfigView {
            name: self.name@,
            vcpus: self.vcpus,
            memory_bytes: self.memory_bytes,
            disks: self.disks@.map_values(|d: DiskImage| d@),
            networks: self.networks@.map_values(|n: NetworkInterface| n@),
            display: self.display,
            firmware: match self.firmware {
                Some(f) => Some(f@),
                None => None,
            },
            extra_args: self.extra_args.deep_view(),
        }
    }
}

/// Default base directory for all VM state files. A program may choose
/// another one (the bundled app honours `XENITH_VM_DIR`).
pub const BASE_DIR: &'static str = "/xenith/vms";

/// The number of bytes in one MiB.
pub const MIB: u64 = 1048576;


/// The QEMU node name of disk `i`: `drive<i>`.
pub open spec fn drive_id(i: nat) -> Seq<char> {
    "drive"@ + decimal(i)
}

/// The runtime directory of VM `name` under `base`.
pub open spec fn runtime_dir_path(base: Seq<char>, name: Seq<char>) -> Seq<char> {
    path_join(base, name)
}

/// A file of VM `name`'s runtime directory under `base`.
pub open spec fn runtime_file_path(base: Seq<char>, name: Seq<char>, file: Seq<char>) -> Seq<char> {
    path_join(runtime_dir_path(base, name), file)
}

impl VmConfig {
    /// Construct a minimal config: no disks, networks, firmware or extra args,
    /// and no display.
    pub fn new(name: &str, vcpus: u32, memory_bytes: u64) -> (res: Self)
        ensures
            res@ == (VmConfigView {
                name: name@,
                vcpus,
                memory_bytes,
                disks: seq![],
                networks: seq![],
                display: DisplayMode::Headless,
                firmware: None,
                extra_args: seq![],
            }),
    {
        let res = VmConfig {
            name: name.to_owned(),
            vcpus,
            memory_bytes,
            disks: Vec::new(),
            networks: Vec::new(),
            display: DisplayMode::Headless,
            firmware: None,
            extra_args: Vec::new(),
        };
        assert(res@.disks =~= seq![]);
        assert(res@.networks =~= seq![]);
        assert(res@.extra_args =~= seq![]);
        res
    }

    /// Human-readable VM name.
    pub fn name(&self) -> (res: &str)
        ensures
            res@ == self@.name,
    {
        self.name.as_str()
    }

    /// Number of vCPUs.
    pub fn vcpus(&self) -> (res: u32)
        ensures
            res == self@.vcpus,
    {
        self.vcpus
    }

    /// RAM in bytes.
    pub fn memory_bytes(&self) -> (res: u64)
        ensures
            res == self@.memory_bytes,
    {
        self.memory_bytes
    }

    /// Disk images attached to this VM.
    pub fn disks(&self) -> (res: &[DiskImage])
        ensures
            res@.map_values(|d: DiskImage| d@) == self@.disks,
    {
        self.disks.as_slice()
    }

    /// Network interfaces attached to this VM.
    pub fn networks(&self) -> (res: &[NetworkInterface])
        ensures
            res@.map_values(|n: NetworkInterface| n@) == self@.networks,
    {
        self.networks.as_slice()
    }

    /// Display output mode.
    pub fn display(&self) -> (res: &DisplayMode)
        ensures
            *res == self@.display,
    {
        &self.display
    }

    /// OVMF firmware path, if UEFI boot is configured.
    pub fn firmware(&self) -> (res: Option<&str>)
        ensures
            match res {
                Some(f) => self@.firmware == Some(f@),
                None => self@.firmware is None,
            },
    {
        match &self.firmware {
            Some(f) => Some(f.as_str()),
            None => None,
        }
    }

    /// Extra verbatim QEMU args (e.g. from the stealth layer).
    pub fn extra_args(&self) -> (res: &[String])
        ensures
            res@.map_values(|s: String| s@) == self@.extra_args,
    {
        let res = self.extra_args.as_slice();
        assert(res@.map_values(|s: String| s@) =~= self@.extra_args);
        res
    }

    /// Runtime directory of this VM (QMP socket, PID file, etc.) under the
    /// state directory `base_dir`.
    pub fn runtime_dir(&self, base_dir: &str) -> (res: String)
        ensures
            res@ == runtime_dir_path(base_dir@, self@.name),
    {
        join_path(base_dir, self.name.as_str())
    }

    /// A file of this VM's runtime directory under `base_dir`.
    fn runtime_file(&self, base_dir: &str, file: &str) -> (res: String)
        ensures
            res@ == runtime_file_path(base_dir@, self@.name, file@),
    {
        let dir = self.runtime_dir(base_dir);
        join_path(dir.as_str(), file)
    }

    /// Path to the QMP Unix socket of this VM under `base_dir`.
    pub fn qmp_socket(&self, base_dir: &str) -> (res: String)
        ensures
            res@ == runtime_file_path(base_dir@, self@.name, "qmp.sock"@),
    {
        self.runtime_file(base_dir, "qmp.sock")
    }

    /// Path to the TOML config file of this VM under `base_dir`.
    pub fn config_file(&self, base_dir: &str) -> (res: String)
        ensures
            res@ == runtime_file_path(base_dir@, self@.name, "config.toml"@),
    {
        self.runtime_file(base_dir, "config.toml")
    }

    /// Path to the file QEMU writes its PID to, under `base_dir`.
    pub fn pid_file(&self, base_dir: &str) -> (res: String)
        ensures
            res@ == runtime_file_path(base_dir@, self@.name, "qemu.pid"@),
    {
        self.runtime_file(base_dir, "qemu.pid")
    }

    /// Memory in MiB, rounded down (the QEMU `-m` argument).
    pub fn memory_mib(&self) -> (res: u64)
        ensures
            res == self@.memory_bytes / MIB,
    {
        self.memory_bytes / MIB
    }

    /// Convert a GiB count to bytes.
    pub fn gib_to_bytes(gib: u64) -> (res: u64)
        requires
            gib_bytes(gib as nat) <= u64::MAX,
        ensures
            res == gib_bytes(gib as nat),
    {
        gib * GIB
    }

    /// Attach a disk image after those already attached.
    pub fn with_disk(self, disk: DiskImage) -> (res: Self)
        ensures
            res@ == (VmConfigView { disks: self@.disks.push(disk@), ..self@ }),
    {
        let mut res = self;
        res.disks.push(disk);
        assert(res@.disks =~= self@.disks.push(disk@));
        res
    }

    /// Attach a network interface after those already attached.
    pub fn with_network(self, net: NetworkInterface) -> (res: Self)
        ensures
            res@ == (VmConfigView { networks: self@.networks.push(net@), ..self@ }),
    {
        let mut res = self;
        res.networks.push(net);
        assert(res@.networks =~= self@.networks.push(net@));
        res
    }

    /// Set the firmware image for UEFI boot (the OVMF code blob). The QEMU
    /// command line then holds it as a read-only pflash drive.
    pub fn with_firmware(self, path: &str) -> (res: Self)
        ensures
            res@ == (VmConfigView { firmware: Some(path@), ..self@ }),
    {
        let mut res = self;
        res.firmware = Some(path.to_owned());
        assert(res@.disks =~= self@.disks);
        assert(res@.networks =~= self@.networks);
        res
    }

    /// Set the display output mode.
    pub fn with_display(self, display: DisplayMode) -> (res: Self)
        ensures
            res@ == (VmConfigView { display, ..self@ }),
    {
        let mut res = self;
        res.display = display;
        assert(res@.disks =~= self@.disks);
        assert(res@.networks =~= self@.networks);
        res
    }

    /// Extend the extra QEMU args (e.g. with the stealth layer's), keeping
    /// those already there first.
    pub fn with_extra_args(self, args: Vec<String>) -> (res: Self)
        ensures
            res@ == (VmConfigView { extra_args: self@.extra_args + args.deep_view(), ..self@ }),
    {
        let mut res = self;
        let mut args = args;
        let ghost added = args.deep_view();
        res.extra_args.append(&mut args);
        assert(res@.extra_args =~= self@.extra_args + added);
        assert(res@.disks =~= self@.disks);
        assert(res@.networks =~= self@.networks);
        res
    }

    /// Drive node names as used in the QEMU command line:
    /// `["drive0", "drive1", ...]`, one per disk.
    pub fn drive_ids(&self) -> (res: Vec<String>)
        ensures
            res.deep_view() == Seq::new(self@.disks.len(), |i: int| drive_id(i as nat)),
    {
        let mut ids: Vec<String> = Vec::new();
        let n = self.disks.len();
        let mut i: usize = 0;
        while i < n
            invariant
                n == self.disks.len(),
                i <= n,
                ids.deep_view() == Seq::new(i as nat, |k: int| drive_id(k as nat)),
            decreases n - i,
        {
            let mut id = "drive".to_owned();
            append_decimal(&mut id, i as u64);
            assert(id@ == drive_id(i as nat));
            let ghost before = ids.deep_view();
            ids.push(id);
            assert(ids.deep_view() =~= before.push(drive_id(i as nat)));
            i = i + 1;
            assert(ids.deep_view() =~= Seq::new(i as nat, |k: int| drive_id(k as nat)));
        }
        ids
    }
}

/// A VM's runtime directory ends with the VM's name, wherever the state
/// directory is.
pub proof fn lemma_runtime_dir_ends_with_name(base: Seq<char>, name: Seq<char>)
    ensures
        runtime_dir_path(base, name).len() >= name.len(),
        runtime_dir_path(base, name).skip(runtime_dir_path(base, name).len() - name.len()) == name,
{
    let d = runtime_dir_path(base, name);
    assert(d.skip(d.len() - name.len()) =~= name);
}

/// A file of a VM's runtime directory named by a relative path lies inside
/// that directory: the directory's path is a prefix of the file's, and the
/// file's path ends with its name.
pub proof fn lemma_runtime_file_inside_dir(base: Seq<char>, name: Seq<char>, file: Seq<char>)
    requires
        file.len() > 0,
        file[0] != '/',
    ensures
        runtime_dir_path(base, name).is_prefix_of(runtime_file_path(base, name, file)),
        runtime_file_path(base, name, file).skip(
            runtime_file_path(base, name, file).len() - file.len(),
        ) == file,
{
    let d = runtime_dir_path(base, name);
    let f = runtime_file_path(base, name, file);
    assert(f.take(d.len() as int) =~= d);
    assert(f.skip(f.len() - file.len()) =~= file);
}

} // verus!
