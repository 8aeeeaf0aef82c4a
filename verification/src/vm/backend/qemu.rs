//! The QEMU backend: the QEMU command line of a VM, and the decisions taken
//! on what QEMU and its QMP monitor report back.
use vstd::prelude::*;

use crate::mac::mac_text;
use crate::text::{
    append_decimal, append_signed_decimal, decimal, int_error_message, parse_trimmed_u32, parse_u32,
    signed_decimal, trim,
};
use crate::vm::error::Error as VmError;
use crate::vm::config::{
    drive_id, runtime_file_path, NetworkInterface, NetworkInterfaceView, VmConfig, VmConfigView,
    MIB,
};
use crate::vm::disk::{format_name, DiskImage, DiskImageView};
use crate::vm::display::DisplayMode;

verus! {

/// QEMU backend: builds the QEMU command line and manages the process.
#[derive(Debug, Clone, Copy, Default)]
pub struct QemuBackend;

/// Machine type, vCPUs, memory in MiB and, with UEFI, the firmware as a
/// read-only pflash drive.
pub open spec fn machine_args(c: VmConfigView) -> Seq<Seq<char>> {
    seq![
        "-machine"@,
        "q35,accel=kvm"@,
        "-smp"@,
        decimal(c.vcpus as nat),
        "-m"@,
        decimal((c.memory_bytes / MIB) as nat),
    ] + match c.firmware {
        Some(fw) => seq!["-drive"@, "if=pflash,format=raw,readonly=on,file="@ + fw],
        None => seq![],
    }
}

/// Disk number `i`: a drive node `drive<i>` and a virtio block device on it.
pub open spec fn disk_entry(d: DiskImageView, i: nat) -> Seq<Seq<char>> {
    seq![
        "-drive"@,
        "id="@ + drive_id(i) + ",file="@ + d.path + ",format="@ + format_name(d.format)
            + ",if=none"@,
        "-device"@,
        "virtio-blk-pci,drive="@ + drive_id(i),
    ]
}

/// The arguments of the first `n` disks, in order.
pub open spec fn disks_args(disks: Seq<DiskImageView>, n: nat) -> Seq<Seq<char>>
    decreases n,
{
    if n == 0 {
        seq![]
    } else {
        disks_args(disks, (n - 1) as nat) + disk_entry(disks[n - 1], (n - 1) as nat)
    }
}

/// A network interface: a TAP backend named after the TAP device, and the
/// guest NIC on it.
pub open spec fn network_entry(n: NetworkInterfaceView) -> Seq<Seq<char>> {
    seq![
        "-netdev"@,
        "tap,id="@ + n.tap + ",ifname="@ + n.tap + ",script=no,downscript=no"@,
        "-device"@,
        n.model + ",netdev="@ + n.tap + ",mac="@ + mac_text(n.mac.spec_octets()),
    ]
}

/// The arguments of the first `k` network interfaces, in order.
pub open spec fn networks_args(nets: Seq<NetworkInterfaceView>, k: nat) -> Seq<Seq<char>>
    decreases k,
{
    if k == 0 {
        seq![]
    } else {
        networks_args(nets, (k - 1) as nat) + network_entry(nets[k - 1])
    }
}

/// The display output.
pub open spec fn display_args(d: DisplayMode) -> Seq<Seq<char>> {
    match d {
        DisplayMode::Sdl => seq!["-display"@, "sdl"@],
        DisplayMode::Vnc(addr) => seq!["-display"@, "vnc="@ + addr@],
        DisplayMode::Headless => seq!["-display"@, "none"@, "-vga"@, "none"@],
    }
}

/// The QMP socket, daemon mode and PID file, under the state directory `base`.
pub open spec fn qmp_daemon_args(c: VmConfigView, base: Seq<char>) -> Seq<Seq<char>> {
    seq![
        "-qmp"@,
        "unix:"@ + runtime_file_path(base, c.name, "qmp.sock"@) + ",server,nowait"@,
        "-daemonize"@,
        "-pidfile"@,
        runtime_file_path(base, c.name, "qemu.pid"@),
    ]
}

/// The full QEMU command line of a VM whose state lives under `base`: machine,
/// disks, networks, display, QMP and daemon settings, then the extra args.
pub open spec fn qemu_args(c: VmConfigView, base: Seq<char>) -> Seq<Seq<char>> {
    machine_args(c) + disks_args(c.disks, c.disks.len()) + networks_args(c.networks, c.networks.len())
        + display_args(c.display) + qmp_daemon_args(c, base) + c.extra_args
}

impl QemuBackend {
    /// Build the full QEMU argument list for `config`, whose runtime files
    /// live under the state directory `base_dir`.
    pub fn build_args(config: &VmConfig, base_dir: &str) -> (res: Vec<String>)
        ensures
            res.deep_view() == qemu_args(config@, base_dir@),
    {
        let mut args: Vec<String> = Vec::new();
        add_machine_cpu_mem(&mut args, config);
        add_disks(&mut args, config);
        add_networks(&mut args, config);
        add_display(&mut args, config);
        add_qmp_daemon(&mut args, config, base_dir);
        let ghost before = args.deep_view();
        let extra = config.extra_args();
        let mut i: usize = 0;
        while i < extra.len()
            invariant
                extra@.map_values(|s: String| s@) == config@.extra_args,
                i <= extra.len(),
                args.deep_view() == before + config@.extra_args.take(i as int),
            decreases extra.len() - i,
        {
            push_arg(&mut args, extra[i].clone());
            assert(config@.extra_args.take(i + 1) =~= config@.extra_args.take(i as int).push(
                extra@[i as int]@,
            ));
            i = i + 1;
        }
        assert(config@.extra_args.take(i as int) =~= config@.extra_args);
        args
    }
}

/// Appends `s` to `args`.
fn push_arg(args: &mut Vec<String>, s: String)
    ensures
        final(args).deep_view() == old(args).deep_view().push(s@),
{
    args.push(s);
    assert(final(args).deep_view() =~= old(args).deep_view().push(s@));
}

fn add_machine_cpu_mem(args: &mut Vec<String>, config: &VmConfig)
    ensures
        final(args).deep_view() == old(args).deep_view() + machine_args(config@),
{
    push_arg(args, "-machine".to_owned());
    push_arg(args, "q35,accel=kvm".to_owned());
    push_arg(args, "-smp".to_owned());
    let mut smp = String::new();
    append_decimal(&mut smp, config.vcpus() as u64);
    push_arg(args, smp);
    push_arg(args, "-m".to_owned());
    let mut mem = String::new();
    append_decimal(&mut mem, config.memory_mib());
    push_arg(args, mem);
    match config.firmware() {
        Some(fw) => {
            push_arg(args, "-drive".to_owned());
            let mut drive = "if=pflash,format=raw,readonly=on,file=".to_owned();
            drive.append(fw);
            push_arg(args, drive);
        },
        None => {},
    }
    assert(final(args).deep_view() =~= old(args).deep_view() + machine_args(config@));
}

fn add_disks(args: &mut Vec<String>, config: &VmConfig)
    ensures
        final(args).deep_view() == old(args).deep_view() + disks_args(
            config@.disks,
            config@.disks.len(),
        ),
{
    let disks = config.disks();
    let n = disks.len();
    let mut i: usize = 0;
    while i < n
        invariant
            n == disks@.len(),
            disks@.map_values(|d: DiskImage| d@) == config@.disks,
            i <= n,
            args.deep_view() == old(args).deep_view() + disks_args(config@.disks, i as nat),
        decreases n - i,
    {
        let disk = &disks[i];
        assert(disk@ == config@.disks[i as int]);
        let ghost before = args.deep_view();
        let mut id = "drive".to_owned();
        append_decimal(&mut id, i as u64);
        push_arg(args, "-drive".to_owned());
        let mut drive = "id=".to_owned();
        drive.append(id.as_str());
        drive.append(",file=");
        drive.append(disk.path());
        drive.append(",format=");
        let fmt = disk.format().to_string();
        drive.append(fmt.as_str());
        drive.append(",if=none");
        push_arg(args, drive);
        push_arg(args, "-device".to_owned());
        let mut device = "virtio-blk-pci,drive=".to_owned();
        device.append(id.as_str());
        push_arg(args, device);
        assert(args.deep_view() =~= before + disk_entry(config@.disks[i as int], i as nat));
        i = i + 1;
        assert(args.deep_view() =~= old(args).deep_view() + disks_args(config@.disks, i as nat));
    }
}

fn add_networks(args: &mut Vec<String>, config: &VmConfig)
    ensures
        final(args).deep_view() == old(args).deep_view() + networks_args(
            config@.networks,
            config@.networks.len(),
        ),
{
    let nets = config.networks();
    let n = nets.len();
    let mut i: usize = 0;
    while i < n
        invariant
            n == nets@.len(),
            nets@.map_values(|x: NetworkInterface| x@) == config@.networks,
            i <= n,
            args.deep_view() == old(args).deep_view() + networks_args(config@.networks, i as nat),
        decreases n - i,
    {
        let net = &nets[i];
        assert(net@ == config@.networks[i as int]);
        let ghost before = args.deep_view();
        push_arg(args, "-netdev".to_owned());
        let mut netdev = "tap,id=".to_owned();
        netdev.append(net.tap());
        netdev.append(",ifname=");
        netdev.append(net.tap());
        netdev.append(",script=no,downscript=no");
        push_arg(args, netdev);
        push_arg(args, "-device".to_owned());
        let mut device = net.model().to_owned();
        device.append(",netdev=");
        device.append(net.tap());
        device.append(",mac=");
        let mac = net.mac().to_string();
        device.append(mac.as_str());
        push_arg(args, device);
        assert(args.deep_view() =~= before + network_entry(config@.networks[i as int]));
        i = i + 1;
        assert(args.deep_view() =~= old(args).deep_view() + networks_args(
            config@.networks,
            i as nat,
        ));
    }
}

fn add_display(args: &mut Vec<String>, config: &VmConfig)
    ensures
        final(args).deep_view() == old(args).deep_view() + display_args(config@.display),
{
    match config.display() {
        DisplayMode::Sdl => {
            push_arg(args, "-display".to_owned());
            push_arg(args, "sdl".to_owned());
        },
        DisplayMode::Vnc(addr) => {
            push_arg(args, "-display".to_owned());
            let mut v = "vnc=".to_owned();
            v.append(addr.as_str());
            push_arg(args, v);
        },
        DisplayMode::Headless => {
            push_arg(args, "-display".to_owned());
            push_arg(args, "none".to_owned());
            push_arg(args, "-vga".to_owned());
            push_arg(args, "none".to_owned());
        },
    }
    assert(final(args).deep_view() =~= old(args).deep_view() + display_args(config@.display));
}

fn add_qmp_daemon(args: &mut Vec<String>, config: &VmConfig, base_dir: &str)
    ensures
        final(args).deep_view() == old(args).deep_view() + qmp_daemon_args(config@, base_dir@),
{
    push_arg(args, "-qmp".to_owned());
    let mut qmp = "unix:".to_owned();
    let socket = config.qmp_socket(base_dir);
    qmp.append(socket.as_str());
    qmp.append(",server,nowait");
    push_arg(args, qmp);
    push_arg(args, "-daemonize".to_owned());
    push_arg(args, "-pidfile".to_owned());
    push_arg(args, config.pid_file(base_dir));
    assert(final(args).deep_view() =~= old(args).deep_view() + qmp_daemon_args(config@, base_dir@));
}

/// Every disk contributes four arguments in attach order: disk `i` occupies
/// positions `4i .. 4i + 4` of the disk arguments, as drive node `drive<i>`,
/// the same name [`VmConfig::drive_ids`] gives it for snapshot jobs.
pub proof fn lemma_disks_args_layout(disks: Seq<DiskImageView>, n: nat)
    requires
        n <= disks.len(),
    ensures
        disks_args(disks, n).len() == 4 * n,
        forall|i: int|
            0 <= i < n ==> #[trigger] disks_args(disks, n).subrange(4 * i, 4 * i + 4) == disk_entry(
                disks[i],
                i as nat,
            ),
    decreases n,
{
    if n > 0 {
        lemma_disks_args_layout(disks, (n - 1) as nat);
        let prev = disks_args(disks, (n - 1) as nat);
        let all = disks_args(disks, n);
        assert forall|i: int| 0 <= i < n implies #[trigger] all.subrange(4 * i, 4 * i + 4)
            == disk_entry(disks[i], i as nat) by {
            if i < n - 1 {
                assert(all.subrange(4 * i, 4 * i + 4) =~= prev.subrange(4 * i, 4 * i + 4));
            } else {
                assert(all.subrange(4 * i, 4 * i + 4) =~= disk_entry(disks[i], i as nat));
            }
        }
    }
}

/// Every network interface contributes four arguments in attach order:
/// interface `i` occupies positions `4i .. 4i + 4` of the network arguments.
pub proof fn lemma_networks_args_layout(nets: Seq<NetworkInterfaceView>, k: nat)
    requires
        k <= nets.len(),
    ensures
        networks_args(nets, k).len() == 4 * k,
        forall|i: int|
            0 <= i < k ==> #[trigger] networks_args(nets, k).subrange(4 * i, 4 * i + 4)
                == network_entry(nets[i]),
    decreases k,
{
    if k > 0 {
        lemma_networks_args_layout(nets, (k - 1) as nat);
        let prev = networks_args(nets, (k - 1) as nat);
        let all = networks_args(nets, k);
        assert forall|i: int| 0 <= i < k implies #[trigger] all.subrange(4 * i, 4 * i + 4)
            == network_entry(nets[i]) by {
            if i < k - 1 {
                assert(all.subrange(4 * i, 4 * i + 4) =~= prev.subrange(4 * i, 4 * i + 4));
            } else {
                assert(all.subrange(4 * i, 4 * i + 4) =~= network_entry(nets[i]));
            }
        }
    }
}

/// The display arguments: SDL is a window and nothing else, VNC a server at
/// the configured address, and only a VM without display also loses its VGA
/// card; every mode starts with `-display`, and the display section of the
/// command line follows the machine, disk and network sections.
pub proof fn lemma_display_modes(c: VmConfigView, base: Seq<char>)
    ensures
        display_args(c.display)[0] == "-display"@,
        c.display == DisplayMode::Sdl ==> display_args(c.display) == seq!["-display"@, "sdl"@],
        c.display matches DisplayMode::Vnc(a) ==> display_args(c.display) == seq![
            "-display"@,
            "vnc="@ + a@,
        ],
        c.display == DisplayMode::Headless ==> display_args(c.display) == seq![
            "-display"@,
            "none"@,
            "-vga"@,
            "none"@,
        ],
        display_args(c.display).contains("-vga"@) <==> c.display == DisplayMode::Headless,
        ({
            let i: int = machine_args(c).len() as int + disks_args(c.disks, c.disks.len()).len()
                + networks_args(c.networks, c.networks.len()).len();
            qemu_args(c, base).subrange(i, i + display_args(c.display).len()) == display_args(
                c.display,
            )
        }),
{
    reveal_strlit("-display");
    reveal_strlit("-vga");
    reveal_strlit("sdl");
    reveal_strlit("none");
    reveal_strlit("vnc=");
    let d = display_args(c.display);
    match c.display {
        DisplayMode::Sdl => {
            assert(d[0][1] == 'd' && "-vga"@[1] == 'v');
            assert(d[1][0] == 's' && "-vga"@[0] == '-');
            assert(d[0] != "-vga"@ && d[1] != "-vga"@);
        },
        DisplayMode::Vnc(a) => {
            assert(d[1][0] == 'v' && "-vga"@[0] == '-');
            assert(d[0][1] == 'd' && "-vga"@[1] == 'v');
            assert(d[0] != "-vga"@ && d[1] != "-vga"@);
        },
        DisplayMode::Headless => {
            assert(d[2] == "-vga"@);
        },
    }
    let i: int = machine_args(c).len() as int + disks_args(c.disks, c.disks.len()).len()
        + networks_args(c.networks, c.networks.len()).len();
    assert(qemu_args(c, base).subrange(i, i + d.len()) =~= d);
}

/// Whether the launch failed is decided by QEMU's exit status alone, never by
/// what it printed: a successful exit is a start whatever stderr holds; an
/// unsuccessful one is an error that gives the exit code (`-1` without one)
/// and ends with all of stderr.
pub proof fn lemma_launch_judged_by_exit_status(success: bool, code: Option<i32>, stderr: Seq<char>)
    ensures
        launch_failure(success, code, stderr) is None <==> success,
        !success ==> launch_failure(success, code, stderr) == Some(
            "qemu-system-x86_64 exited with "@ + signed_decimal(
                match code {
                    Some(c) => c as int,
                    None => -1,
                },
            ) + ": "@ + stderr,
        ),
        !success ==> ({
            let m = launch_failure(success, code, stderr)->0;
            &&& m.len() >= stderr.len()
            &&& m.skip(m.len() - stderr.len()) == stderr
        }),
{
    if !success {
        let m = launch_failure(success, code, stderr)->0;
        assert(m.skip(m.len() - stderr.len()) =~= stderr);
    }
}

/// The extra args of a configuration end the QEMU command line, unchanged and
/// in order, so they can override anything before them.
pub proof fn lemma_extra_args_last(c: VmConfigView, base: Seq<char>)
    ensures
        qemu_args(c, base).len() >= c.extra_args.len(),
        qemu_args(c, base).skip(qemu_args(c, base).len() - c.extra_args.len()) == c.extra_args,
{
    let a = qemu_args(c, base);
    assert(a.skip(a.len() - c.extra_args.len()) =~= c.extra_args);
}

/// The QEMU command line always asks for the QMP socket of the VM, daemon
/// mode and the PID file, right after the display arguments.
pub proof fn lemma_qmp_daemon_present(c: VmConfigView, base: Seq<char>)
    ensures
        ({
            let a = qemu_args(c, base);
            let i: int = machine_args(c).len() as int + disks_args(c.disks, c.disks.len()).len()
                + networks_args(c.networks, c.networks.len()).len() + display_args(c.display).len() as int;
            &&& a.subrange(i, i + 5) == qmp_daemon_args(c, base)
            &&& a[i + 1] == "unix:"@ + runtime_file_path(base, c.name, "qmp.sock"@) + ",server,nowait"@
            &&& a[i + 2] == "-daemonize"@
            &&& a[i + 4] == runtime_file_path(base, c.name, "qemu.pid"@)
        }),
{
    let a = qemu_args(c, base);
    let i: int = machine_args(c).len() as int + disks_args(c.disks, c.disks.len()).len() + networks_args(
        c.networks,
        c.networks.len(),
    ).len() + display_args(c.display).len() as int;
    assert(a.subrange(i, i + 5) =~= qmp_daemon_args(c, base));
}

/// How many times a missing PID file is read again before giving up: QEMU's
/// daemonised child writes it shortly after the parent exits.
pub const PID_FILE_RETRIES: u8 = 5;

/// The failure, if any, of the `qemu-system-x86_64` launch: none on a
/// successful exit; otherwise the exit code (`-1` when killed by a signal)
/// and what QEMU printed on stderr.
pub open spec fn launch_failure(success: bool, code: Option<i32>, stderr: Seq<char>) -> Option<Seq<char>> {
    if success {
        None
    } else {
        Some(
            "qemu-system-x86_64 exited with "@ + signed_decimal(
                match code {
                    Some(c) => c as int,
                    None => -1,
                },
            ) + ": "@ + stderr,
        )
    }
}

/// Whether a read of the PID file is followed by another one: only after a
/// failed read, and only while fewer than [`PID_FILE_RETRIES`] retries were made.
pub open spec fn pid_read_retries(attempts: nat, read_failed: bool) -> bool {
    read_failed && attempts < PID_FILE_RETRIES
}

/// How many retries a reader that already retried `attempts` times makes
/// when its reads fail or succeed as `failures` says (`true` for a failed
/// read); the reading stops at the first read that is not retried.
pub open spec fn retries_made(attempts: nat, failures: Seq<bool>) -> nat
    decreases failures.len(),
{
    if failures.len() == 0 || !pid_read_retries(attempts, failures[0]) {
        0
    } else {
        1 + retries_made(attempts + 1, failures.drop_first())
    }
}

/// Whatever the reads give, a fresh PID-file reader retries at most
/// [`PID_FILE_RETRIES`] times, so the file is read at most six times.
pub proof fn lemma_pid_reads_bounded(attempts: nat, failures: Seq<bool>)
    requires
        attempts <= PID_FILE_RETRIES,
    ensures
        attempts + retries_made(attempts, failures) <= PID_FILE_RETRIES,
    decreases failures.len(),
{
    if failures.len() > 0 && pid_read_retries(attempts, failures[0]) {
        lemma_pid_reads_bounded(attempts + 1, failures.drop_first());
    }
}

/// What to do after one read of QEMU's PID file.
#[derive(Debug)]
pub enum PidFileStep {
    /// Wait a little and read the file again.
    Retry,
    /// Stop reading: the PID, or why there is none.
    Finished(Result<u32, VmError>),
}

/// Reading QEMU's PID file, which the daemonised child writes shortly after
/// the parent exits: failed reads are retried a bounded number of times.
#[derive(Debug)]
pub struct PidFileReader {
    attempts: u8,
}

impl PidFileReader {
    /// The number of retries made so far.
    pub closed spec fn spec_attempts(&self) -> nat {
        self.attempts as nat
    }

    /// A reader that has not retried yet.
    pub fn new() -> (res: Self)
        ensures
            res.spec_attempts() == 0,
    {
        PidFileReader { attempts: 0 }
    }

    /// Decides what follows one read of the PID file, which gave its text or
    /// failed for the reason given: a failed read is retried while fewer than
    /// [`PID_FILE_RETRIES`] retries were made and otherwise ends in an error;
    /// a text ends the reading with the PID it names or the parse error.
    pub fn step(&mut self, read: Result<String, String>) -> (res: PidFileStep)
        ensures
            pid_read_retries(old(self).spec_attempts(), read is Err) ==> (res is Retry
                && final(self).spec_attempts() == old(self).spec_attempts() + 1),
            !pid_read_retries(old(self).spec_attempts(), read is Err) ==> final(self).spec_attempts()
                == old(self).spec_attempts(),
            match read {
                Ok(text) => match pid_from_text(text@) {
                    Ok(p) => res matches PidFileStep::Finished(Ok(q)) && q == p,
                    Err(m) => res matches PidFileStep::Finished(Err(VmError::Backend(b))) && b@ == m,
                },
                Err(reason) => !pid_read_retries(old(self).spec_attempts(), true) ==> (
                res matches PidFileStep::Finished(Err(VmError::Backend(b))) && b@
                    == "could not read pidfile: "@ + reason@),
            },
    {
        match read {
            Ok(text) => PidFileStep::Finished(QemuBackend::parse_pid(text.as_str())),
            Err(reason) => {
                if self.attempts < PID_FILE_RETRIES {
                    self.attempts = self.attempts + 1;
                    PidFileStep::Retry
                } else {
                    let mut m = "could not read pidfile: ".to_owned();
                    m.append(reason.as_str());
                    PidFileStep::Finished(Err(VmError::Backend(m)))
                }
            },
        }
    }
}

/// The PID a PID file's text names, or why it names none.
pub open spec fn pid_from_text(text: Seq<char>) -> Result<u32, Seq<char>> {
    match parse_u32(trim(text)) {
        Ok(n) => Ok(n as u32),
        Err(e) => Err("invalid PID in pidfile: "@ + int_error_message(e)),
    }
}

/// A snapshot job to hand to QMP: its job id, the snapshot tag, the node
/// holding the VM state (none for a delete) and the block devices involved.
#[derive(Debug, Clone)]
pub struct SnapshotRequest {
    pub job_id: String,
    pub tag: String,
    pub vmstate: Option<String>,
    pub devices: Vec<String>,
}

/// Which snapshot operation a job performs.
#[derive(Debug, Clone, Copy, PartialEq, Eq, Structural)]
pub enum SnapshotOp {
    Save,
    Load,
    Delete,
}

/// The job-id prefix of a snapshot operation.
pub open spec fn snapshot_job_prefix(op: SnapshotOp) -> Seq<char> {
    match op {
        SnapshotOp::Save => "snap-save-"@,
        SnapshotOp::Load => "snap-load-"@,
        SnapshotOp::Delete => "snap-del-"@,
    }
}

/// The state of a QMP job, as `query-jobs` reports it.
#[derive(Debug, Clone, Copy, PartialEq, Eq, Structural)]
pub enum JobStatus {
    Undefined,
    Created,
    Running,
    Paused,
    Ready,
    Standby,
    Waiting,
    Pending,
    Aborting,
    Concluded,
    Null,
}

/// What `query-jobs` reports of one job: its id, state and error message.
#[derive(Debug, Clone)]
pub struct JobReport {
    pub id: String,
    pub status: JobStatus,
    pub error: Option<String>,
}

/// The next step of waiting for a snapshot job.
#[derive(Debug)]
pub enum JobAction {
    /// The job is gone: it finished.
    Done,
    /// The job waits to be finalized (`job-finalize`).
    Finalize,
    /// The job concluded without error and waits to be dismissed (`job-dismiss`).
    Dismiss,
    /// Nothing to do but poll again.
    Wait,
    /// The job failed.
    Fail(VmError),
}

/// `jobs[i]` is the first report about job `id`.
pub open spec fn first_report(jobs: Seq<JobReport>, id: Seq<char>, i: int) -> bool {
    &&& 0 <= i < jobs.len()
    &&& jobs[i].id@ == id
    &&& forall|j: int| 0 <= j < i ==> jobs[j].id@ != id
}

/// The step to take for the first report about the job: finalize a pending
/// job, dismiss a concluded one (or fail with its error), fail an aborting
/// one, and otherwise poll again.
pub open spec fn job_step_ok(job: JobReport, id: Seq<char>, action: JobAction) -> bool {
    match job.status {
        JobStatus::Pending => action is Finalize,
        JobStatus::Concluded => match job.error {
            Some(err) => action matches JobAction::Fail(VmError::Qmp(m)) && m@ == "snapshot job failed: "@ + err@,
            None => action is Dismiss,
        },
        JobStatus::Aborting => action matches JobAction::Fail(VmError::Qmp(m)) && m@ == "job '"@ + id + "' aborted"@,
        _ => action is Wait,
    }
}

impl QemuBackend {
    /// The outcome of the `qemu-system-x86_64` launch.
    pub fn launch_result(success: bool, code: Option<i32>, stderr: &str) -> (res: Result<(), VmError>)
        ensures
            match launch_failure(success, code, stderr@) {
                None => res is Ok,
                Some(m) => res matches Err(VmError::Backend(b)) && b@ == m,
            },
    {
        if success {
            return Ok(());
        }
        let c: i64 = match code {
            Some(c) => c as i64,
            None => -1,
        };
        let mut m = "qemu-system-x86_64 exited with ".to_owned();
        append_signed_decimal(&mut m, c);
        m.append(": ");
        m.append(stderr);
        Err(VmError::Backend(m))
    }

    /// The PID in the text of QEMU's PID file: surrounding whitespace is
    /// ignored, the rest must be a `u32` in decimal.
    pub fn parse_pid(text: &str) -> (res: Result<u32, VmError>)
        ensures
            match pid_from_text(text@) {
                Ok(p) => res == Ok::<u32, VmError>(p),
                Err(m) => res matches Err(VmError::Backend(b)) && b@ == m,
            },
    {
        match parse_trimmed_u32(text) {
            Ok(p) => Ok(p),
            Err(e) => {
                let mut m = "invalid PID in pidfile: ".to_owned();
                m.append(e.message());
                Err(VmError::Backend(m))
            },
        }
    }

    /// The outcome of `kill(pid, SIGKILL)`, which returned `ret`; `os_error`
    /// describes the OS error on failure.
    pub fn kill_result(pid: u32, ret: i32, os_error: &str) -> (res: Result<(), VmError>)
        ensures
            ret == 0 ==> res is Ok,
            ret != 0 ==> (res matches Err(VmError::Backend(m)) && m@ == "kill("@ + decimal(pid as nat)
                + ", SIGKILL) failed: "@ + os_error@),
    {
        if ret == 0 {
            return Ok(());
        }
        let mut m = "kill(".to_owned();
        append_decimal(&mut m, pid as u64);
        m.append(", SIGKILL) failed: ");
        m.append(os_error);
        Err(VmError::Backend(m))
    }

    /// The QMP snapshot job of operation `op` on snapshot `tag`: job id
    /// `snap-save-<tag>`, `snap-load-<tag>` or `snap-del-<tag>`, the VM state
    /// on `drive0` (for save and load) and every disk of the VM.
    pub fn snapshot_request(config: &VmConfig, op: SnapshotOp, tag: &str) -> (res: SnapshotRequest)
        ensures
            res.job_id@ == snapshot_job_prefix(op) + tag@,
            res.tag@ == tag@,
            op == SnapshotOp::Delete ==> res.vmstate is None,
            op != SnapshotOp::Delete ==> (res.vmstate matches Some(v) && v@ == drive_id(0)),
            res.devices.deep_view() == Seq::new(config@.disks.len(), |i: int| drive_id(i as nat)),
    {
        let mut job_id = match op {
            SnapshotOp::Save => "snap-save-".to_owned(),
            SnapshotOp::Load => "snap-load-".to_owned(),
            SnapshotOp::Delete => "snap-del-".to_owned(),
        };
        job_id.append(tag);
        let vmstate = match op {
            SnapshotOp::Delete => None,
            _ => {
                let v = "drive0".to_owned();
                proof {
                    reveal_strlit("drive0");
                    reveal_strlit("drive");
                    reveal_with_fuel(decimal, 1);
                    assert(drive_id(0) =~= "drive0"@);
                }
                Some(v)
            },
        };
        SnapshotRequest { job_id, tag: tag.to_owned(), vmstate, devices: config.drive_ids() }
    }

    /// The next step of waiting for job `job_id`, given what `query-jobs`
    /// reported: done once the job is no longer listed, otherwise the step
    /// for the first report about it.
    pub fn next_job_action(jobs: &Vec<JobReport>, job_id: &str) -> (res: JobAction)
        ensures
            (forall|i: int| 0 <= i < jobs.len() ==> jobs[i].id@ != job_id@) ==> res is Done,
            forall|i: int| #[trigger] first_report(jobs@, job_id@, i) ==> job_step_ok(jobs[i], job_id@, res),
    {
        let wanted = job_id.to_owned();
        let mut i: usize = 0;
        while i < jobs.len()
            invariant
                i <= jobs.len(),
                wanted@ == job_id@,
                forall|j: int| 0 <= j < i ==> jobs[j].id@ != job_id@,
            decreases jobs.len() - i,
        {
            let job = &jobs[i];
            if job.id == wanted {
                assert(first_report(jobs@, job_id@, i as int));
                let action = match job.status {
                    JobStatus::Pending => JobAction::Finalize,
                    JobStatus::Concluded => match &job.error {
                        Some(err) => {
                            let mut m = "snapshot job failed: ".to_owned();
                            m.append(err.as_str());
                            JobAction::Fail(VmError::Qmp(m))
                        },
                        None => JobAction::Dismiss,
                    },
                    JobStatus::Aborting => {
                        let mut m = "job '".to_owned();
                        m.append(job_id);
                        m.append("' aborted");
                        JobAction::Fail(VmError::Qmp(m))
                    },
                    _ => JobAction::Wait,
                };
                return action;
            }
            i = i + 1;
        }
        JobAction::Done
    }
}

} // verus!
