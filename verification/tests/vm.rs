use std::collections::HashSet;
use std::path::Path;

use xenith::mac::MacAddress;
use xenith::vm::backend::qemu::QemuBackend;
use xenith::vm::config::{NetworkInterface, VmConfig, BASE_DIR};
use xenith::vm::disk::{DiskFormat, DiskImage};
use xenith::vm::display::DisplayMode;
use xenith::vm::error::Error;
use xenith::vm::snapshot::Snapshot;
use xenith::vm::vm::Vm;

type VmError = Error;

fn base_config() -> VmConfig {
    VmConfig::new("argtest", 4, VmConfig::gib_to_bytes(8))
}

fn args_str(config: &VmConfig) -> Vec<String> {
    QemuBackend::build_args(config, BASE_DIR)
}

fn flag_value(args: &[String], flag: &str) -> Option<String> {
    args.windows(2).find(|w| w[0] == flag).map(|w| w[1].clone())
}

fn make_config(name: &str) -> VmConfig {
    VmConfig::new(name, 4, VmConfig::gib_to_bytes(8))
}

fn disk(path: &str, format: DiskFormat, size_bytes: u64) -> DiskImage {
    DiskImage::new(path, format, size_bytes)
}

// QEMU command line

#[test]
fn machine_is_q35_kvm() {
    let v = flag_value(&args_str(&base_config()), "-machine").expect("-machine flag present");
    assert_eq!(v, "q35,accel=kvm");
}

#[test]
fn smp_matches_vcpus() {
    let v = flag_value(&args_str(&base_config()), "-smp").expect("-smp flag present");
    assert_eq!(v, "4");
}

#[test]
fn memory_arg_matches_memory_mib() {
    let cfg = base_config();
    let v = flag_value(&args_str(&cfg), "-m").expect("-m flag present");
    assert_eq!(v, cfg.memory_mib().to_string());
}

#[test]
fn display_none_adds_display_none_and_vga_none() {
    let args = args_str(&base_config());
    assert!(args.windows(2).any(|w| w[0] == "-display" && w[1] == "none"));
    assert!(args.windows(2).any(|w| w[0] == "-vga" && w[1] == "none"));
}

#[test]
fn display_sdl_adds_display_sdl() {
    let cfg = VmConfig::new("argtest", 4, VmConfig::gib_to_bytes(8)).with_display(DisplayMode::Sdl);
    let args = args_str(&cfg);
    assert!(args.windows(2).any(|w| w[0] == "-display" && w[1] == "sdl"));
}

#[test]
fn display_vnc_encodes_address() {
    let cfg = VmConfig::new("v", 2, VmConfig::gib_to_bytes(4))
        .with_display(DisplayMode::Vnc("127.0.0.1:0".to_owned()));
    let args = args_str(&cfg);
    assert!(
        args.windows(2).any(|w| w[0] == "-display" && w[1] == "vnc=127.0.0.1:0"),
        "expected vnc display arg in {args:?}"
    );
}

#[test]
fn qmp_socket_path_appears_in_args() {
    let cfg = base_config();
    let socket = cfg.qmp_socket(BASE_DIR);
    let args = args_str(&cfg);
    assert!(args.iter().any(|a| a.contains(&socket)), "QMP socket path must appear in args");
}

#[test]
fn daemonize_flag_present() {
    assert!(args_str(&base_config()).iter().any(|a| a == "-daemonize"));
}

#[test]
fn pidfile_flag_present() {
    assert!(args_str(&base_config()).iter().any(|a| a == "-pidfile"));
}

#[test]
fn firmware_path_absent_when_none() {
    let args = args_str(&base_config());
    assert!(!args.iter().any(|a| a.contains("pflash")));
}

#[test]
fn firmware_path_present_when_set() {
    let cfg = VmConfig::new("fw", 2, VmConfig::gib_to_bytes(4)).with_firmware("/usr/share/ovmf/OVMF.fd");
    let args = args_str(&cfg);
    assert!(
        args.iter().any(|a| a.contains("pflash")),
        "expected pflash drive in args when firmware is set"
    );
    assert!(args.iter().any(|a| a.contains("OVMF.fd")));
}

#[test]
fn extra_args_are_appended_last() {
    let cfg = base_config().with_extra_args(vec!["--sentinel".to_owned()]);
    let args = args_str(&cfg);
    assert_eq!(args.last().expect("non-empty"), "--sentinel");
}

#[test]
fn network_args_include_tap_name() {
    let mac = MacAddress::new(0x52, 0x54, 0x00, 0x01, 0x02, 0x03);
    let net = NetworkInterface::new("tap0", mac, "e1000");
    let cfg = base_config().with_network(net);
    let args = args_str(&cfg);
    assert!(args.iter().any(|a| a.contains("tap0")), "tap name must appear in network args");
}

#[test]
fn network_args_include_mac_address() {
    let mac = MacAddress::new(0x52, 0x54, 0x00, 0xAA, 0xBB, 0xCC);
    let net = NetworkInterface::new("tap1", mac, "virtio-net-pci");
    let cfg = base_config().with_network(net);
    let args = args_str(&cfg);
    let mac_str = mac.to_string().to_lowercase();
    assert!(
        args.iter().any(|a| a.to_lowercase().contains(&mac_str)),
        "MAC address must appear in network args"
    );
}

#[test]
fn disk_args_include_drive_id() {
    let d = disk("/tmp/disk.qcow2", DiskFormat::Qcow2, 10737418240);
    let cfg = base_config().with_disk(d);
    let args = args_str(&cfg);
    assert!(args.iter().any(|a| a.contains("drive0")), "drive0 id must appear in disk args");
}

#[test]
fn multiple_disks_get_sequential_ids() {
    let d0 = disk("/tmp/d0.qcow2", DiskFormat::Qcow2, 10737418240);
    let d1 = disk("/tmp/d1.qcow2", DiskFormat::Qcow2, 10737418240);
    let cfg = base_config().with_disk(d0).with_disk(d1);
    let args = args_str(&cfg);
    assert!(args.iter().any(|a| a.contains("drive0")));
    assert!(args.iter().any(|a| a.contains("drive1")));
}

#[test]
fn no_disks_no_drive_args() {
    let args = args_str(&base_config());
    assert!(!args.iter().any(|a| a.contains("drive0")));
}

// configuration

#[test]
fn config_gib_to_bytes_converts_correctly() {
    assert_eq!(VmConfig::gib_to_bytes(1), 1_073_741_824);
    assert_eq!(VmConfig::gib_to_bytes(0), 0);
}

#[test]
fn memory_mib_rounds_down() {
    let cfg = VmConfig::new("test", 1, 1_073_741_824);
    assert_eq!(cfg.memory_mib(), 1024);
}

#[test]
fn new_sets_name_vcpus_memory() {
    let cfg = VmConfig::new("my-vm", 4, VmConfig::gib_to_bytes(8));
    assert_eq!(cfg.name(), "my-vm");
    assert_eq!(cfg.vcpus(), 4);
    assert_eq!(cfg.memory_bytes(), VmConfig::gib_to_bytes(8));
}

#[test]
fn new_has_no_disks_or_networks() {
    let cfg = VmConfig::new("v", 2, 1024);
    assert!(cfg.disks().is_empty());
    assert!(cfg.networks().is_empty());
}

#[test]
fn new_has_no_firmware() {
    assert!(VmConfig::new("v", 2, 1024).firmware().is_none());
}

#[test]
fn new_default_display_is_none() {
    assert_eq!(VmConfig::new("v", 2, 1024).display(), &DisplayMode::Headless);
}

#[test]
fn with_extra_args_extends_list() {
    let args = vec!["--foo".to_owned(), "--bar".to_owned()];
    let cfg = VmConfig::new("v", 2, 1024).with_extra_args(args.clone());
    assert_eq!(cfg.extra_args(), args.as_slice());
}

#[test]
fn with_extra_args_chaining_accumulates() {
    let cfg = VmConfig::new("v", 2, 1024)
        .with_extra_args(vec!["--a".to_owned()])
        .with_extra_args(vec!["--b".to_owned()]);
    assert_eq!(cfg.extra_args(), &["--a", "--b"]);
}

#[test]
fn drive_ids_empty_when_no_disks() {
    assert!(VmConfig::new("v", 2, 1024).drive_ids().is_empty());
}

#[test]
fn runtime_dir_contains_vm_name() {
    let cfg = VmConfig::new("unique-vm-name", 2, 1024);
    let dir = cfg.runtime_dir(BASE_DIR);
    assert!(dir.contains("unique-vm-name"));
}

#[test]
fn qmp_socket_ends_with_qmp_sock() {
    let cfg = VmConfig::new("v", 2, 1024);
    assert!(Path::new(&cfg.qmp_socket(BASE_DIR)).ends_with("qmp.sock"));
}

#[test]
fn config_file_ends_with_config_toml() {
    let cfg = VmConfig::new("v", 2, 1024);
    assert!(Path::new(&cfg.config_file(BASE_DIR)).ends_with("config.toml"));
}

#[test]
fn qmp_socket_is_inside_runtime_dir() {
    let cfg = VmConfig::new("v", 2, 1024);
    assert!(Path::new(&cfg.qmp_socket(BASE_DIR)).starts_with(cfg.runtime_dir(BASE_DIR)));
}

// disks

#[test]
fn disk_format_display_qcow2() {
    assert_eq!(DiskFormat::Qcow2.to_string(), "qcow2");
}

#[test]
fn disk_format_display_raw() {
    assert_eq!(DiskFormat::Raw.to_string(), "raw");
}

#[test]
fn disk_gib_to_bytes_converts_correctly() {
    assert_eq!(DiskImage::gib_to_bytes(2), 2_147_483_648);
}

#[test]
fn disk_format_default_is_qcow2() {
    assert_eq!(DiskFormat::default(), DiskFormat::Qcow2);
}

#[test]
fn disk_format_equality() {
    assert_eq!(DiskFormat::Raw, DiskFormat::Raw);
    assert_ne!(DiskFormat::Raw, DiskFormat::Qcow2);
}

#[test]
fn gib_to_bytes_zero() {
    assert_eq!(DiskImage::gib_to_bytes(0), 0);
}

// display

#[test]
fn default_is_none() {
    assert_eq!(DisplayMode::default(), DisplayMode::Headless);
}

#[test]
fn sdl_equals_sdl() {
    assert_eq!(DisplayMode::Sdl, DisplayMode::Sdl);
}

#[test]
fn vnc_equality_is_address_sensitive() {
    let a = DisplayMode::Vnc("127.0.0.1:0".to_owned());
    let b = DisplayMode::Vnc("127.0.0.1:0".to_owned());
    let c = DisplayMode::Vnc("127.0.0.1:1".to_owned());
    assert_eq!(a, b);
    assert_ne!(a, c);
}

#[test]
fn sdl_differs_from_none() {
    assert_ne!(DisplayMode::Sdl, DisplayMode::Headless);
}

#[test]
fn clone_preserves_vnc_address() {
    let vnc = DisplayMode::Vnc("0.0.0.0:5".to_owned());
    assert_eq!(vnc.clone(), vnc);
}

// errors

#[test]
fn not_running_message_includes_name() {
    let e = Error::NotRunning { name: "my-vm".to_owned() };
    assert_eq!(e.to_string(), "VM 'my-vm' is not running");
}

#[test]
fn already_running_message_includes_name() {
    let e = Error::AlreadyRunning { name: "test-vm".to_owned() };
    assert_eq!(e.to_string(), "VM 'test-vm' is already running");
}

#[test]
fn not_found_message_includes_name() {
    let e = Error::NotFound { name: "missing".to_owned() };
    assert_eq!(e.to_string(), "VM 'missing' not found");
}

#[test]
fn qmp_error_formats_message() {
    let e = Error::Qmp("connection refused".to_owned());
    assert_eq!(e.to_string(), "QMP error: connection refused");
}

#[test]
fn disk_error_formats_message() {
    let e = Error::Disk("image not found".to_owned());
    assert_eq!(e.to_string(), "disk image error: image not found");
}

#[test]
fn backend_error_formats_message() {
    let e = Error::Backend("exit code 1".to_owned());
    assert_eq!(e.to_string(), "backend error: exit code 1");
}

#[test]
fn config_error_formats_message() {
    let e = Error::Config("invalid TOML".to_owned());
    assert_eq!(e.to_string(), "config error: invalid TOML");
}

#[test]
fn io_error_wraps_via_from() {
    let io = std::io::Error::new(std::io::ErrorKind::NotFound, "file missing");
    let e = Error::from(io);
    assert!(e.to_string().starts_with("I/O error:"));
    assert_eq!(e.to_string(), "I/O error: file missing");
}

// snapshots

#[test]
fn snapshot_equality() {
    let a = Snapshot::new("v1");
    let b = Snapshot::new("v1");
    let c = Snapshot::new("v2");
    assert_eq!(a, b);
    assert_ne!(a, c);
}

#[test]
fn snapshot_tag_accessor() {
    let s = Snapshot::new("my-snap");
    assert_eq!(s.tag(), "my-snap");
}

#[test]
fn snapshot_into_hash_set() {
    let mut set = HashSet::new();
    set.insert(Snapshot::new("s1"));
    set.insert(Snapshot::new("s2"));
    set.insert(Snapshot::new("s1"));
    assert_eq!(set.len(), 2);
}

// integration

#[test]
fn vm_config_drive_ids_match_disk_count() {
    let d0 = disk("/tmp/d0.qcow2", DiskFormat::Qcow2, 10_737_418_240);
    let d1 = disk("/tmp/d1.raw", DiskFormat::Raw, 5_368_709_120);
    let cfg = make_config("drive-ids").with_disk(d0).with_disk(d1);
    let ids = cfg.drive_ids();
    assert_eq!(ids, vec!["drive0", "drive1"]);
}

#[test]
fn network_interface_accessors_correct() {
    let mac = MacAddress::new(0xDE, 0xAD, 0xBE, 0xEF, 0x00, 0x01);
    let net = NetworkInterface::new("tap99", mac, "virtio-net-pci");
    assert_eq!(net.tap(), "tap99");
    assert_eq!(net.mac(), mac);
    assert_eq!(net.model(), "virtio-net-pci");
}

#[test]
fn network_interface_equality() {
    let mac = MacAddress::new(0x52, 0x54, 0x00, 0x00, 0x00, 0x01);
    let a = NetworkInterface::new("tap0", mac, "e1000");
    let b = NetworkInterface::new("tap0", mac, "e1000");
    let c = NetworkInterface::new("tap1", mac, "e1000");
    assert_eq!(a, b);
    assert_ne!(a, c);
}

#[test]
fn disk_image_accessors_correct() {
    let d = disk("/srv/vms/boot.qcow2", DiskFormat::Qcow2, 21_474_836_480);
    assert_eq!(d.path(), "/srv/vms/boot.qcow2");
    assert_eq!(d.format(), &DiskFormat::Qcow2);
    assert_eq!(d.size_bytes(), 21_474_836_480);
}

#[test]
fn gib_conversion_consistent_between_disk_and_config() {
    assert_eq!(
        DiskImage::gib_to_bytes(10),
        VmConfig::gib_to_bytes(10),
        "both helpers must produce the same byte count"
    );
}

#[test]
fn vm_config_runtime_paths_are_nested_under_base_dir() {
    let base = "/tmp/xenith-test";
    let cfg = make_config("path-test");
    assert!(Path::new(&cfg.runtime_dir(base)).starts_with(base));
    assert!(Path::new(&cfg.qmp_socket(base)).starts_with(base));
    assert!(Path::new(&cfg.config_file(base)).starts_with(base));
}

// VM running state, driven as a program drives it around the backend.

#[derive(Debug, Clone, Default)]
struct MockBackend;

fn make_vm() -> Vm<MockBackend> {
    Vm::new(VmConfig::new("test-vm", 2, 2 * 1024 * 1024 * 1024), MockBackend)
}

fn start(vm: &mut Vm<MockBackend>) -> Result<(), VmError> {
    vm.check_can_start()?;
    vm.finish_start(Ok(42))
}

fn stop(vm: &mut Vm<MockBackend>) -> Result<(), VmError> {
    vm.ensure_running()?;
    vm.finish_stop(Ok(()))
}

fn save_snapshot(vm: &Vm<MockBackend>, tag: &str) -> Result<Snapshot, VmError> {
    vm.ensure_running()?;
    vm.finish_save_snapshot(tag, Ok(()))
}

#[test]
fn initial_state_not_running() {
    assert!(!make_vm().is_running());
}

#[test]
fn initial_pid_is_none() {
    assert!(make_vm().pid().is_none());
}

#[test]
fn config_accessor_returns_correct_name() {
    assert_eq!(make_vm().config().name(), "test-vm");
}

#[test]
fn start_makes_vm_running() {
    let mut vm = make_vm();
    start(&mut vm).expect("start failed");
    assert!(vm.is_running());
}

#[test]
fn start_sets_pid_from_backend() {
    let mut vm = make_vm();
    start(&mut vm).expect("start failed");
    assert_eq!(vm.pid(), Some(42));
}

#[test]
fn stop_clears_running_state() {
    let mut vm = make_vm();
    start(&mut vm).expect("start");
    stop(&mut vm).expect("stop");
    assert!(!vm.is_running());
}

#[test]
fn kill_clears_running_state() {
    let mut vm = make_vm();
    start(&mut vm).expect("start");
    vm.ensure_running().expect("running");
    vm.finish_stop(Ok(())).expect("kill");
    assert!(!vm.is_running());
}

#[test]
fn start_twice_returns_already_running() {
    let mut vm = make_vm();
    start(&mut vm).expect("first start");
    let err = start(&mut vm).expect_err("second start must fail");
    assert!(matches!(err, VmError::AlreadyRunning { .. }));
}

#[test]
fn stop_not_running_returns_error() {
    let err = stop(&mut make_vm()).expect_err("stop must fail");
    assert!(matches!(err, VmError::NotRunning { .. }));
}

#[test]
fn pause_not_running_returns_error() {
    let err = make_vm().ensure_running().expect_err("pause must fail");
    assert!(matches!(err, VmError::NotRunning { .. }));
}

#[test]
fn save_snapshot_not_running_returns_error() {
    let err = save_snapshot(&make_vm(), "v1").expect_err("must fail");
    assert!(matches!(err, VmError::NotRunning { .. }));
}

#[test]
fn save_snapshot_returns_snapshot_with_correct_tag() {
    let mut vm = make_vm();
    start(&mut vm).expect("start");
    let snap = save_snapshot(&vm, "release-1.0").expect("snapshot");
    assert_eq!(snap.tag(), "release-1.0");
}

#[test]
fn stop_after_kill_returns_not_running() {
    let mut vm = make_vm();
    start(&mut vm).expect("start");
    vm.finish_stop(Ok(())).expect("kill");
    let err = stop(&mut vm).expect_err("stop after kill must fail");
    assert!(matches!(err, VmError::NotRunning { .. }));
}

#[test]
fn kill_not_running_returns_error() {
    let mut vm = make_vm();
    let err = vm
        .ensure_running()
        .and_then(|_| vm.finish_stop(Ok(())))
        .expect_err("kill must fail");
    assert!(matches!(err, VmError::NotRunning { .. }));
}

#[test]
fn resume_not_running_returns_error() {
    let err = make_vm().ensure_running().expect_err("resume must fail");
    assert!(matches!(err, VmError::NotRunning { .. }));
}

#[test]
fn restore_snapshot_not_running_returns_error() {
    let err = make_vm().ensure_running().expect_err("must fail");
    assert!(matches!(err, VmError::NotRunning { .. }));
}

#[test]
fn delete_snapshot_not_running_returns_error() {
    let err = make_vm().ensure_running().expect_err("must fail");
    assert!(matches!(err, VmError::NotRunning { .. }));
}
