use xenith::text::{decimal_string, join_path, parse_trimmed_u32, IntError};
use xenith::vm::backend::qemu::{
    JobAction, JobReport, JobStatus, PidFileReader, PidFileStep, QemuBackend, SnapshotOp,
};
use xenith::vm::config::{VmConfig, BASE_DIR};
use xenith::vm::disk::{CommandOutcome, DiskFormat, DiskImage};
use xenith::vm::error::Error;
use xenith::mac::MacAddress;
use xenith::vm::config::NetworkInterface;
use xenith::vm::display::DisplayMode;
use xenith::vm::vm::Vm;

fn report(id: &str, status: JobStatus, error: Option<&str>) -> JobReport {
    JobReport { id: id.to_owned(), status, error: error.map(|e| e.to_owned()) }
}

#[test]
fn full_command_line_exact() {
    let cfg = VmConfig::new("win", 2, 3 * 1024 * 1024 * 1024 + 5)
        .with_firmware("/fw/OVMF_CODE.fd")
        .with_disk(DiskImage::new("/img/a.qcow2", DiskFormat::Qcow2, 1))
        .with_disk(DiskImage::new("/img/b.raw", DiskFormat::Raw, 2))
        .with_network(NetworkInterface::new("tap7", MacAddress::new(0, 0x1b, 0x21, 1, 2, 0xab), "e1000"))
        .with_display(DisplayMode::Vnc("0.0.0.0:1".to_owned()))
        .with_extra_args(vec!["-no-kvmclock".to_owned()]);
    let args = QemuBackend::build_args(&cfg, "/state/");
    assert_eq!(
        args,
        vec![
            "-machine", "q35,accel=kvm", "-smp", "2", "-m", "3072",
            "-drive", "if=pflash,format=raw,readonly=on,file=/fw/OVMF_CODE.fd",
            "-drive", "id=drive0,file=/img/a.qcow2,format=qcow2,if=none",
            "-device", "virtio-blk-pci,drive=drive0",
            "-drive", "id=drive1,file=/img/b.raw,format=raw,if=none",
            "-device", "virtio-blk-pci,drive=drive1",
            "-netdev", "tap,id=tap7,ifname=tap7,script=no,downscript=no",
            "-device", "e1000,netdev=tap7,mac=00:1b:21:01:02:ab",
            "-display", "vnc=0.0.0.0:1",
            "-qmp", "unix:/state/win/qmp.sock,server,nowait",
            "-daemonize",
            "-pidfile", "/state/win/qemu.pid",
            "-no-kvmclock",
        ]
    );
}

#[test]
fn path_join_cases() {
    assert_eq!(join_path("/a", "b"), "/a/b");
    assert_eq!(join_path("/a/", "b"), "/a/b");
    assert_eq!(join_path("", "b"), "b");
    assert_eq!(join_path("/a", "/abs"), "/abs");
    assert_eq!(join_path("/a", ""), "/a/");
    let cfg = VmConfig::new("/elsewhere", 1, 1);
    assert_eq!(cfg.runtime_dir(BASE_DIR), "/elsewhere");
    assert_eq!(cfg.qmp_socket(BASE_DIR), "/elsewhere/qmp.sock");
    assert_eq!(VmConfig::new("x", 1, 1).config_file(BASE_DIR), "/xenith/vms/x/config.toml");
    assert_eq!(VmConfig::new("x", 1, 1).pid_file(BASE_DIR), "/xenith/vms/x/qemu.pid");
}

#[test]
fn decimal_rendering() {
    assert_eq!(decimal_string(0), "0");
    assert_eq!(decimal_string(7), "7");
    assert_eq!(decimal_string(10), "10");
    assert_eq!(decimal_string(u64::MAX), "18446744073709551615");
}

#[test]
fn memory_mib_edges() {
    assert_eq!(VmConfig::new("m", 1, 1024 * 1024 - 1).memory_mib(), 0);
    assert_eq!(VmConfig::new("m", 1, 1024 * 1024).memory_mib(), 1);
    assert_eq!(VmConfig::new("m", 1, u64::MAX).memory_mib(), 17592186044415);
}

#[test]
fn pid_text_parsing() {
    assert_eq!(QemuBackend::parse_pid("1234\n").unwrap(), 1234);
    assert_eq!(QemuBackend::parse_pid("  \t42 \r\n").unwrap(), 42);
    assert_eq!(QemuBackend::parse_pid("+7").unwrap(), 7);
    assert_eq!(QemuBackend::parse_pid("4294967295").unwrap(), u32::MAX);
    let msg = |t: &str| QemuBackend::parse_pid(t).unwrap_err().to_string();
    assert_eq!(msg(""), "backend error: invalid PID in pidfile: cannot parse integer from empty string");
    assert_eq!(msg(" \n"), "backend error: invalid PID in pidfile: cannot parse integer from empty string");
    assert_eq!(msg("+"), "backend error: invalid PID in pidfile: invalid digit found in string");
    assert_eq!(msg("-5"), "backend error: invalid PID in pidfile: invalid digit found in string");
    assert_eq!(msg("12a"), "backend error: invalid PID in pidfile: invalid digit found in string");
    assert_eq!(msg("4294967296"), "backend error: invalid PID in pidfile: number too large to fit in target type");
}

#[test]
fn pid_parse_matches_std() {
    for t in ["0", "00012", " 99 ", "+", "-", "", "1 2", "99999999999", "4294967295", "\u{a0}5\u{3000}", "٣", "+-1"] {
        let ours = parse_trimmed_u32(t);
        match t.trim().parse::<u32>() {
            Ok(v) => assert_eq!(ours, Ok(v), "{t:?}"),
            Err(e) => {
                let kind = ours.expect_err(t);
                assert_eq!(kind.message(), e.to_string(), "{t:?}");
            }
        }
    }
    assert_eq!(parse_trimmed_u32(""), Err(IntError::Empty));
}

#[test]
fn pid_read_retries_and_errors() {
    let mut reader = PidFileReader::new();
    for _ in 0..5 {
        assert!(matches!(reader.step(Err("missing".to_owned())), PidFileStep::Retry));
    }
    match reader.step(Err("gone".to_owned())) {
        PidFileStep::Finished(Err(e)) => {
            assert_eq!(e.to_string(), "backend error: could not read pidfile: gone")
        }
        other => panic!("unexpected {other:?}"),
    }
    let mut reader = PidFileReader::new();
    assert!(matches!(reader.step(Err("missing".to_owned())), PidFileStep::Retry));
    match reader.step(Ok("77\n".to_owned())) {
        PidFileStep::Finished(Ok(p)) => assert_eq!(p, 77),
        other => panic!("unexpected {other:?}"),
    }
    match PidFileReader::new().step(Ok("x".to_owned())) {
        PidFileStep::Finished(Err(e)) => assert_eq!(
            e.to_string(),
            "backend error: invalid PID in pidfile: invalid digit found in string"
        ),
        other => panic!("unexpected {other:?}"),
    }
}

#[test]
fn launch_and_kill_results() {
    assert!(QemuBackend::launch_result(true, Some(0), "").is_ok());
    let e = QemuBackend::launch_result(false, Some(1), "boom").unwrap_err();
    assert_eq!(e.to_string(), "backend error: qemu-system-x86_64 exited with 1: boom");
    let e = QemuBackend::launch_result(false, None, "sig").unwrap_err();
    assert_eq!(e.to_string(), "backend error: qemu-system-x86_64 exited with -1: sig");
    assert!(QemuBackend::kill_result(10, 0, "").is_ok());
    let e = QemuBackend::kill_result(10, -1, "No such process (os error 3)").unwrap_err();
    assert_eq!(e.to_string(), "backend error: kill(10, SIGKILL) failed: No such process (os error 3)");
}

#[test]
fn disk_command_outcomes() {
    let d = DiskImage::create_result("/x.qcow2", DiskFormat::Qcow2, 5, CommandOutcome::Exited { success: true, code: Some(0) }).unwrap();
    assert_eq!(d.path(), "/x.qcow2");
    assert_eq!(d.size_bytes(), 5);
    let e = DiskImage::create_result("/x", DiskFormat::Raw, 5, CommandOutcome::Exited { success: false, code: Some(2) }).unwrap_err();
    assert_eq!(e.to_string(), "disk image error: qemu-img create exited with 2");
    let e = DiskImage::create_result("/x", DiskFormat::Raw, 5, CommandOutcome::SpawnFailed("not found".to_owned())).unwrap_err();
    assert_eq!(e.to_string(), "disk image error: qemu-img create failed: not found");
    let e = DiskImage::resize_result(CommandOutcome::Exited { success: false, code: None }).unwrap_err();
    assert_eq!(e.to_string(), "disk image error: qemu-img resize exited with -1");
    assert!(DiskImage::resize_result(CommandOutcome::Exited { success: true, code: Some(0) }).is_ok());
    assert_eq!(DiskImage::create_args("/p.img", DiskFormat::Raw, 1073741824), vec!["create", "-f", "raw", "/p.img", "1073741824"]);
    assert_eq!(DiskImage::new("/q", DiskFormat::Qcow2, 1).resize_args(20), vec!["resize", "/q", "20"]);
}

#[test]
fn snapshot_requests() {
    let cfg = VmConfig::new("s", 1, 1)
        .with_disk(DiskImage::new("/a", DiskFormat::Qcow2, 1))
        .with_disk(DiskImage::new("/b", DiskFormat::Qcow2, 1));
    let r = QemuBackend::snapshot_request(&cfg, SnapshotOp::Save, "v1");
    assert_eq!(r.job_id, "snap-save-v1");
    assert_eq!(r.tag, "v1");
    assert_eq!(r.vmstate.as_deref(), Some("drive0"));
    assert_eq!(r.devices, vec!["drive0", "drive1"]);
    let r = QemuBackend::snapshot_request(&cfg, SnapshotOp::Load, "v1");
    assert_eq!(r.job_id, "snap-load-v1");
    let r = QemuBackend::snapshot_request(&cfg, SnapshotOp::Delete, "v1");
    assert_eq!(r.job_id, "snap-del-v1");
    assert!(r.vmstate.is_none());
}

#[test]
fn job_actions() {
    let none: Vec<JobReport> = vec![report("other", JobStatus::Pending, None)];
    assert!(matches!(QemuBackend::next_job_action(&none, "j"), JobAction::Done));
    let jobs = vec![report("other", JobStatus::Aborting, None), report("j", JobStatus::Pending, None)];
    assert!(matches!(QemuBackend::next_job_action(&jobs, "j"), JobAction::Finalize));
    let jobs = vec![report("j", JobStatus::Concluded, None)];
    assert!(matches!(QemuBackend::next_job_action(&jobs, "j"), JobAction::Dismiss));
    let jobs = vec![report("j", JobStatus::Running, None), report("j", JobStatus::Pending, None)];
    assert!(matches!(QemuBackend::next_job_action(&jobs, "j"), JobAction::Wait));
    let jobs = vec![report("j", JobStatus::Concluded, Some("disk full"))];
    match QemuBackend::next_job_action(&jobs, "j") {
        JobAction::Fail(e) => assert_eq!(e.to_string(), "QMP error: snapshot job failed: disk full"),
        other => panic!("unexpected {other:?}"),
    }
    let jobs = vec![report("j", JobStatus::Aborting, None)];
    match QemuBackend::next_job_action(&jobs, "j") {
        JobAction::Fail(e) => assert_eq!(e.to_string(), "QMP error: job 'j' aborted"),
        other => panic!("unexpected {other:?}"),
    }
}

#[test]
fn failed_backend_keeps_vm_state() {
    let mut vm = Vm::new(VmConfig::new("f", 1, 1), ());
    let e = vm.finish_start(Err(Error::Backend("x".to_owned()))).unwrap_err();
    assert_eq!(e.to_string(), "backend error: x");
    assert!(!vm.is_running());
    vm.finish_start(Ok(9)).unwrap();
    assert!(vm.finish_stop(Err(Error::Qmp("y".to_owned()))).is_err());
    assert_eq!(vm.pid(), Some(9));
    let e = vm.check_can_start().unwrap_err();
    assert_eq!(e.to_string(), "VM 'f' is already running");
    vm.finish_stop(Ok(())).unwrap();
    assert_eq!(vm.ensure_running().unwrap_err().to_string(), "VM 'f' is not running");
    assert!(vm.finish_save_snapshot("t", Err(Error::Qmp("z".to_owned()))).is_err());
}

#[test]
fn pid_file_round_trip() {
    for n in [0u32, 1, 9, 10, 4242, 65536, u32::MAX] {
        assert_eq!(QemuBackend::parse_pid(&format!("{n}\n")).unwrap(), n);
    }
}

#[test]
fn runtime_files_inside_runtime_dir() {
    for base in ["/s", "/s/", "", "rel"] {
        let cfg = VmConfig::new("vm1", 1, 1);
        let dir = cfg.runtime_dir(base);
        assert!(dir.ends_with("vm1"));
        for f in [cfg.qmp_socket(base), cfg.config_file(base), cfg.pid_file(base)] {
            assert!(f.starts_with(&dir), "{f} under {dir}");
        }
    }
}
