//! Disk images attached to a VM, and the `qemu-img` invocations that create
//! and resize them.
use vstd::prelude::*;

use crate::text::{append_decimal, append_signed_decimal, decimal, signed_decimal};
use crate::vm::error::Error as VmError;

verus! {

/// Image format understood by `qemu-img`.
#[derive(Debug, Clone, Copy, PartialEq, Eq, Structural)]
pub enum DiskFormat {
    Qcow2,
    Raw,
}

impl Default for DiskFormat {
    /// `qcow2`.
    fn default() -> (res: Self)
        ensures
            res == DiskFormat::Qcow2,
    {
        DiskFormat::Qcow2
    }
}

/// The name `qemu-img` knows a format by.
pub open spec fn format_name(f: DiskFormat) -> Seq<char> {
    match f {
        DiskFormat::Qcow2 => "qcow2"@,
        DiskFormat::Raw => "raw"@,
    }
}

impl DiskFormat {
    /// The name `qemu-img` knows the format by: `qcow2` or `raw`.
    pub fn to_string(&self) -> (res: String)
        ensures
            res@ == format_name(*self),
    {
        match self {
            DiskFormat::Qcow2 => "qcow2".to_owned(),
            DiskFormat::Raw => "raw".to_owned(),
        }
    }
}

/// A disk image on the host that will be attached to a VM.
#[derive(Debug, Clone)]
pub struct DiskImage {
    path: String,
    format: DiskFormat,
    /// Capacity in bytes.
    size_bytes: u64,
}

/// What a disk image is: where it lies, its format and its capacity.
pub ghost struct DiskImageView {
    pub path: Seq<char>,
    pub format: DiskFormat,
    pub size_bytes: u64,
}

impl View for DiskImage {
    type V = DiskImageView;

    closed spec fn view(&self) -> DiskImageView {
        DiskImageView { path: self.path@, format: self.format, size_bytes: self.size_bytes }
    }
}

/// The number of bytes in one GiB.
pub const GIB: u64 = 1073741824;

/// `gib` GiB in bytes.
pub open spec fn gib_bytes(gib: nat) -> nat {
    gib * (GIB as nat)
}

/// How a `qemu-img` run ended, as far as the library's decisions go.
#[derive(Debug, Clone)]
pub enum CommandOutcome {
    /// The program could not be started; the text describes why.
    SpawnFailed(String),
    /// The program ran and exited with this status.
    Exited {
        success: bool,
        /// The exit code, if the process exited normally.
        code: Option<i32>,
    },
}

/// `qemu-img create -f <format> <path> <size>`.
pub open spec fn create_command(path: Seq<char>, format: DiskFormat, size_bytes: u64) -> Seq<
    Seq<char>,
> {
    seq!["create"@, "-f"@, format_name(format), path, decimal(size_bytes as nat)]
}

/// `qemu-img resize <path> <size>`.
pub open spec fn resize_command(path: Seq<char>, size_bytes: u64) -> Seq<Seq<char>> {
    seq!["resize"@, path, decimal(size_bytes as nat)]
}

/// The error, if any, of a `qemu-img <verb>` run: none on a successful exit;
/// otherwise the spawn failure or the exit code (`-1` when the process was
/// killed by a signal).
pub open spec fn command_failure(verb: Seq<char>, outcome: CommandOutcome) -> Option<Seq<char>> {
    match outcome {
        CommandOutcome::SpawnFailed(e) => Some("qemu-img "@ + verb + " failed: "@ + e@),
        CommandOutcome::Exited { success, code } => if success {
            None
        } else {
            Some(
                "qemu-img "@ + verb + " exited with "@ + signed_decimal(
                    match code {
                        Some(c) => c as int,
                        None => -1,
                    },
                ),
            )
        },
    }
}

/// The `qemu-img` commands hand over exactly what was asked for: `create -f`
/// names the requested format (`qcow2` or `raw`, so the two formats never give
/// the same command), then the path and the size in decimal bytes; `resize`
/// names the image's path and the new size in decimal bytes.
pub proof fn lemma_qemu_img_commands(path: Seq<char>, format: DiskFormat, size: u64, new_size: u64)
    ensures
        create_command(path, format, size).len() == 5,
        create_command(path, format, size)[0] == "create"@,
        create_command(path, format, size)[1] == "-f"@,
        format == DiskFormat::Qcow2 ==> create_command(path, format, size)[2] == "qcow2"@,
        format == DiskFormat::Raw ==> create_command(path, format, size)[2] == "raw"@,
        create_command(path, format, size)[3] == path,
        create_command(path, format, size)[4] == decimal(size as nat),
        create_command(path, DiskFormat::Qcow2, size) != create_command(path, DiskFormat::Raw, size),
        resize_command(path, new_size) == seq!["resize"@, path, decimal(new_size as nat)],
{
    reveal_strlit("qcow2");
    reveal_strlit("raw");
    assert(create_command(path, DiskFormat::Qcow2, size)[2].len() != create_command(
        path,
        DiskFormat::Raw,
        size,
    )[2].len());
}

/// Turns a `qemu-img <verb>` outcome into the library's result.
fn command_result(verb: &str, outcome: CommandOutcome) -> (res: Result<(), VmError>)
    ensures
        match command_failure(verb@, outcome) {
            None => res is Ok,
            Some(m) => res matches Err(VmError::Disk(d)) && d@ == m,
        },
{
    match outcome {
        CommandOutcome::SpawnFailed(e) => {
            let mut m = "qemu-img ".to_owned();
            m.append(verb);
            m.append(" failed: ");
            m.append(e.as_str());
            Err(VmError::Disk(m))
        },
        CommandOutcome::Exited { success, code } => {
            if success {
                Ok(())
            } else {
                let c: i64 = match code {
                    Some(c) => c as i64,
                    None => -1,
                };
                let mut m = "qemu-img ".to_owned();
                m.append(verb);
                m.append(" exited with ");
                append_signed_decimal(&mut m, c);
                Err(VmError::Disk(m))
            }
        },
    }
}

impl DiskImage {
    /// A disk image at `path` with the given format and capacity.
    pub fn new(path: &str, format: DiskFormat, size_bytes: u64) -> (res: Self)
        ensures
            res@ == (DiskImageView { path: path@, format, size_bytes }),
    {
        DiskImage { path: path.to_owned(), format, size_bytes }
    }

    /// Path to the image file on the host.
    pub fn path(&self) -> (res: &str)
        ensures
            res@ == self@.path,
    {
        self.path.as_str()
    }

    /// Disk image format.
    pub fn format(&self) -> (res: &DiskFormat)
        ensures
            *res == self@.format,
    {
        &self.format
    }

    /// Capacity in bytes.
    pub fn size_bytes(&self) -> (res: u64)
        ensures
            res == self@.size_bytes,
    {
        self.size_bytes
    }

    /// Convert a GiB count to bytes.
    pub fn gib_to_bytes(gib: u64) -> (res: u64)
        requires
            gib_bytes(gib as nat) <= u64::MAX,
        ensures
            res == gib_bytes(gib as nat),
    {
        gib * GIB
    }

    /// The `qemu-img` arguments that create an image at `path`.
    pub fn create_args(path: &str, format: DiskFormat, size_bytes: u64) -> (res: Vec<String>)
        ensures
            res.deep_view() == create_command(path@, format, size_bytes),
    {
        let mut size = String::new();
        append_decimal(&mut size, size_bytes);
        let mut args: Vec<String> = Vec::new();
        args.push("create".to_owned());
        args.push("-f".to_owned());
        args.push(format.to_string());
        args.push(path.to_owned());
        args.push(size);
        assert(args.deep_view() =~= create_command(path@, format, size_bytes));
        args
    }

    /// The image that `qemu-img create` made, or the error it ended with.
    pub fn create_result(path: &str, format: DiskFormat, size_bytes: u64, outcome: CommandOutcome) -> (res: Result<Self, VmError>)
        ensures
            match command_failure("create"@, outcome) {
                None => res matches Ok(d) && d@ == (DiskImageView { path: path@, format, size_bytes }),
                Some(m) => res matches Err(VmError::Disk(d)) && d@ == m,
            },
    {
        match command_result("create", outcome) {
            Ok(()) => Ok(DiskImage::new(path, format, size_bytes)),
            Err(e) => Err(e),
        }
    }

    /// The `qemu-img` arguments that resize this image to `new_size_bytes`.
    pub fn resize_args(&self, new_size_bytes: u64) -> (res: Vec<String>)
        ensures
            res.deep_view() == resize_command(self@.path, new_size_bytes),
    {
        let mut size = String::new();
        append_decimal(&mut size, new_size_bytes);
        let mut args: Vec<String> = Vec::new();
        args.push("resize".to_owned());
        args.push(self.path.clone());
        args.push(size);
        assert(args.deep_view() =~= resize_command(self@.path, new_size_bytes));
        args
    }

    /// Whether `qemu-img resize` succeeded, or the error it ended with.
    pub fn resize_result(outcome: CommandOutcome) -> (res: Result<(), VmError>)
        ensures
            match command_failure("resize"@, outcome) {
                None => res is Ok,
                Some(m) => res matches Err(VmError::Disk(d)) && d@ == m,
            },
    {
        command_result("resize", outcome)
    }
}

} // verus!
