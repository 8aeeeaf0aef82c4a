//! Errors of VM management.
use vstd::prelude::*;

verus! {

/// What can go wrong while managing a VM.
#[derive(Debug)]
pub enum Error {
    Io(std::io::Error),
    Qmp(String),
    NotFound { name: String },
    NotRunning { name: String },
    AlreadyRunning { name: String },
    Disk(String),
    Backend(String),
    Config(String),
}

/// Results of VM management.
pub type Result<T> = std::result::Result<T, Error>;

/// The message of an error whose text is fully determined by the library:
/// every variant but `Io`.
pub open spec fn error_message(e: Error) -> Seq<char> {
    match e {
        Error::Io(_) => "I/O error: "@,
        Error::Qmp(m) => "QMP error: "@ + m@,
        Error::NotFound { name } => "VM '"@ + name@ + "' not found"@,
        Error::NotRunning { name } => "VM '"@ + name@ + "' is not running"@,
        Error::AlreadyRunning { name } => "VM '"@ + name@ + "' is already running"@,
        Error::Disk(m) => "disk image error: "@ + m@,
        Error::Backend(m) => "backend error: "@ + m@,
        Error::Config(m) => "config error: "@ + m@,
    }
}

impl Error {
    /// The human-readable message of the error. For an `Io` error it is
    /// `I/O error: ` followed by the message of the underlying I/O error.
    pub fn to_string(&self) -> (res: String)
        ensures
            self is Io ==> res@.len() >= error_message(*self).len() && res@.take(
                error_message(*self).len() as int,
            ) == error_message(*self),
            !(self is Io) ==> res@ == error_message(*self),
    {
        match self {
            Error::Io(e) => {
                let mut s = "I/O error: ".to_owned();
                let detail = io_error_text(e);
                s.append(detail.as_str());
                assert(s@.take(error_message(*self).len() as int) =~= error_message(*self));
                s
            },
            Error::Qmp(m) => {
                let mut s = "QMP error: ".to_owned();
                s.append(m.as_str());
                s
            },
            Error::NotFound { name } => {
                let mut s = "VM '".to_owned();
                s.append(name.as_str());
                s.append("' not found");
                s
            },
            Error::NotRunning { name } => {
                let mut s = "VM '".to_owned();
                s.append(name.as_str());
                s.append("' is not running");
                s
            },
            Error::AlreadyRunning { name } => {
                let mut s = "VM '".to_owned();
                s.append(name.as_str());
                s.append("' is already running");
                s
            },
            Error::Disk(m) => {
                let mut s = "disk image error: ".to_owned();
                s.append(m.as_str());
                s
            },
            Error::Backend(m) => {
                let mut s = "backend error: ".to_owned();
                s.append(m.as_str());
                s
            },
            Error::Config(m) => {
                let mut s = "config error: ".to_owned();
                s.append(m.as_str());
                s
            },
        }
    }
}

impl From<std::io::Error> for Error {
    fn from(e: std::io::Error) -> (res: Self) {
        Error::Io(e)
    }
}

impl vstd::std_specs::convert::FromSpecImpl<std::io::Error> for Error {
    open spec fn obeys_from_spec() -> bool {
        true
    }

    open spec fn from_spec(e: std::io::Error) -> Self {
        Error::Io(e)
    }
}

/// The message of an I/O error (its `Display`). It may name an operating
/// system error in the host's locale, so nothing is stated of it.
#[verifier::external_body]
fn io_error_text(e: &std::io::Error) -> String {
    e.to_string()
}

/// The I/O error type of std, carried through opaque.
#[verifier::external_type_specification]
#[verifier::external_body]
pub struct ExIoError(std::io::Error);

} // verus!
