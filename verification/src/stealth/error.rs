//! Errors of the stealth layer.
use vstd::prelude::*;

verus! {

/// What can go wrong while configuring the stealth layer.
#[derive(Debug)]
pub enum Error {
    ProfileGeneration { reason: String },
    Cpuid { reason: String },
    Smbios { reason: String },
    Acpi { reason: String },
}

/// Results of the stealth layer.
pub type Result<T> = std::result::Result<T, Error>;

impl Error {
    /// The human-readable message of the error.
    pub open spec fn message(&self) -> Seq<char> {
        match self {
            Error::ProfileGeneration { reason } => "profile generation failed: "@ + reason@,
            Error::Cpuid { reason } => "CPUID configuration error: "@ + reason@,
            Error::Smbios { reason } => "SMBIOS configuration error: "@ + reason@,
            Error::Acpi { reason } => "ACPI configuration error: "@ + reason@,
        }
    }

    /// The human-readable message of the error.
    pub fn to_string(&self) -> (res: String)
        ensures
            res@ == self.message(),
    {
        let (prefix, reason) = match self {
            Error::ProfileGeneration { reason } => ("profile generation failed: ", reason),
            Error::Cpuid { reason } => ("CPUID configuration error: ", reason),
            Error::Smbios { reason } => ("SMBIOS configuration error: ", reason),
            Error::Acpi { reason } => ("ACPI configuration error: ", reason),
        };
        let mut s = prefix.to_owned();
        s.append(reason.as_str());
        s
    }
}

} // verus!
