//! Failures reported by the platform device providers.

use vstd::prelude::*;

verus! {

/// What went wrong while talking to the operating system about a device.
/// Each variant carries the detail text shown after the fixed heading.
#[derive(Debug, Clone, PartialEq, Eq)]
pub enum PlatformError {
    /// A read or write on a file or device failed.
    Io(String),
    /// A system utility exited with a failure or could not be used.
    Command(String),
    /// Output of a system utility, or a device path, could not be understood.
    Parse(String),
    /// The operation needs elevated privileges, or the path is not one this
    /// platform allows to be opened as a device.
    Permission(String),
    /// The requested device is not among the removable devices.
    DeviceNotFound(String),
}

/// The kinds of failure.
#[derive(Debug, Clone, Copy, PartialEq, Eq, Structural)]
pub enum ErrorKind {
    Io,
    Command,
    Parse,
    Permission,
    DeviceNotFound,
}

impl PlatformError {
    /// The kind of the failure.
    pub open spec fn kind(self) -> ErrorKind {
        match self {
            PlatformError::Io(_) => ErrorKind::Io,
            PlatformError::Command(_) => ErrorKind::Command,
            PlatformError::Parse(_) => ErrorKind::Parse,
            PlatformError::Permission(_) => ErrorKind::Permission,
            PlatformError::DeviceNotFound(_) => ErrorKind::DeviceNotFound,
        }
    }

    /// The failure is of the given kind and carries the given detail.
    pub open spec fn says(self, kind: ErrorKind, detail: Seq<char>) -> bool {
        self.kind() == kind && self.detail() == detail
    }

    /// The fixed heading of each kind of failure.
    pub open spec fn heading(self) -> Seq<char> {
        match self {
            PlatformError::Io(_) => "IO error: "@,
            PlatformError::Command(_) => "Command failed: "@,
            PlatformError::Parse(_) => "Parse error: "@,
            PlatformError::Permission(_) => "Permission denied: "@,
            PlatformError::DeviceNotFound(_) => "Device not found: "@,
        }
    }

    /// The detail text carried by the failure.
    pub open spec fn detail(self) -> Seq<char> {
        match self {
            PlatformError::Io(m) => m@,
            PlatformError::Command(m) => m@,
            PlatformError::Parse(m) => m@,
            PlatformError::Permission(m) => m@,
            PlatformError::DeviceNotFound(m) => m@,
        }
    }

    /// The full message: heading followed by the detail.
    pub open spec fn message_text(self) -> Seq<char> {
        self.heading() + self.detail()
    }

    /// The message shown to the user for this failure.
    pub fn message(&self) -> (s: String)
        ensures
            s@ == self.message_text(),
    {
        match self {
            PlatformError::Io(m) => String::from_str("IO error: ").concat(m.as_str()),
            PlatformError::Command(m) => String::from_str("Command failed: ").concat(m.as_str()),
            PlatformError::Parse(m) => String::from_str("Parse error: ").concat(m.as_str()),
            PlatformError::Permission(m) => String::from_str("Permission denied: ").concat(
                m.as_str(),
            ),
            PlatformError::DeviceNotFound(m) => String::from_str("Device not found: ").concat(
                m.as_str(),
            ),
        }
    }
}

} // verus!
