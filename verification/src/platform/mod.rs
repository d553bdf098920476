//! The platform device providers: how each operating system names,
//! describes, opens and releases removable devices.
//!
//! Every provider offers the same operations; this module selects among
//! them by [`Platform`] for the operations whose decisions need nothing
//! but the device path.

pub mod linux;
pub mod macos;
pub mod windows;

use vstd::prelude::*;
use crate::error::{ErrorKind, PlatformError};

verus! {

/// The operating-system families with a provider, and the rest.
#[derive(Debug, Clone, Copy, PartialEq, Eq, Structural)]
pub enum Platform {
    Linux,
    MacOs,
    Windows,
    /// A system without a provider: every operation is refused.
    Other,
}

/// What a device is opened for.
#[derive(Debug, Clone, Copy, PartialEq, Eq, Structural)]
pub enum Access {
    Read,
    Write,
}

/// Text of the refusal of a path that is not a device path of the
/// platform.
pub open spec fn invalid_path_text() -> Seq<char> {
    "Invalid device path"@
}

/// Text of the refusal on a system without a provider.
pub open spec fn unsupported_text() -> Seq<char> {
    "Unsupported platform"@
}

/// The path to open for raw access to a device, or the kind and detail of
/// the refusal: each platform admits only paths of its own device syntax.
pub open spec fn target_of(platform: Platform, path: Seq<char>) -> Result<
    Seq<char>,
    (ErrorKind, Seq<char>),
> {
    match platform {
        Platform::Linux => if linux::is_device_node(path) {
            Ok(path)
        } else {
            Err((ErrorKind::Permission, invalid_path_text()))
        },
        Platform::MacOs => match macos::raw_node_of(path) {
            Some(raw) => Ok(raw),
            None => Err((ErrorKind::Permission, invalid_path_text())),
        },
        Platform::Windows => if windows::drive_number_of(path) is Some {
            Ok(path)
        } else {
            Err((ErrorKind::Parse, invalid_path_text()))
        },
        Platform::Other => Err((ErrorKind::Command, unsupported_text())),
    }
}

/// The path to open for raw access to the device at `device_path`, for
/// reading as for writing. A path that is not a device path of the
/// platform is refused before anything is opened.
pub fn device_target(platform: Platform, device_path: &str) -> (r: Result<String, PlatformError>)
    ensures
        match r {
            Ok(target) => target_of(platform, device_path@) == Ok::<
                Seq<char>,
                (ErrorKind, Seq<char>),
            >(target@),
            Err(e) => target_of(platform, device_path@) == Err::<
                Seq<char>,
                (ErrorKind, Seq<char>),
            >((e.kind(), e.detail())),
        },
{
    match platform {
        Platform::Linux => linux::raw_device_path(device_path),
        Platform::MacOs => macos::raw_device_path(device_path),
        Platform::Windows => windows::raw_device_path(device_path),
        Platform::Other => Err(PlatformError::Command(String::from_str("Unsupported platform"))),
    }
}

/// What the user is told when the system denies access to a device: how
/// to obtain the privileges that the platform asks for.
pub open spec fn denied_text(platform: Platform, access: Access, target: Seq<char>) -> Seq<char> {
    match (platform, access) {
        (Platform::Linux, Access::Write) => "Permission denied. Run with elevated privileges to write to "@
            + target,
        (Platform::Linux, Access::Read) => "Permission denied. Run with elevated privileges to read from "@
            + target,
        (Platform::MacOs, Access::Write) => "Permission denied. Run with sudo to write to "@
            + target,
        (Platform::MacOs, Access::Read) => "Permission denied. Run with sudo to read from "@
            + target,
        (Platform::Windows, Access::Write) => "Permission denied. Run as Administrator to write to disk"@,
        (Platform::Windows, Access::Read) => "Permission denied. Run as Administrator to read from disk"@,
        (Platform::Other, _) => "Permission denied. Elevated privileges are required for "@
            + target,
    }
}

/// The failure for a device that could not be opened. A denial by the
/// system becomes a permission failure that says how to proceed; every
/// other cause stays an input/output failure with the system's own text.
pub fn open_failure(
    platform: Platform,
    access: Access,
    target: &str,
    permission_denied: bool,
    io_text: String,
) -> (e: PlatformError)
    ensures
        permission_denied ==> e.says(
            ErrorKind::Permission,
            denied_text(platform, access, target@),
        ),
        !permission_denied ==> e.says(ErrorKind::Io, io_text@),
{
    if !permission_denied {
        return PlatformError::Io(io_text);
    }
    let text = match platform {
        Platform::Linux => match access {
            Access::Write => String::from_str(
                "Permission denied. Run with elevated privileges to write to ",
            ).concat(target),
            Access::Read => String::from_str(
                "Permission denied. Run with elevated privileges to read from ",
            ).concat(target),
        },
        Platform::MacOs => match access {
            Access::Write => String::from_str(
                "Permission denied. Run with sudo to write to ",
            ).concat(target),
            Access::Read => String::from_str(
                "Permission denied. Run with sudo to read from ",
            ).concat(target),
        },
        Platform::Windows => match access {
            Access::Write => String::from_str(
                "Permission denied. Run as Administrator to write to disk",
            ),
            Access::Read => String::from_str(
                "Permission denied. Run as Administrator to read from disk",
            ),
        },
        Platform::Other => String::from_str(
            "Permission denied. Elevated privileges are required for ",
        ).concat(target),
    };
    PlatformError::Permission(text)
}

/// The failure for an operation on a system without a provider.
pub fn unsupported() -> (e: PlatformError)
    ensures
        e.says(ErrorKind::Command, unsupported_text()),
{
    PlatformError::Command(String::from_str("Unsupported platform"))
}

/// The result of an eject command, given whether it ended well and what
/// it wrote to its error stream.
pub fn eject_result(succeeded: bool, stderr: &str) -> (r: Result<(), PlatformError>)
    ensures
        match r {
            Ok(()) => succeeded,
            Err(e) => !succeeded && e.says(
                ErrorKind::Command,
                "Failed to eject device: "@ + stderr@,
            ),
        },
{
    if succeeded {
        Ok(())
    } else {
        Err(PlatformError::Command(String::from_str("Failed to eject device: ").concat(stderr)))
    }
}

} // verus!
