use flasher::error::PlatformError;
use flasher::platform::{
    device_target, eject_result, open_failure, unsupported, Access, Platform,
};

#[test]
fn each_platform_admits_its_own_paths() {
    assert_eq!(device_target(Platform::Linux, "/dev/sdb"), Ok("/dev/sdb".to_string()));
    assert_eq!(device_target(Platform::MacOs, "/dev/disk2"), Ok("/dev/rdisk2".to_string()));
    assert_eq!(device_target(Platform::MacOs, "/dev/rdisk2"), Ok("/dev/rdisk2".to_string()));
    assert_eq!(
        device_target(Platform::Windows, r"\\.\PhysicalDrive1"),
        Ok(r"\\.\PhysicalDrive1".to_string())
    );
}

#[test]
fn foreign_paths_are_refused() {
    assert_eq!(
        device_target(Platform::Linux, r"\\.\PhysicalDrive1"),
        Err(PlatformError::Permission("Invalid device path".to_string()))
    );
    assert_eq!(
        device_target(Platform::Linux, "/home/user/disk.img"),
        Err(PlatformError::Permission("Invalid device path".to_string()))
    );
    assert_eq!(
        device_target(Platform::MacOs, "/dev/sdb"),
        Err(PlatformError::Permission("Invalid device path".to_string()))
    );
    assert_eq!(
        device_target(Platform::Windows, "/dev/sdb"),
        Err(PlatformError::Parse("Invalid device path".to_string()))
    );
    assert_eq!(
        device_target(Platform::Other, "/dev/sdb"),
        Err(PlatformError::Command("Unsupported platform".to_string()))
    );
    assert_eq!(unsupported(), PlatformError::Command("Unsupported platform".to_string()));
}

#[test]
fn a_denial_says_how_to_proceed() {
    let denied = |platform, access, target: &str| {
        open_failure(platform, access, target, true, "Permission denied (os error 13)".to_string())
    };
    assert_eq!(
        denied(Platform::Linux, Access::Write, "/dev/sdb"),
        PlatformError::Permission(
            "Permission denied. Run with elevated privileges to write to /dev/sdb".to_string()
        )
    );
    assert_eq!(
        denied(Platform::MacOs, Access::Write, "/dev/rdisk2"),
        PlatformError::Permission(
            "Permission denied. Run with sudo to write to /dev/rdisk2".to_string()
        )
    );
    assert_eq!(
        denied(Platform::Windows, Access::Write, r"\\.\PhysicalDrive1"),
        PlatformError::Permission(
            "Permission denied. Run as Administrator to write to disk".to_string()
        )
    );
    assert_eq!(
        denied(Platform::Linux, Access::Read, "/dev/sdb"),
        PlatformError::Permission(
            "Permission denied. Run with elevated privileges to read from /dev/sdb".to_string()
        )
    );
    assert_eq!(
        denied(Platform::MacOs, Access::Read, "/dev/rdisk2"),
        PlatformError::Permission(
            "Permission denied. Run with sudo to read from /dev/rdisk2".to_string()
        )
    );
    assert_eq!(
        denied(Platform::Windows, Access::Read, r"\\.\PhysicalDrive1"),
        PlatformError::Permission(
            "Permission denied. Run as Administrator to read from disk".to_string()
        )
    );
    assert_eq!(
        denied(Platform::Other, Access::Read, "x"),
        PlatformError::Permission(
            "Permission denied. Elevated privileges are required for x".to_string()
        )
    );
    assert_eq!(
        denied(Platform::Linux, Access::Write, "/dev/sdb").message(),
        "Permission denied: Permission denied. Run with elevated privileges to write to /dev/sdb"
    );
}

#[test]
fn other_failures_stay_input_output_failures() {
    for platform in [Platform::Linux, Platform::MacOs, Platform::Windows, Platform::Other] {
        for access in [Access::Read, Access::Write] {
            assert_eq!(
                open_failure(platform, access, "/dev/sdb", false, "No medium found".to_string()),
                PlatformError::Io("No medium found".to_string())
            );
        }
    }
}

#[test]
fn eject_results() {
    assert_eq!(eject_result(true, "noise"), Ok(()));
    assert_eq!(
        eject_result(false, "no such disk"),
        Err(PlatformError::Command("Failed to eject device: no such disk".to_string()))
    );
}
