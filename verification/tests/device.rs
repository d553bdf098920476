use flasher::device::{
    list_devices, require_removable_device, resolve_device, BlockDevice, FileInfo,
};
use flasher::error::PlatformError;

fn device(path: &str, name: &str, size: u64) -> BlockDevice {
    BlockDevice::new(path.to_string(), name.to_string(), size, true, vec!["/mnt/a".to_string()])
}

#[test]
fn new_device_renders_its_size() {
    let d = BlockDevice::new(
        "/dev/sdb".to_string(),
        "Kingston DataTraveler".to_string(),
        15_728_640,
        true,
        vec!["/media/usb".to_string(), "/media/usb2".to_string()],
    );
    assert_eq!(
        d,
        BlockDevice {
            path: "/dev/sdb".to_string(),
            name: "Kingston DataTraveler".to_string(),
            size: 15_728_640,
            size_human: "15.0 MB".to_string(),
            removable: true,
            mount_points: vec!["/media/usb".to_string(), "/media/usb2".to_string()],
        }
    );
    let unknown = BlockDevice::new("x".to_string(), "y".to_string(), 0, false, vec![]);
    assert_eq!(unknown.size_human, "0 B");
    assert!(!unknown.removable);
}

#[test]
fn the_first_device_with_the_path_is_picked() {
    let devices = vec![
        device("/dev/sda", "first", 1),
        device("/dev/sdb", "second", 2),
        device("/dev/sdb", "third", 3),
    ];
    assert_eq!(
        require_removable_device(devices.clone(), "/dev/sdb"),
        Ok(device("/dev/sdb", "second", 2))
    );
    assert_eq!(
        require_removable_device(devices.clone(), "/dev/sda"),
        Ok(device("/dev/sda", "first", 1))
    );
}

#[test]
fn a_path_that_is_not_listed_is_refused() {
    let devices = vec![device("/dev/sda", "first", 1)];
    assert_eq!(
        require_removable_device(devices.clone(), "/dev/sdb"),
        Err("Device not found or not removable: /dev/sdb".to_string())
    );
    assert_eq!(
        require_removable_device(devices.clone(), "/dev/sd"),
        Err("Device not found or not removable: /dev/sd".to_string())
    );
    assert_eq!(
        require_removable_device(devices, "/dev/sdaa"),
        Err("Device not found or not removable: /dev/sdaa".to_string())
    );
    assert_eq!(
        require_removable_device(vec![], ""),
        Err("Device not found or not removable: ".to_string())
    );
}

#[test]
fn resolving_passes_on_the_failure_of_the_enumeration() {
    assert_eq!(
        resolve_device(Err(PlatformError::Parse("bad plist".to_string())), "/dev/disk2"),
        Err("Parse error: bad plist".to_string())
    );
    assert_eq!(
        resolve_device(Ok(vec![device("/dev/disk2", "d", 7)]), "/dev/disk2"),
        Ok(device("/dev/disk2", "d", 7))
    );
    assert_eq!(
        resolve_device(Ok(vec![device("/dev/disk2", "d", 7)]), "/dev/disk3"),
        Err("Device not found or not removable: /dev/disk3".to_string())
    );
}

#[test]
fn listing_passes_devices_through_unchanged() {
    let devices = vec![device("/dev/sda", "first", 1), device("/dev/sdb", "second", 2)];
    assert_eq!(list_devices(Ok(devices.clone())), Ok(devices));
    assert_eq!(list_devices(Ok(vec![])), Ok(vec![]));
    assert_eq!(
        list_devices(Err(PlatformError::Command("Unsupported platform".to_string()))),
        Err("Command failed: Unsupported platform".to_string())
    );
}

#[test]
fn listing_twice_gives_equal_entries() {
    let make = || vec![device("/dev/sda", "first", 1 << 30), device("/dev/sdb", "second", 2 << 30)];
    assert_eq!(list_devices(Ok(make())), list_devices(Ok(make())));
}

#[test]
fn error_messages() {
    assert_eq!(PlatformError::Io("disk full".to_string()).message(), "IO error: disk full");
    assert_eq!(PlatformError::Command("exit 1".to_string()).message(), "Command failed: exit 1");
    assert_eq!(PlatformError::Parse("eof".to_string()).message(), "Parse error: eof");
    assert_eq!(
        PlatformError::Permission("run as root".to_string()).message(),
        "Permission denied: run as root"
    );
    assert_eq!(
        PlatformError::DeviceNotFound("/dev/sdq".to_string()).message(),
        "Device not found: /dev/sdq"
    );
    assert_eq!(PlatformError::Io(String::new()).message(), "IO error: ");
}

#[test]
fn file_info_with_a_given_name() {
    assert_eq!(
        FileInfo::with_name("/tmp/images/debian.iso".to_string(), Some("debian.iso".to_string()), 1536),
        FileInfo {
            path: "/tmp/images/debian.iso".to_string(),
            name: "debian.iso".to_string(),
            size: 1536,
            size_human: "1.5 KB".to_string(),
        }
    );
    assert_eq!(
        FileInfo::with_name("..".to_string(), None, 0),
        FileInfo {
            path: "..".to_string(),
            name: "..".to_string(),
            size: 0,
            size_human: "0 B".to_string(),
        }
    );
}

#[test]
fn file_info_takes_the_name_from_the_path() {
    let info = FileInfo::describe("images/debian-12.iso".to_string(), 660_602_880);
    assert_eq!(info.path, "images/debian-12.iso");
    assert_eq!(info.name, "debian-12.iso");
    assert_eq!(info.size, 660_602_880);
    assert_eq!(info.size_human, "630.0 MB");
    assert_eq!(FileInfo::describe("plain.img".to_string(), 1).name, "plain.img");
    assert_eq!(FileInfo::describe("dir/".to_string(), 1).name, "dir");
    let nameless = FileInfo::describe("..".to_string(), 1);
    assert_eq!(nameless.name, "..");
}
