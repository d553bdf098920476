use flasher::device::BlockDevice;
use flasher::error::PlatformError;
use flasher::platform::windows::{
    classify_listing, device_from_disk, drive_letters, drive_path, eject_script,
    list_failure, list_removable_devices, listing_parse_failure, parse_disk_number,
    raw_device_path, unmount_script, DiskInfo, Listing, LIST_SCRIPT,
};

fn disk(number: u32, name: &str, size: u64, mounts: &str) -> DiskInfo {
    DiskInfo {
        number,
        friendly_name: name.to_string(),
        size,
        mount_points: mounts.to_string(),
    }
}

#[test]
fn disk_numbers() {
    assert_eq!(parse_disk_number(r"\\.\PhysicalDrive0"), Ok(0));
    assert_eq!(parse_disk_number(r"\\.\PhysicalDrive1"), Ok(1));
    assert_eq!(parse_disk_number(r"\\.\PhysicalDrive12"), Ok(12));
    assert_eq!(parse_disk_number(r"\\.\PhysicalDrive 3 "), Ok(3));
    assert_eq!(parse_disk_number(r"\\.\PhysicalDrive+3"), Ok(3));
    assert_eq!(parse_disk_number(r"\\.\PhysicalDrive007"), Ok(7));
    assert_eq!(parse_disk_number(r"\\.\PhysicalDrive4294967295"), Ok(u32::MAX));
}

#[test]
fn paths_that_name_no_drive() {
    for bad in [
        r"\\.\PhysicalDrive",
        r"\\.\PhysicalDrive4294967296",
        r"\\.\PhysicalDrive-1",
        r"\\.\PhysicalDrive1a",
        r"\\.\PhysicalDrive1 2",
        r"\\.\physicaldrive1",
        r" \\.\PhysicalDrive1",
        r"\\.\C:",
        "/dev/sdb",
        "",
        "1",
    ] {
        assert_eq!(
            parse_disk_number(bad),
            Err(PlatformError::Parse("Invalid device path".to_string())),
            "{:?}",
            bad
        );
        assert_eq!(
            raw_device_path(bad),
            Err(PlatformError::Parse("Invalid device path".to_string()))
        );
    }
    assert_eq!(raw_device_path(r"\\.\PhysicalDrive2"), Ok(r"\\.\PhysicalDrive2".to_string()));
}

#[test]
fn disk_numbers_agree_with_the_standard_library() {
    for path in [r"\\.\PhysicalDrive 9", r"\\.\PhysicalDrive\t9", r"\\.\PhysicalDrive", "x", r"\\.\PhysicalDrive99999999999"] {
        let expected = path
            .strip_prefix(r"\\.\PhysicalDrive")
            .and_then(|rest| rest.trim().parse::<u32>().ok());
        assert_eq!(parse_disk_number(path).ok(), expected, "{:?}", path);
    }
}

#[test]
fn drive_paths() {
    assert_eq!(drive_path(0), r"\\.\PhysicalDrive0");
    assert_eq!(drive_path(7), r"\\.\PhysicalDrive7");
    assert_eq!(drive_path(u32::MAX), r"\\.\PhysicalDrive4294967295");
    for n in [0u32, 1, 10, 99, 12345] {
        assert_eq!(parse_disk_number(&drive_path(n)), Ok(n));
    }
}

#[test]
fn drive_letter_lists() {
    assert_eq!(drive_letters("E:"), vec!["E:"]);
    assert_eq!(drive_letters("E:,F:"), vec!["E:", "F:"]);
    assert_eq!(drive_letters(" E: , F: "), vec!["E:", "F:"]);
    assert_eq!(drive_letters("E:,,F:,"), vec!["E:", "F:"]);
    assert_eq!(drive_letters(""), Vec::<String>::new());
    assert_eq!(drive_letters(" , ,"), Vec::<String>::new());
}

#[test]
fn a_reported_disk_becomes_a_device() {
    assert_eq!(
        device_from_disk(&disk(2, "Kingston DataTraveler 3.0", 62_008_590_336, "E:,F:")),
        BlockDevice {
            path: r"\\.\PhysicalDrive2".to_string(),
            name: "Kingston DataTraveler 3.0".to_string(),
            size: 62_008_590_336,
            size_human: "57.8 GB".to_string(),
            removable: true,
            mount_points: vec!["E:".to_string(), "F:".to_string()],
        }
    );
}

#[test]
fn disks_of_unknown_size_are_not_offered() {
    let disks = vec![
        disk(1, "A", 1 << 30, "E:"),
        disk(2, "B", 0, "F:"),
        disk(3, "C", 2 << 30, ""),
    ];
    let devices = list_removable_devices(&disks);
    let paths: Vec<&str> = devices.iter().map(|d| d.path.as_str()).collect();
    assert_eq!(paths, vec![r"\\.\PhysicalDrive1", r"\\.\PhysicalDrive3"]);
    assert!(devices.iter().all(|d| d.removable && d.size > 0));
    assert_eq!(list_removable_devices(&vec![]), vec![]);
    assert_eq!(list_removable_devices(&disks), list_removable_devices(&disks));
}

#[test]
fn shapes_of_the_listing() {
    assert_eq!(classify_listing(""), Listing::Empty);
    assert_eq!(classify_listing("  \r\n"), Listing::Empty);
    assert_eq!(classify_listing("null"), Listing::Empty);
    assert_eq!(classify_listing(" null\r\n"), Listing::Empty);
    assert_eq!(
        classify_listing("[{\"Number\":1},{\"Number\":2}]\r\n"),
        Listing::Array("[{\"Number\":1},{\"Number\":2}]".to_string())
    );
    assert_eq!(
        classify_listing("\r\n{\"Number\":1}\r\n"),
        Listing::Single("{\"Number\":1}".to_string())
    );
    assert_eq!(classify_listing("nullx"), Listing::Single("nullx".to_string()));
    assert_eq!(classify_listing("Null"), Listing::Single("Null".to_string()));
}

#[test]
fn listing_failures() {
    assert_eq!(
        list_failure("Get-Disk : Access denied\r\n"),
        PlatformError::Command("PowerShell command failed: Get-Disk : Access denied\r\n".to_string())
    );
    assert_eq!(
        listing_parse_failure(&Listing::Array("[".to_string()), "EOF while parsing a list"),
        PlatformError::Parse("Failed to parse disk list: EOF while parsing a list".to_string())
    );
    assert_eq!(
        listing_parse_failure(&Listing::Single("{".to_string()), "EOF while parsing an object"),
        PlatformError::Parse("Failed to parse disk info: EOF while parsing an object".to_string())
    );
}

#[test]
fn scripts_name_the_disk() {
    let unmount = unmount_script(3);
    assert!(unmount.contains("$disk = Get-Disk -Number 3\n"));
    assert!(unmount.contains("$partitions = Get-Partition -DiskNumber 3 -ErrorAction SilentlyContinue\n"));
    assert!(unmount.contains("foreach ($p in $partitions) {\n"));
    assert!(unmount.contains(".InvokeVerb(\"Eject\")"));
    assert!(!unmount.contains("Start-Sleep"));
    assert_eq!(unmount.matches('{').count(), unmount.matches('}').count());
    assert_ne!(unmount_script(3), unmount_script(4));
    assert_eq!(unmount_script(12).replace("12", "3"), unmount);

    let eject = eject_script(41);
    assert!(eject.starts_with("\n$partitions = Get-Partition -DiskNumber 41 -ErrorAction SilentlyContinue\n"));
    assert!(eject.contains("Start-Sleep -Milliseconds 500"));
    assert!(!eject.contains("Get-Disk"));
    assert_eq!(eject.matches('{').count(), 2);
    assert_eq!(eject.matches('}').count(), 2);
}

#[test]
fn the_list_script_reports_the_four_fields() {
    for field in ["Number = ", "FriendlyName = ", "Size = ", "MountPoints = "] {
        assert!(LIST_SCRIPT.contains(field), "{}", field);
    }
    assert!(LIST_SCRIPT.starts_with("Get-Disk | Where-Object { $_.BusType -eq 'USB' }"));
    assert!(LIST_SCRIPT.ends_with("ConvertTo-Json -Compress"));
}
