//! Windows: removable devices as PowerShell reports them, addressed as
//! `\\.\PhysicalDrive<N>`.

use vstd::prelude::*;
use crate::device::{device_record, records, BlockDevice, DeviceView};
use crate::error::{ErrorKind, PlatformError};
use crate::platform::invalid_path_text;
use crate::text::{
    chars_of, copy_range, decimal, parse_number, parse_unsigned, push_decimal, rows, split,
    split_on, starts_with, string_of, texts, trim_bounds, trimmed, without_prefix,
};

verus! {

/// The script that reports the USB disks as JSON: one object per disk, or
/// an array of them, with the fields of [`DiskInfo`].
pub const LIST_SCRIPT: &'static str =
    r#"Get-Disk | Where-Object { $_.BusType -eq 'USB' } | ForEach-Object {
                $disk = $_
                $partitions = Get-Partition -DiskNumber $disk.Number -ErrorAction SilentlyContinue
                $mountPoints = @()
                foreach ($p in $partitions) {
                    $vol = Get-Volume -Partition $p -ErrorAction SilentlyContinue
                    if ($vol.DriveLetter) {
                        $mountPoints += "$($vol.DriveLetter):"
                    }
                }
                [PSCustomObject]@{
                    Number = $disk.Number
                    FriendlyName = $disk.FriendlyName
                    Size = $disk.Size
                    MountPoints = $mountPoints -join ","
                }
            } | ConvertTo-Json -Compress"#;

/// One disk as the list script reports it.
#[derive(Debug, Clone, PartialEq, Eq)]
pub struct DiskInfo {
    /// Number of the physical drive.
    pub number: u32,
    /// Name shown for the disk.
    pub friendly_name: String,
    /// Capacity in bytes.
    pub size: u64,
    /// Drive letters of the disk's volumes, each with a colon, joined by
    /// commas.
    pub mount_points: String,
}

/// The shape of the list script's output.
#[derive(Debug, Clone, PartialEq, Eq)]
pub enum Listing {
    /// No disk was reported.
    Empty,
    /// Several disks: the text is a JSON array of disk objects.
    Array(String),
    /// One disk: the text is a single JSON disk object.
    Single(String),
}

/// The shape of a listing as plain values.
pub enum ListingView {
    Empty,
    Array(Seq<char>),
    Single(Seq<char>),
}

impl View for Listing {
    type V = ListingView;

    open spec fn view(&self) -> ListingView {
        match self {
            Listing::Empty => ListingView::Empty,
            Listing::Array(t) => ListingView::Array(t@),
            Listing::Single(t) => ListingView::Single(t@),
        }
    }
}

/// The shape of the output `stdout`: nothing, or the literal `null`, means
/// no disk; text beginning with `[` is an array; anything else is taken for
/// a single object. White space around the text is dropped first.
pub open spec fn shape_of(stdout: Seq<char>) -> ListingView {
    if trimmed(stdout).len() == 0 || trimmed(stdout) == "null"@ {
        ListingView::Empty
    } else if trimmed(stdout)[0] == '[' {
        ListingView::Array(trimmed(stdout))
    } else {
        ListingView::Single(trimmed(stdout))
    }
}

/// Tells the shape of the list script's output.
pub fn classify_listing(stdout: &str) -> (listing: Listing)
    ensures
        listing@ == shape_of(stdout@),
{
    let chars = chars_of(stdout);
    let (a, b) = trim_bounds(chars.as_slice());
    let text = string_of(chars.as_slice(), a, b);
    if a == b {
        Listing::Empty
    } else if text == String::from_str("null") {
        Listing::Empty
    } else if chars[a] == '[' {
        Listing::Array(text)
    } else {
        Listing::Single(text)
    }
}

/// The failure for a list script that ended badly.
pub fn list_failure(stderr: &str) -> (e: PlatformError)
    ensures
        e.says(ErrorKind::Command, "PowerShell command failed: "@ + stderr@),
{
    PlatformError::Command(String::from_str("PowerShell command failed: ").concat(stderr))
}

/// The failure for a listing of the given shape that is not the JSON it
/// should be; `detail` is the JSON reader's complaint.
pub fn listing_parse_failure(listing: &Listing, detail: &str) -> (e: PlatformError)
    ensures
        e.says(
            ErrorKind::Parse,
            if listing@ is Array {
                "Failed to parse disk list: "@ + detail@
            } else {
                "Failed to parse disk info: "@ + detail@
            },
        ),
{
    match listing {
        Listing::Array(_) => PlatformError::Parse(
            String::from_str("Failed to parse disk list: ").concat(detail),
        ),
        _ => PlatformError::Parse(String::from_str("Failed to parse disk info: ").concat(detail)),
    }
}

/// The device path of the physical drive with the given number.
pub open spec fn drive_path_of(number: u32) -> Seq<char> {
    r"\\.\PhysicalDrive"@ + decimal(number as nat)
}

/// The device path of the physical drive with the given number.
pub fn drive_path(number: u32) -> (path: String)
    ensures
        path@ == drive_path_of(number),
{
    let mut path = String::from_str(r"\\.\PhysicalDrive");
    push_decimal(&mut path, number as u128);
    path
}

/// The pieces that are not empty once trimmed, each trimmed, in order.
pub open spec fn trimmed_pieces(pieces: Seq<Seq<char>>) -> Seq<Seq<char>>
    decreases pieces.len(),
{
    if pieces.len() == 0 {
        Seq::<Seq<char>>::empty()
    } else if trimmed(pieces.last()).len() == 0 {
        trimmed_pieces(pieces.drop_last())
    } else {
        trimmed_pieces(pieces.drop_last()).push(trimmed(pieces.last()))
    }
}

/// The mount points written in a comma-separated list.
pub open spec fn drive_letters_of(list: Seq<char>) -> Seq<Seq<char>> {
    trimmed_pieces(split_on(list, ','))
}

/// The mount points written in a comma-separated list.
pub fn drive_letters(list: &str) -> (letters: Vec<String>)
    ensures
        texts(letters@) == drive_letters_of(list@),
{
    let chars = chars_of(list);
    let pieces = split(chars.as_slice(), ',');
    let mut letters: Vec<String> = Vec::new();
    let mut i: usize = 0;
    while i < pieces.len()
        invariant
            i <= pieces@.len(),
            texts(letters@) == trimmed_pieces(rows(pieces@).take(i as int)),
        decreases pieces@.len() - i,
    {
        proof {
            assert(rows(pieces@).take(i + 1).drop_last() =~= rows(pieces@).take(i as int));
        }
        let (a, b) = trim_bounds(pieces[i].as_slice());
        if a < b {
            let letter = string_of(pieces[i].as_slice(), a, b);
            letters.push(letter);
        }
        i += 1;
    }
    assert(rows(pieces@).take(i as int) =~= rows(pieces@));
    letters
}

/// The record of a reported disk. Every reported disk is removable: the
/// list script reports USB disks only.
pub open spec fn disk_record(disk: DiskInfo) -> DeviceView {
    device_record(
        drive_path_of(disk.number),
        disk.friendly_name@,
        disk.size,
        true,
        drive_letters_of(disk.mount_points@),
    )
}

/// The device record of a reported disk.
pub fn device_from_disk(disk: &DiskInfo) -> (device: BlockDevice)
    ensures
        device@ == disk_record(*disk),
        device.wf(),
{
    let mounts = drive_letters(disk.mount_points.as_str());
    BlockDevice::new(drive_path(disk.number), disk.friendly_name.clone(), disk.size, true, mounts)
}

/// The records of the reported disks of known capacity, in order.
pub open spec fn listing_of(disks: Seq<DiskInfo>) -> Seq<DeviceView>
    decreases disks.len(),
{
    if disks.len() == 0 {
        Seq::<DeviceView>::empty()
    } else if disks.last().size == 0 {
        listing_of(disks.drop_last())
    } else {
        listing_of(disks.drop_last()).push(disk_record(disks.last()))
    }
}

/// The devices to offer for the reported disks: those of known capacity,
/// in the order reported.
pub fn list_removable_devices(disks: &Vec<DiskInfo>) -> (devices: Vec<BlockDevice>)
    ensures
        records(devices@) == listing_of(disks@),
        forall|i: int| 0 <= i < devices@.len() ==> (#[trigger] devices@[i]).listable(),
{
    let mut devices: Vec<BlockDevice> = Vec::new();
    let mut i: usize = 0;
    while i < disks.len()
        invariant
            i <= disks@.len(),
            records(devices@) == listing_of(disks@.take(i as int)),
            forall|j: int| 0 <= j < devices@.len() ==> (#[trigger] devices@[j]).listable(),
        decreases disks@.len() - i,
    {
        proof {
            assert(disks@.take(i + 1).drop_last() =~= disks@.take(i as int));
        }
        if disks[i].size != 0 {
            let device = device_from_disk(&disks[i]);
            devices.push(device);
        }
        i += 1;
    }
    assert(disks@.take(i as int) =~= disks@);
    devices
}

/// The drive number a device path names: the decimal number of at most
/// 32 bits that follows `\\.\PhysicalDrive`, white space around it aside.
pub open spec fn drive_number_of(path: Seq<char>) -> Option<u32> {
    match without_prefix(path, r"\\.\PhysicalDrive"@) {
        Some(rest) => match parse_unsigned(trimmed(rest), u32::MAX as nat) {
            Some(n) => Some(n as u32),
            None => None,
        },
        None => None,
    }
}

/// Reads the drive number from a device path.
pub fn parse_disk_number(device_path: &str) -> (r: Result<u32, PlatformError>)
    ensures
        match r {
            Ok(n) => drive_number_of(device_path@) == Some(n),
            Err(e) => drive_number_of(device_path@) is None && e.says(
                ErrorKind::Parse,
                invalid_path_text(),
            ),
        },
{
    let chars = chars_of(device_path);
    let prefix = chars_of(r"\\.\PhysicalDrive");
    if !starts_with(chars.as_slice(), prefix.as_slice()) {
        return Err(PlatformError::Parse(String::from_str("Invalid device path")));
    }
    let rest = copy_range(chars.as_slice(), prefix.len(), chars.len());
    let (a, b) = trim_bounds(rest.as_slice());
    let number = copy_range(rest.as_slice(), a, b);
    match parse_number(number.as_slice(), 0xffff_ffff) {
        Some(n) => Ok(n as u32),
        None => Err(PlatformError::Parse(String::from_str("Invalid device path"))),
    }
}

/// The script that releases the volumes of a disk before it is written.
pub open spec fn unmount_script_of(disk: u32) -> Seq<char> {
    "\n$disk = Get-Disk -Number "@ + decimal(disk as nat)
        + "\n$partitions = Get-Partition -DiskNumber "@ + decimal(disk as nat)
        + r#" -ErrorAction SilentlyContinue
foreach ($p in $partitions) {
    $vol = Get-Volume -Partition $p -ErrorAction SilentlyContinue
    if ($vol.DriveLetter) {
        $driveLetter = "$($vol.DriveLetter):"
        Write-Host "Ejecting $driveLetter"
        $null = (New-Object -ComObject Shell.Application).Namespace(17).ParseName($driveLetter).InvokeVerb("Eject")
    }
}
"#@
}

/// The script that releases the volumes of disk number `disk`.
pub fn unmount_script(disk: u32) -> (script: String)
    ensures
        script@ == unmount_script_of(disk),
{
    let mut script = String::from_str("\n$disk = Get-Disk -Number ");
    push_decimal(&mut script, disk as u128);
    script.append("\n$partitions = Get-Partition -DiskNumber ");
    push_decimal(&mut script, disk as u128);
    script.append(
        r#" -ErrorAction SilentlyContinue
foreach ($p in $partitions) {
    $vol = Get-Volume -Partition $p -ErrorAction SilentlyContinue
    if ($vol.DriveLetter) {
        $driveLetter = "$($vol.DriveLetter):"
        Write-Host "Ejecting $driveLetter"
        $null = (New-Object -ComObject Shell.Application).Namespace(17).ParseName($driveLetter).InvokeVerb("Eject")
    }
}
"#,
    );
    script
}

/// The script that ejects the volumes of a disk.
pub open spec fn eject_script_of(disk: u32) -> Seq<char> {
    "\n$partitions = Get-Partition -DiskNumber "@ + decimal(disk as nat)
        + r#" -ErrorAction SilentlyContinue
foreach ($p in $partitions) {
    $vol = Get-Volume -Partition $p -ErrorAction SilentlyContinue
    if ($vol.DriveLetter) {
        $driveLetter = "$($vol.DriveLetter):"
        Write-Host "Ejecting $driveLetter"
        $null = (New-Object -ComObject Shell.Application).Namespace(17).ParseName($driveLetter).InvokeVerb("Eject")
        Start-Sleep -Milliseconds 500
    }
}
"#@
}

/// The script that ejects the volumes of disk number `disk`.
pub fn eject_script(disk: u32) -> (script: String)
    ensures
        script@ == eject_script_of(disk),
{
    let mut script = String::from_str("\n$partitions = Get-Partition -DiskNumber ");
    push_decimal(&mut script, disk as u128);
    script.append(
        r#" -ErrorAction SilentlyContinue
foreach ($p in $partitions) {
    $vol = Get-Volume -Partition $p -ErrorAction SilentlyContinue
    if ($vol.DriveLetter) {
        $driveLetter = "$($vol.DriveLetter):"
        Write-Host "Ejecting $driveLetter"
        $null = (New-Object -ComObject Shell.Application).Namespace(17).ParseName($driveLetter).InvokeVerb("Eject")
        Start-Sleep -Milliseconds 500
    }
}
"#,
    );
    script
}

/// The path to open for raw access to the device at `device_path`: the
/// path itself, provided it names a physical drive.
pub fn raw_device_path(device_path: &str) -> (r: Result<String, PlatformError>)
    ensures
        match r {
            Ok(p) => drive_number_of(device_path@) is Some && p@ == device_path@,
            Err(e) => drive_number_of(device_path@) is None && e.says(
                ErrorKind::Parse,
                invalid_path_text(),
            ),
        },
{
    match parse_disk_number(device_path) {
        Ok(_) => Ok(device_path.to_owned()),
        Err(e) => Err(e),
    }
}

} // verus!
