//! Records describing block devices and files.

use vstd::prelude::*;
use crate::error::PlatformError;
use crate::size::{format_size, size_text};
use crate::text::texts;

verus! {

/// A candidate target device.
#[derive(Debug, Clone, PartialEq, Eq)]
pub struct BlockDevice {
    /// Platform-native identifier, used to find the device again and to
    /// open, unmount and eject it.
    pub path: String,
    /// Human-readable label.
    pub name: String,
    /// Capacity in bytes; zero means unknown.
    pub size: u64,
    /// `size` rendered for people.
    pub size_human: String,
    /// Whether the operating system reports the device as removable.
    pub removable: bool,
    /// Where filesystems of this device are mounted.
    pub mount_points: Vec<String>,
}

/// A device record as plain values.
pub struct DeviceView {
    pub path: Seq<char>,
    pub name: Seq<char>,
    pub size: u64,
    pub size_human: Seq<char>,
    pub removable: bool,
    pub mount_points: Seq<Seq<char>>,
}

impl View for BlockDevice {
    type V = DeviceView;

    open spec fn view(&self) -> DeviceView {
        DeviceView {
            path: self.path@,
            name: self.name@,
            size: self.size,
            size_human: self.size_human@,
            removable: self.removable,
            mount_points: texts(self.mount_points@),
        }
    }
}

/// The record of a device with the given properties; its rendered size is
/// derived from its size.
pub open spec fn device_record(
    path: Seq<char>,
    name: Seq<char>,
    size: u64,
    removable: bool,
    mount_points: Seq<Seq<char>>,
) -> DeviceView {
    DeviceView { path, name, size, size_human: size_text(size as nat), removable, mount_points }
}

/// The records of a list of devices.
pub open spec fn records(devices: Seq<BlockDevice>) -> Seq<DeviceView> {
    devices.map_values(|d: BlockDevice| d@)
}

impl BlockDevice {
    /// The rendered size agrees with the size.
    pub open spec fn wf(&self) -> bool {
        self.size_human@ == size_text(self.size as nat)
    }

    /// Well formed, removable and of known capacity: fit to be offered as a
    /// write target.
    pub open spec fn listable(&self) -> bool {
        self.wf() && self.removable && self.size > 0
    }

    /// A device record whose rendered size is derived from `size`.
    pub fn new(
        path: String,
        name: String,
        size: u64,
        removable: bool,
        mount_points: Vec<String>,
    ) -> (d: BlockDevice)
        ensures
            d@ == device_record(path@, name@, size, removable, texts(mount_points@)),
            d.wf(),
    {
        BlockDevice { path, name, size, size_human: format_size(size), removable, mount_points }
    }
}

/// A file chosen as the image source.
#[derive(Debug, Clone, PartialEq, Eq)]
pub struct FileInfo {
    pub path: String,
    /// Final component of `path`, or `path` itself when it has none.
    pub name: String,
    pub size: u64,
    /// `size` rendered for people.
    pub size_human: String,
}

/// The final component of a path, as the operating system's path rules
/// define it.
///
/// Trusted: hands back what `std::path::Path::file_name` finds. The rules
/// differ between platforms, so nothing is claimed about the outcome.
#[verifier::external_body]
fn final_component(path: &str) -> (name: Option<String>) {
    match std::path::Path::new(path).file_name() {
        Some(name) => Some(name.to_string_lossy().into_owned()),
        None => None,
    }
}

impl FileInfo {
    /// The rendered size agrees with the size.
    pub open spec fn wf(&self) -> bool {
        self.size_human@ == size_text(self.size as nat)
    }

    /// The record for a file at `path` of `size` bytes whose final path
    /// component is `file_name`; a path without one is its own name.
    pub fn with_name(path: String, file_name: Option<String>, size: u64) -> (info: FileInfo)
        ensures
            info.path@ == path@,
            info.name@ == (match file_name {
                Some(n) => n@,
                None => path@,
            }),
            info.size == size,
            info.wf(),
    {
        let name = match file_name {
            Some(n) => n,
            None => path.clone(),
        };
        FileInfo { path, name, size, size_human: format_size(size) }
    }

    /// The record for a file at `path` of `size` bytes, named after the
    /// final component of the path.
    pub fn describe(path: String, size: u64) -> (info: FileInfo)
        ensures
            info.path@ == path@,
            info.size == size,
            info.wf(),
    {
        let file_name = final_component(path.as_str());
        FileInfo::with_name(path, file_name, size)
    }
}

/// Position of the first device with the given path, or the number of
/// devices if none has it.
pub open spec fn position_of(devices: Seq<BlockDevice>, path: Seq<char>) -> nat
    decreases devices.len(),
{
    if devices.len() == 0 || devices[0].path@ == path {
        0
    } else {
        1 + position_of(devices.skip(1), path)
    }
}

/// True when some device has the given path.
pub open spec fn is_listed(devices: Seq<BlockDevice>, path: Seq<char>) -> bool {
    position_of(devices, path) < devices.len()
}

/// What the caller is told when the requested path is not a listed device.
pub open spec fn not_found_text(path: Seq<char>) -> Seq<char> {
    "Device not found or not removable: "@ + path
}

/// `position_of` gives `k` when the device at `k` is the first with the
/// path, and the length when no device has it.
pub proof fn lemma_position_of(devices: Seq<BlockDevice>, path: Seq<char>, k: int)
    requires
        0 <= k <= devices.len(),
        forall|j: int| 0 <= j < k ==> devices[j].path@ != path,
        k == devices.len() || devices[k].path@ == path,
    ensures
        position_of(devices, path) == k,
    decreases k,
{
    if k > 0 {
        lemma_position_of(devices.skip(1), path, k - 1);
    }
}

/// A path is listed exactly when some device carries it; a path that no
/// device of the current enumeration carries is never resolved, whatever
/// earlier enumerations held.
pub proof fn lemma_listed_iff_present(devices: Seq<BlockDevice>, path: Seq<char>)
    ensures
        is_listed(devices, path) <==> exists|i: int|
            0 <= i < devices.len() && (#[trigger] devices[i]).path@ == path,
        is_listed(devices, path) ==> devices[position_of(devices, path) as int].path@ == path,
    decreases devices.len(),
{
    if devices.len() > 0 && devices[0].path@ != path {
        let rest = devices.skip(1);
        lemma_listed_iff_present(rest, path);
        if exists|i: int| 0 <= i < devices.len() && (#[trigger] devices[i]).path@ == path {
            let i = choose|i: int| 0 <= i < devices.len() && (#[trigger] devices[i]).path@ == path;
            assert(rest[i - 1] == devices[i]);
        }
    }
}

/// Picks the device with the given path out of a fresh enumeration. The
/// first device carrying the path is returned; a path that no device
/// carries is refused.
pub fn require_removable_device(devices: Vec<BlockDevice>, device_path: &str) -> (r: Result<
    BlockDevice,
    String,
>)
    ensures
        match r {
            Ok(d) => is_listed(devices@, device_path@) && d == devices@[position_of(
                devices@,
                device_path@,
            ) as int],
            Err(m) => !is_listed(devices@, device_path@) && m@ == not_found_text(device_path@),
        },
{
    let mut pool = devices;
    let ghost all = pool@;
    let wanted = device_path.to_owned();
    let mut i: usize = 0;
    while i < pool.len()
        invariant
            pool@ == all,
            all == devices@,
            wanted@ == device_path@,
            i <= pool@.len(),
            forall|j: int| 0 <= j < i ==> all[j].path@ != device_path@,
        decreases pool@.len() - i,
    {
        if pool[i].path == wanted {
            proof {
                lemma_position_of(all, device_path@, i as int);
            }
            return Ok(pool.swap_remove(i));
        }
        i += 1;
    }
    proof {
        lemma_position_of(all, device_path@, i as int);
    }
    Err(String::from_str("Device not found or not removable: ").concat(device_path))
}

/// What resolving a device path against the outcome of an enumeration
/// comes to: the first listed device with that path, or the text of the
/// failure. A failed enumeration fails with its own message.
pub open spec fn resolved(listing: Result<Vec<BlockDevice>, PlatformError>, path: Seq<char>)
    -> Result<BlockDevice, Seq<char>> {
    match listing {
        Ok(devices) => if is_listed(devices@, path) {
            Ok(devices@[position_of(devices@, path) as int])
        } else {
            Err(not_found_text(path))
        },
        Err(e) => Err(e.message_text()),
    }
}

/// Resolves a device path against the outcome of a fresh enumeration.
pub fn resolve_device(listing: Result<Vec<BlockDevice>, PlatformError>, device_path: &str) -> (r:
    Result<BlockDevice, String>)
    ensures
        match r {
            Ok(d) => resolved(listing, device_path@) == Ok::<BlockDevice, Seq<char>>(d),
            Err(m) => resolved(listing, device_path@) == Err::<BlockDevice, Seq<char>>(m@),
        },
{
    match listing {
        Ok(devices) => require_removable_device(devices, device_path),
        Err(e) => Err(e.message()),
    }
}

/// The outcome of an enumeration as the presentation layer receives it:
/// the devices as they are, or the message of the failure.
pub fn list_devices(listing: Result<Vec<BlockDevice>, PlatformError>) -> (r: Result<
    Vec<BlockDevice>,
    String,
>)
    ensures
        match r {
            Ok(devices) => listing == Ok::<Vec<BlockDevice>, PlatformError>(devices),
            Err(m) => listing matches Err(e) && m@ == e.message_text(),
        },
{
    match listing {
        Ok(devices) => Ok(devices),
        Err(e) => Err(e.message()),
    }
}

/// Two enumerations with the same records agree entry by entry in every
/// field, mount points and their order included.
pub proof fn lemma_same_records_same_entries(first: Seq<BlockDevice>, second: Seq<BlockDevice>)
    requires
        records(first) == records(second),
    ensures
        first.len() == second.len(),
        forall|i: int| 0 <= i < first.len() ==> (#[trigger] first[i])@ == second[i]@,
        forall|i: int|
            0 <= i < first.len() ==> {
                &&& (#[trigger] first[i]).path@ == second[i].path@
                &&& first[i].name@ == second[i].name@
                &&& first[i].size == second[i].size
                &&& first[i].size_human@ == second[i].size_human@
                &&& first[i].removable == second[i].removable
                &&& texts(first[i].mount_points@) == texts(second[i].mount_points@)
            },
{
    assert(records(first).len() == first.len());
    assert(records(second).len() == second.len());
    assert forall|i: int| 0 <= i < first.len() implies (#[trigger] first[i])@ == second[i]@ by {
        assert(records(first)[i] == first[i]@);
        assert(records(second)[i] == second[i]@);
    }
}

} // verus!
