//! Linux: removable devices as the kernel describes them under
//! `/sys/block`, and their mounts as listed in `/proc/mounts`.

use vstd::prelude::*;
use crate::device::{
    device_record, lemma_same_records_same_entries, records, BlockDevice, DeviceView,
};
use crate::error::{ErrorKind, PlatformError};
use crate::platform::invalid_path_text;
use crate::text::{
    chars_of, has_prefix, parse_number, parse_unsigned, rows, split, split_on, split_words,
    starts_with, str_starts_with, string_of, texts, trim_bounds, trimmed, words,
};

verus! {

/// Bytes per sector as the kernel counts device sizes.
pub const SECTOR_SIZE: u64 = 512;

/// What `/sys/block/<name>` holds about one block device. A text is absent
/// when its file could not be read.
#[derive(Debug, Clone, PartialEq, Eq)]
pub struct SysfsEntry {
    /// Name of the directory, such as `sdb`.
    pub name: String,
    /// Content of `removable`.
    pub removable: Option<String>,
    /// Content of `size`, the capacity in sectors.
    pub size: Option<String>,
    /// Content of `device/model`.
    pub model: Option<String>,
    /// Content of `device/vendor`.
    pub vendor: Option<String>,
}

/// The characters of a text that may be absent.
pub open spec fn text_of(text: Option<String>) -> Option<Seq<char>> {
    match text {
        Some(t) => Some(t@),
        None => None,
    }
}

/// Names of devices that are never disks: loop, RAM and device-mapper
/// devices.
pub open spec fn skipped_name(name: Seq<char>) -> bool {
    has_prefix(name, "loop"@) || has_prefix(name, "ram"@) || has_prefix(name, "zram"@)
        || has_prefix(name, "dm-"@)
}

/// The removable flag is set when the text, trimmed, is `1`.
pub open spec fn flag_set(text: Option<Seq<char>>) -> bool {
    text matches Some(t) && trimmed(t) == "1"@
}

/// The sector count written in the text, trimmed; zero when the text is
/// absent or writes no 64-bit number.
pub open spec fn sectors_of(text: Option<Seq<char>>) -> u64 {
    match text {
        Some(t) => match parse_unsigned(trimmed(t), u64::MAX as nat) {
            Some(n) => n as u64,
            None => 0,
        },
        None => 0,
    }
}

/// The capacity in bytes of a device of that many sectors; zero, meaning
/// unknown, when it does not fit 64 bits.
pub open spec fn capacity_of(sectors: u64) -> u64 {
    if sectors * SECTOR_SIZE <= u64::MAX {
        (sectors * SECTOR_SIZE) as u64
    } else {
        0
    }
}

/// A descriptive text, trimmed; empty when absent.
pub open spec fn field_of(text: Option<Seq<char>>) -> Seq<char> {
    match text {
        Some(t) => trimmed(t),
        None => Seq::<char>::empty(),
    }
}

/// The label of a device: vendor and model when both are known, else
/// whichever is known, else the device name.
pub open spec fn label_of(vendor: Seq<char>, model: Seq<char>, name: Seq<char>) -> Seq<char> {
    if vendor.len() > 0 && model.len() > 0 {
        vendor + " "@ + model
    } else if model.len() > 0 {
        model
    } else if vendor.len() > 0 {
        vendor
    } else {
        name
    }
}

/// The device node of a block device.
pub open spec fn node_of(name: Seq<char>) -> Seq<char> {
    "/dev/"@ + name
}

/// The mount point a line of the mount table gives for a device: the
/// second word, if the first word begins with the device's node (which
/// covers the device and its partitions).
pub open spec fn mounted_at(line: Seq<char>, node: Seq<char>) -> Option<Seq<char>> {
    if words(line).len() >= 2 && has_prefix(words(line)[0], node) {
        Some(words(line)[1])
    } else {
        None
    }
}

/// The mount points the given lines give for a device, in order.
pub open spec fn mounts_in(lines: Seq<Seq<char>>, node: Seq<char>) -> Seq<Seq<char>>
    decreases lines.len(),
{
    if lines.len() == 0 {
        Seq::<Seq<char>>::empty()
    } else {
        match mounted_at(lines.last(), node) {
            Some(m) => mounts_in(lines.drop_last(), node).push(m),
            None => mounts_in(lines.drop_last(), node),
        }
    }
}

/// The mount points a mount table gives for a device, in the order of the
/// table's lines.
pub open spec fn mount_points_of(table: Seq<char>, node: Seq<char>) -> Seq<Seq<char>> {
    mounts_in(split_on(table, '\n'), node)
}

/// The record of the device an entry describes, given the mount table;
/// none for devices that are never disks, are not removable, or have no
/// known capacity.
pub open spec fn described(entry: SysfsEntry, table: Seq<char>) -> Option<DeviceView> {
    if skipped_name(entry.name@) || !flag_set(text_of(entry.removable)) || capacity_of(
        sectors_of(text_of(entry.size)),
    ) == 0 {
        None
    } else {
        Some(
            device_record(
                node_of(entry.name@),
                label_of(
                    field_of(text_of(entry.vendor)),
                    field_of(text_of(entry.model)),
                    entry.name@,
                ),
                capacity_of(sectors_of(text_of(entry.size))),
                true,
                mount_points_of(table, node_of(entry.name@)),
            ),
        )
    }
}

/// The records of the devices the entries describe, in the order of the
/// entries.
pub open spec fn listing(entries: Seq<SysfsEntry>, table: Seq<char>) -> Seq<DeviceView>
    decreases entries.len(),
{
    if entries.len() == 0 {
        Seq::<DeviceView>::empty()
    } else {
        match described(entries.last(), table) {
            Some(d) => listing(entries.drop_last(), table).push(d),
            None => listing(entries.drop_last(), table),
        }
    }
}

/// Tells whether a device of this name is never a disk.
pub fn is_skipped_name(name: &str) -> (b: bool)
    ensures
        b == skipped_name(name@),
{
    str_starts_with(name, "loop") || str_starts_with(name, "ram") || str_starts_with(name, "zram")
        || str_starts_with(name, "dm-")
}

fn trimmed_field(text: &Option<String>) -> (t: String)
    ensures
        t@ == field_of(text_of(*text)),
{
    match text {
        Some(t) => crate::text::trim(t.as_str()),
        None => String::new(),
    }
}

/// Tells whether the content of `removable` marks the device removable.
pub fn is_removable_flag(text: &Option<String>) -> (b: bool)
    ensures
        b == flag_set(text_of(*text)),
{
    match text {
        Some(t) => crate::text::trim(t.as_str()) == String::from_str("1"),
        None => false,
    }
}

/// Reads the sector count from the content of `size`.
pub fn sector_count(text: &Option<String>) -> (n: u64)
    ensures
        n == sectors_of(text_of(*text)),
{
    match text {
        Some(t) => {
            let chars = chars_of(t.as_str());
            let (a, b) = trim_bounds(chars.as_slice());
            let inner = crate::text::copy_range(chars.as_slice(), a, b);
            match parse_number(inner.as_slice(), u64::MAX) {
                Some(n) => n,
                None => 0,
            }
        },
        None => 0,
    }
}

/// The capacity in bytes of a device of `sectors` sectors.
pub fn capacity(sectors: u64) -> (bytes: u64)
    ensures
        bytes == capacity_of(sectors),
{
    if sectors <= u64::MAX / SECTOR_SIZE {
        sectors * SECTOR_SIZE
    } else {
        0
    }
}

/// The label of a device from its trimmed vendor and model texts.
pub fn label(vendor: String, model: String, name: &str) -> (l: String)
    ensures
        l@ == label_of(vendor@, model@, name@),
{
    if !vendor.as_str().is_empty() && !model.as_str().is_empty() {
        vendor.concat(" ").concat(model.as_str())
    } else if !model.as_str().is_empty() {
        model
    } else if !vendor.as_str().is_empty() {
        vendor
    } else {
        name.to_owned()
    }
}

/// The mount points that the mount table `table` lists for the device at
/// `node` and for its partitions.
pub fn get_mount_points(table: &str, node: &str) -> (mounts: Vec<String>)
    ensures
        texts(mounts@) == mount_points_of(table@, node@),
{
    let chars = chars_of(table);
    let wanted = chars_of(node);
    let lines = split(chars.as_slice(), '\n');
    let mut mounts: Vec<String> = Vec::new();
    let mut i: usize = 0;
    while i < lines.len()
        invariant
            i <= lines@.len(),
            wanted@ == node@,
            texts(mounts@) == mounts_in(rows(lines@).take(i as int), node@),
        decreases lines@.len() - i,
    {
        let parts = split_words(lines[i].as_slice());
        proof {
            assert(rows(lines@).take(i + 1).drop_last() =~= rows(lines@).take(i as int));
        }
        if parts.len() >= 2 && starts_with(parts[0].as_slice(), wanted.as_slice()) {
            let mount = string_of(parts[1].as_slice(), 0, parts[1].len());
            proof {
                assert(parts@[1]@.subrange(0, parts@[1]@.len() as int) =~= parts@[1]@);
            }
            mounts.push(mount);
        }
        i += 1;
    }
    assert(rows(lines@).take(i as int) =~= rows(lines@));
    mounts
}

/// Describes the device of a `/sys/block` entry, or tells that it is not a
/// removable disk of known capacity.
pub fn describe(entry: &SysfsEntry, table: &str) -> (d: Option<BlockDevice>)
    ensures
        match d {
            Some(device) => described(*entry, table@) == Some(device@) && device.listable(),
            None => described(*entry, table@) is None,
        },
{
    if is_skipped_name(entry.name.as_str()) {
        return None;
    }
    if !is_removable_flag(&entry.removable) {
        return None;
    }
    let size = capacity(sector_count(&entry.size));
    if size == 0 {
        return None;
    }
    let vendor = trimmed_field(&entry.vendor);
    let model = trimmed_field(&entry.model);
    let name = label(vendor, model, entry.name.as_str());
    let node = String::from_str("/dev/").concat(entry.name.as_str());
    let mounts = get_mount_points(table, node.as_str());
    Some(BlockDevice::new(node, name, size, true, mounts))
}

/// The removable disks among the entries of `/sys/block`, in the order of
/// the entries, with their mount points from the mount table `table`.
pub fn list_removable_devices(entries: &Vec<SysfsEntry>, table: &str) -> (devices: Vec<
    BlockDevice,
>)
    ensures
        records(devices@) == listing(entries@, table@),
        forall|i: int| 0 <= i < devices@.len() ==> (#[trigger] devices@[i]).listable(),
{
    let mut devices: Vec<BlockDevice> = Vec::new();
    let mut i: usize = 0;
    while i < entries.len()
        invariant
            i <= entries@.len(),
            records(devices@) == listing(entries@.take(i as int), table@),
            forall|j: int| 0 <= j < devices@.len() ==> (#[trigger] devices@[j]).listable(),
        decreases entries@.len() - i,
    {
        proof {
            assert(entries@.take(i + 1).drop_last() =~= entries@.take(i as int));
        }
        match describe(&entries[i], table) {
            Some(device) => {
                devices.push(device);
            },
            None => {},
        }
        i += 1;
    }
    assert(entries@.take(i as int) =~= entries@);
    devices
}

/// Enumerating twice while nothing changes gives the same devices: two
/// listings of the same entries and mount table agree entry by entry in
/// every field.
pub proof fn lemma_listing_is_repeatable(
    entries: Seq<SysfsEntry>,
    table: Seq<char>,
    first: Seq<BlockDevice>,
    second: Seq<BlockDevice>,
)
    requires
        records(first) == listing(entries, table),
        records(second) == listing(entries, table),
    ensures
        first.len() == second.len(),
        forall|i: int| 0 <= i < first.len() ==> (#[trigger] first[i])@ == second[i]@,
{
    lemma_same_records_same_entries(first, second);
}

/// Where the unmounting of a device stands. Mount points are taken in
/// order; each is first tried without privileges and, if that is refused,
/// once more with elevated privileges.
#[derive(Debug, Clone, Copy, PartialEq, Eq, Structural)]
pub enum UnmountState {
    /// The mount point at `index` is to be unmounted, with or without
    /// elevated privileges.
    Trying { index: usize, elevated: bool },
    /// Nothing is left to unmount.
    Done,
    /// The mount point at `index` could not be unmounted either way.
    Failed { index: usize },
}

/// The state before any attempt on `count` mount points: with nothing
/// mounted there is nothing to do.
pub open spec fn first_attempt(count: nat) -> UnmountState {
    if count == 0 {
        UnmountState::Done
    } else {
        UnmountState::Trying { index: 0, elevated: false }
    }
}

/// The state that follows an attempt. Success moves on to the next mount
/// point; a refusal without privileges is retried with them; a refusal
/// with privileges is final.
pub open spec fn after_attempt(count: nat, state: UnmountState, success: bool) -> UnmountState {
    match state {
        UnmountState::Trying { index, elevated } => if success {
            if index + 1 < count {
                UnmountState::Trying { index: (index + 1) as usize, elevated: false }
            } else {
                UnmountState::Done
            }
        } else if !elevated {
            UnmountState::Trying { index, elevated: true }
        } else {
            UnmountState::Failed { index }
        },
        UnmountState::Done => UnmountState::Done,
        UnmountState::Failed { index } => UnmountState::Failed { index },
    }
}

/// A device with nothing mounted is unmounted from the start, and
/// unmounting fails only on a refusal of the attempt with elevated
/// privileges: never on the first refusal, never after a success.
pub proof fn lemma_unmount_fails_only_when_exhausted(
    count: nat,
    state: UnmountState,
    success: bool,
)
    ensures
        first_attempt(0) == UnmountState::Done,
        after_attempt(count, state, success) matches UnmountState::Failed { index } ==> (state
            matches UnmountState::Failed { index: i } && i == index) || (!success && state
            == UnmountState::Trying { index, elevated: true }),
{
}

/// Text of the failure to unmount a mount point, given what the command
/// wrote to its error stream.
pub open spec fn unmount_failure_text(mount_point: Seq<char>, stderr: Seq<char>) -> Seq<char> {
    "Failed to unmount "@ + mount_point + ": "@ + stderr
}

/// The unmounting of one device.
pub struct UnmountPlan {
    /// The mount points to release, in order.
    pub mount_points: Vec<String>,
    /// Where the unmounting stands.
    pub state: UnmountState,
}

/// The command to run next.
pub struct UnmountAttempt<'a> {
    /// Whether to run it with elevated privileges.
    pub elevated: bool,
    /// The mount point to unmount.
    pub mount_point: &'a str,
}

impl UnmountPlan {
    /// The plan for the given mount points.
    pub fn new(mount_points: Vec<String>) -> (plan: UnmountPlan)
        ensures
            plan.mount_points == mount_points,
            plan.state == first_attempt(mount_points@.len()),
    {
        let state = if mount_points.len() == 0 {
            UnmountState::Done
        } else {
            UnmountState::Trying { index: 0, elevated: false }
        };
        UnmountPlan { mount_points, state }
    }

    /// The plan for the device at `node`, given the mount table.
    pub fn for_device(table: &str, node: &str) -> (plan: UnmountPlan)
        ensures
            texts(plan.mount_points@) == mount_points_of(table@, node@),
            plan.state == first_attempt(plan.mount_points@.len()),
    {
        UnmountPlan::new(get_mount_points(table, node))
    }

    /// The command to run next, if the plan is still under way.
    pub fn pending(&self) -> (attempt: Option<UnmountAttempt<'_>>)
        ensures
            match attempt {
                Some(a) => self.state matches UnmountState::Trying { index, elevated } && index
                    < self.mount_points@.len() && a.elevated == elevated && a.mount_point@
                    == self.mount_points@[index as int]@,
                None => !(self.state matches UnmountState::Trying { index, elevated } && index
                    < self.mount_points@.len()),
            },
    {
        match self.state {
            UnmountState::Trying { index, elevated } => {
                if index < self.mount_points.len() {
                    Some(UnmountAttempt { elevated, mount_point: self.mount_points[index].as_str() })
                } else {
                    None
                }
            },
            _ => None,
        }
    }

    /// Takes note of how the pending command ended.
    pub fn record(&mut self, success: bool)
        ensures
            final(self).mount_points == old(self).mount_points,
            final(self).state == after_attempt(
                old(self).mount_points@.len(),
                old(self).state,
                success,
            ),
    {
        let count = self.mount_points.len();
        let next = match self.state {
            UnmountState::Trying { index, elevated } => {
                if success {
                    if index < count && index + 1 < count {
                        UnmountState::Trying { index: index + 1, elevated: false }
                    } else {
                        UnmountState::Done
                    }
                } else if !elevated {
                    UnmountState::Trying { index, elevated: true }
                } else {
                    UnmountState::Failed { index }
                }
            },
            UnmountState::Done => UnmountState::Done,
            UnmountState::Failed { index } => UnmountState::Failed { index },
        };
        self.state = next;
    }

    /// The result of the unmounting once it has ended: success, or the
    /// failure naming the mount point and quoting `stderr`, the error
    /// stream of the last command. None while commands are pending.
    pub fn outcome(&self, stderr: &str) -> (r: Option<Result<(), PlatformError>>)
        ensures
            match r {
                Some(Ok(())) => self.state == UnmountState::Done || (self.state
                    matches UnmountState::Trying { index, elevated } && index
                    >= self.mount_points@.len()),
                Some(Err(e)) => self.state matches UnmountState::Failed { index } && e.says(
                    ErrorKind::Command,
                    unmount_failure_text(
                        if index < self.mount_points@.len() {
                            self.mount_points@[index as int]@
                        } else {
                            Seq::<char>::empty()
                        },
                        stderr@,
                    ),
                ),
                None => self.state matches UnmountState::Trying { index, elevated } && index
                    < self.mount_points@.len(),
            },
    {
        match self.state {
            UnmountState::Done => Some(Ok(())),
            UnmountState::Trying { index, elevated: _ } => {
                if index < self.mount_points.len() {
                    None
                } else {
                    Some(Ok(()))
                }
            },
            UnmountState::Failed { index } => {
                let mut text = String::from_str("Failed to unmount ");
                if index < self.mount_points.len() {
                    text.append(self.mount_points[index].as_str());
                }
                text.append(": ");
                text.append(stderr);
                Some(Err(PlatformError::Command(text)))
            },
        }
    }
}

/// A path names a device node when it begins with `/dev/`.
pub open spec fn is_device_node(path: Seq<char>) -> bool {
    has_prefix(path, "/dev/"@)
}

/// The path to open for raw access to the device at `device_path`: the
/// path itself, provided it names a device node.
pub fn raw_device_path(device_path: &str) -> (r: Result<String, PlatformError>)
    ensures
        match r {
            Ok(p) => is_device_node(device_path@) && p@ == device_path@,
            Err(e) => !is_device_node(device_path@) && e.says(
                ErrorKind::Permission,
                invalid_path_text(),
            ),
        },
{
    if str_starts_with(device_path, "/dev/") {
        Ok(device_path.to_owned())
    } else {
        Err(PlatformError::Permission(String::from_str("Invalid device path")))
    }
}

} // verus!
