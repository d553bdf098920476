//! macOS: removable devices as `diskutil` describes them in property
//! lists. The property lists are read by the `plist` crate.

use vstd::prelude::*;
use crate::device::{device_record, BlockDevice, DeviceView};
use crate::error::{ErrorKind, PlatformError};
use crate::platform::invalid_path_text;
use crate::text::{
    chars_of, contains_char, has_prefix, replace_all, replaced, starts_with, string_of, texts,
    without_prefix,
};

verus! {

/// `plist::Value`, a value of a property list. It is opaque here: what it
/// holds is known only through the functions below.
#[verifier::external_type_specification]
#[verifier::external_body]
pub struct ExValue(plist::Value);

/// `plist::Dictionary`, the dictionary of a property list, opaque as well.
#[verifier::external_type_specification]
#[verifier::external_body]
pub struct ExDictionary(plist::Dictionary);

/// What a byte sequence holds as a property list: the document's root
/// value, or the text of the reader's error.
pub uninterp spec fn plist_document(bytes: Seq<u8>) -> Result<plist::Value, Seq<char>>;

/// The dictionary a value is, if it is one.
pub uninterp spec fn dictionary_of(value: plist::Value) -> Option<plist::Dictionary>;

/// The value a dictionary holds under a key, if any.
pub uninterp spec fn entry_of(dictionary: plist::Dictionary, key: Seq<char>) -> Option<
    plist::Value,
>;

/// The items of a value, if it is an array.
pub uninterp spec fn items_of(value: plist::Value) -> Option<Seq<plist::Value>>;

/// The text of a value, if it is a string.
pub uninterp spec fn string_of_value(value: plist::Value) -> Option<Seq<char>>;

/// The number of a value, if it is an integer that fits 64 bits unsigned.
pub uninterp spec fn unsigned_of(value: plist::Value) -> Option<u64>;

/// The truth value of a value, if it is a boolean.
pub uninterp spec fn boolean_of(value: plist::Value) -> Option<bool>;

/// Reads a property list of any encoding.
///
/// Trusted: the outcome of `plist::from_bytes` for a `plist::Value`, with
/// an error turned into its text. It depends on the bytes alone.
#[verifier::external_body]
fn read_plist(bytes: &[u8]) -> (r: Result<plist::Value, String>)
    ensures
        match r {
            Ok(value) => plist_document(bytes@) == Ok::<plist::Value, Seq<char>>(value),
            Err(text) => plist_document(bytes@) == Err::<plist::Value, Seq<char>>(text@),
        },
{
    match plist::from_bytes::<plist::Value>(bytes) {
        Ok(value) => Ok(value),
        Err(e) => Err(format!("{}", e)),
    }
}

/// The dictionary a value is.
///
/// Trusted: what `plist::Value::as_dictionary` answers, which is the
/// dictionary inside a dictionary value and nothing for any other value.
#[verifier::external_body]
fn value_as_dictionary(value: &plist::Value) -> (r: Option<&plist::Dictionary>)
    ensures
        match r {
            Some(d) => dictionary_of(*value) == Some(*d),
            None => dictionary_of(*value) is None,
        },
{
    value.as_dictionary()
}

/// The value a dictionary holds under `key`.
///
/// Trusted: what `plist::Dictionary::get` answers, which depends on the
/// dictionary and the key alone.
#[verifier::external_body]
fn dictionary_get<'a>(dictionary: &'a plist::Dictionary, key: &str) -> (r: Option<
    &'a plist::Value,
>)
    ensures
        match r {
            Some(v) => entry_of(*dictionary, key@) == Some(*v),
            None => entry_of(*dictionary, key@) is None,
        },
{
    dictionary.get(key)
}

/// The items of an array value.
///
/// Trusted: what `plist::Value::as_array` answers, which is the vector
/// inside an array value and nothing for any other value.
#[verifier::external_body]
fn value_as_array(value: &plist::Value) -> (r: Option<&Vec<plist::Value>>)
    ensures
        match r {
            Some(items) => items_of(*value) == Some(items@),
            None => items_of(*value) is None,
        },
{
    value.as_array()
}

/// The text of a string value.
///
/// Trusted: what `plist::Value::as_string` answers, copied into a string of
/// its own: the text inside a string value and nothing for any other value.
#[verifier::external_body]
fn value_as_string(value: &plist::Value) -> (r: Option<String>)
    ensures
        match r {
            Some(s) => string_of_value(*value) == Some(s@),
            None => string_of_value(*value) is None,
        },
{
    value.as_string().map(str::to_owned)
}

/// The number of an integer value.
///
/// Trusted: what `plist::Value::as_unsigned_integer` answers: the number
/// inside an integer value if it fits 64 bits unsigned, else nothing.
#[verifier::external_body]
fn value_as_unsigned(value: &plist::Value) -> (r: Option<u64>)
    ensures
        r == unsigned_of(*value),
{
    value.as_unsigned_integer()
}

/// The truth value of a boolean value.
///
/// Trusted: what `plist::Value::as_boolean` answers: the truth value inside
/// a boolean value and nothing for any other value.
#[verifier::external_body]
fn value_as_boolean(value: &plist::Value) -> (r: Option<bool>)
    ensures
        r == boolean_of(*value),
{
    value.as_boolean()
}

/// The value under `key` of a document whose root is a dictionary.
pub open spec fn lookup(document: plist::Value, key: Seq<char>) -> Option<plist::Value> {
    match dictionary_of(document) {
        Some(d) => entry_of(d, key),
        None => None,
    }
}

/// The string under `key`, if there is one.
pub open spec fn text_at(document: plist::Value, key: Seq<char>) -> Option<Seq<char>> {
    match lookup(document, key) {
        Some(v) => string_of_value(v),
        None => None,
    }
}

/// The unsigned number under `key`, if there is one.
pub open spec fn unsigned_at(document: plist::Value, key: Seq<char>) -> Option<u64> {
    match lookup(document, key) {
        Some(v) => unsigned_of(v),
        None => None,
    }
}

/// The boolean under `key`, if there is one.
pub open spec fn boolean_at(document: plist::Value, key: Seq<char>) -> Option<bool> {
    match lookup(document, key) {
        Some(v) => boolean_of(v),
        None => None,
    }
}

fn find<'a>(document: &'a plist::Value, key: &str) -> (r: Option<&'a plist::Value>)
    ensures
        match r {
            Some(v) => lookup(*document, key@) == Some(*v),
            None => lookup(*document, key@) is None,
        },
{
    match value_as_dictionary(document) {
        Some(d) => dictionary_get(d, key),
        None => None,
    }
}

fn find_text(document: &plist::Value, key: &str) -> (r: Option<String>)
    ensures
        match r {
            Some(s) => text_at(*document, key@) == Some(s@),
            None => text_at(*document, key@) is None,
        },
{
    match find(document, key) {
        Some(v) => value_as_string(v),
        None => None,
    }
}

fn find_boolean(document: &plist::Value, key: &str) -> (r: Option<bool>)
    ensures
        r == boolean_at(*document, key@),
{
    match find(document, key) {
        Some(v) => value_as_boolean(v),
        None => None,
    }
}

fn find_unsigned(document: &plist::Value, key: &str) -> (r: Option<u64>)
    ensures
        r == unsigned_at(*document, key@),
{
    match find(document, key) {
        Some(v) => value_as_unsigned(v),
        None => None,
    }
}

/// A disk identifier names a slice of a disk, not a whole disk, when an
/// `s` follows the leading `disk` (as in `disk2s1`); an identifier of
/// another shape, when it holds an `s` at all.
pub open spec fn is_slice(id: Seq<char>) -> bool {
    if has_prefix(id, "disk"@) {
        id.skip("disk"@.len() as int).contains('s')
    } else {
        id.contains('s')
    }
}

/// Tells whether a disk identifier names a slice.
pub fn is_slice_id(id: &str) -> (b: bool)
    ensures
        b == is_slice(id@),
{
    let chars = chars_of(id);
    let prefix = chars_of("disk");
    if starts_with(chars.as_slice(), prefix.as_slice()) {
        let rest = vstd::slice::slice_subrange(chars.as_slice(), prefix.len(), chars.len());
        contains_char(rest, 's')
    } else {
        contains_char(chars.as_slice(), 's')
    }
}

/// The texts of the items of a list that are strings, in order.
pub open spec fn strings_among(items: Seq<plist::Value>) -> Seq<Seq<char>>
    decreases items.len(),
{
    if items.len() == 0 {
        Seq::<Seq<char>>::empty()
    } else {
        match string_of_value(items.last()) {
            Some(text) => strings_among(items.drop_last()).push(text),
            None => strings_among(items.drop_last()),
        }
    }
}

/// The disk identifiers a disk list names under `AllDisks`; none when the
/// list has another shape.
pub open spec fn named_disks(document: plist::Value) -> Seq<Seq<char>> {
    match lookup(document, "AllDisks"@) {
        Some(all) => match items_of(all) {
            Some(items) => strings_among(items),
            None => Seq::<Seq<char>>::empty(),
        },
        None => Seq::<Seq<char>>::empty(),
    }
}

/// The identifiers that name whole disks, in order.
pub open spec fn whole_disks(ids: Seq<Seq<char>>) -> Seq<Seq<char>>
    decreases ids.len(),
{
    if ids.len() == 0 {
        Seq::<Seq<char>>::empty()
    } else if is_slice(ids.last()) {
        whole_disks(ids.drop_last())
    } else {
        whole_disks(ids.drop_last()).push(ids.last())
    }
}

/// The identifiers of the whole disks a disk list names.
pub open spec fn listed_disks(document: plist::Value) -> Seq<Seq<char>> {
    whole_disks(named_disks(document))
}

fn disk_names(document: &plist::Value) -> (ids: Vec<String>)
    ensures
        texts(ids@) == named_disks(*document),
{
    let mut ids: Vec<String> = Vec::new();
    let items = match find(document, "AllDisks") {
        Some(all) => match value_as_array(all) {
            Some(items) => items,
            None => return ids,
        },
        None => return ids,
    };
    let mut i: usize = 0;
    while i < items.len()
        invariant
            i <= items@.len(),
            texts(ids@) == strings_among(items@.take(i as int)),
        decreases items@.len() - i,
    {
        proof {
            assert(items@.take(i + 1).drop_last() =~= items@.take(i as int));
        }
        match value_as_string(&items[i]) {
            Some(id) => ids.push(id),
            None => {},
        }
        i += 1;
    }
    assert(items@.take(i as int) =~= items@);
    ids
}

/// Keeps the identifiers that name whole disks, in order.
pub fn whole_disk_ids(ids: Vec<String>) -> (whole: Vec<String>)
    ensures
        texts(whole@) == whole_disks(texts(ids@)),
{
    let mut whole: Vec<String> = Vec::new();
    let mut i: usize = 0;
    while i < ids.len()
        invariant
            i <= ids@.len(),
            texts(whole@) == whole_disks(texts(ids@).take(i as int)),
        decreases ids@.len() - i,
    {
        proof {
            assert(texts(ids@).take(i + 1).drop_last() =~= texts(ids@).take(i as int));
        }
        if !is_slice_id(ids[i].as_str()) {
            let id = ids[i].clone();
            whole.push(id);
        }
        i += 1;
    }
    assert(texts(ids@).take(i as int) =~= texts(ids@));
    whole
}

/// What listing the disks comes to, given whether `diskutil list` ended
/// well and what it printed.
pub open spec fn list_outcome(succeeded: bool, output: Seq<u8>) -> Result<
    Seq<Seq<char>>,
    (ErrorKind, Seq<char>),
> {
    if !succeeded {
        Err((ErrorKind::Command, "Failed to run diskutil"@))
    } else {
        match plist_document(output) {
            Ok(document) => Ok(listed_disks(document)),
            Err(text) => Err((ErrorKind::Parse, "Failed to parse diskutil output: "@ + text)),
        }
    }
}

/// The identifiers of the external whole disks, from the outcome of
/// `diskutil list -plist external physical`.
pub fn list_disk_ids(succeeded: bool, output: &[u8]) -> (r: Result<Vec<String>, PlatformError>)
    ensures
        match r {
            Ok(ids) => list_outcome(succeeded, output@) == Ok::<
                Seq<Seq<char>>,
                (ErrorKind, Seq<char>),
            >(texts(ids@)),
            Err(e) => list_outcome(succeeded, output@) == Err::<
                Seq<Seq<char>>,
                (ErrorKind, Seq<char>),
            >((e.kind(), e.detail())),
        },
{
    if !succeeded {
        return Err(PlatformError::Command(String::from_str("Failed to run diskutil")));
    }
    match read_plist(output) {
        Ok(document) => Ok(whole_disk_ids(disk_names(&document))),
        Err(text) => Err(
            PlatformError::Parse(
                String::from_str("Failed to parse diskutil output: ").concat(text.as_str()),
            ),
        ),
    }
}

/// What a disk description says of a disk, as far as it matters here. A
/// field is absent when the description lacks it or gives it another type.
#[derive(Debug, Clone, PartialEq, Eq)]
pub struct DiskFields {
    /// `MediaName`.
    pub media_name: Option<String>,
    /// `IORegistryEntryName`.
    pub registry_name: Option<String>,
    /// `TotalSize`, in bytes.
    pub total_size: Option<u64>,
    /// `Removable`.
    pub removable: Option<bool>,
    /// `RemovableMedia`.
    pub removable_media: Option<bool>,
    /// `MountPoint`.
    pub mount_point: Option<String>,
}

/// The characters of a text that may be absent.
pub open spec fn text_of(text: Option<String>) -> Option<Seq<char>> {
    match text {
        Some(t) => Some(t@),
        None => None,
    }
}

/// The label of a disk: its media name, else its registry entry name,
/// else its identifier.
pub open spec fn name_from(
    media_name: Option<Seq<char>>,
    registry_name: Option<Seq<char>>,
    disk_id: Seq<char>,
) -> Seq<char> {
    match media_name {
        Some(name) => name,
        None => match registry_name {
            Some(name) => name,
            None => disk_id,
        },
    }
}

/// The capacity of a disk; zero when the description gives none.
pub open spec fn size_from(total_size: Option<u64>) -> u64 {
    match total_size {
        Some(n) => n,
        None => 0,
    }
}

/// A disk is removable when the description says so of the disk or of its
/// media.
pub open spec fn removable_from(removable: Option<bool>, removable_media: Option<bool>) -> bool {
    removable == Some(true) || removable_media == Some(true)
}

/// The mount point of a disk, if the description names a non-empty one.
pub open spec fn mounts_from(mount_point: Option<Seq<char>>) -> Seq<Seq<char>> {
    match mount_point {
        Some(m) => if m.len() == 0 {
            Seq::<Seq<char>>::empty()
        } else {
            seq![m]
        },
        None => Seq::<Seq<char>>::empty(),
    }
}

/// The record of the disk `disk_id` with the given fields.
pub open spec fn record_of(disk_id: Seq<char>, fields: DiskFields) -> DeviceView {
    device_record(
        "/dev/"@ + disk_id,
        name_from(text_of(fields.media_name), text_of(fields.registry_name), disk_id),
        size_from(fields.total_size),
        removable_from(fields.removable, fields.removable_media),
        mounts_from(text_of(fields.mount_point)),
    )
}

/// The record of the disk a description is about.
pub open spec fn disk_record(document: plist::Value, disk_id: Seq<char>) -> DeviceView {
    device_record(
        "/dev/"@ + disk_id,
        name_from(
            text_at(document, "MediaName"@),
            text_at(document, "IORegistryEntryName"@),
            disk_id,
        ),
        size_from(unsigned_at(document, "TotalSize"@)),
        removable_from(boolean_at(document, "Removable"@), boolean_at(document, "RemovableMedia"@)),
        mounts_from(text_at(document, "MountPoint"@)),
    )
}

/// The device record of the disk `disk_id` with the given fields.
pub fn disk_from_fields(disk_id: &str, fields: DiskFields) -> (device: BlockDevice)
    ensures
        device@ == record_of(disk_id@, fields),
        device.wf(),
{
    let path = String::from_str("/dev/").concat(disk_id);
    let name = match fields.media_name {
        Some(name) => name,
        None => match fields.registry_name {
            Some(name) => name,
            None => disk_id.to_owned(),
        },
    };
    let size = match fields.total_size {
        Some(n) => n,
        None => 0,
    };
    let removable = match fields.removable {
        Some(b) => b,
        None => false,
    } || match fields.removable_media {
        Some(b) => b,
        None => false,
    };
    let mut mount_points: Vec<String> = Vec::new();
    match fields.mount_point {
        Some(m) => {
            if !m.as_str().is_empty() {
                mount_points.push(m);
            }
        },
        None => {},
    }
    assert(texts(mount_points@) =~= mounts_from(text_of(fields.mount_point)));
    BlockDevice::new(path, name, size, removable, mount_points)
}

fn read_fields(document: &plist::Value) -> (fields: DiskFields)
    ensures
        text_of(fields.media_name) == text_at(*document, "MediaName"@),
        text_of(fields.registry_name) == text_at(*document, "IORegistryEntryName"@),
        fields.total_size == unsigned_at(*document, "TotalSize"@),
        fields.removable == boolean_at(*document, "Removable"@),
        fields.removable_media == boolean_at(*document, "RemovableMedia"@),
        text_of(fields.mount_point) == text_at(*document, "MountPoint"@),
{
    DiskFields {
        media_name: find_text(document, "MediaName"),
        registry_name: find_text(document, "IORegistryEntryName"),
        total_size: find_unsigned(document, "TotalSize"),
        removable: find_boolean(document, "Removable"),
        removable_media: find_boolean(document, "RemovableMedia"),
        mount_point: find_text(document, "MountPoint"),
    }
}

/// What describing a disk comes to, given whether `diskutil info` ended
/// well and what it printed.
pub open spec fn info_outcome(disk_id: Seq<char>, succeeded: bool, output: Seq<u8>) -> Result<
    DeviceView,
    (ErrorKind, Seq<char>),
> {
    if !succeeded {
        Err((ErrorKind::Command, "Failed to get info for "@ + disk_id))
    } else {
        match plist_document(output) {
            Ok(document) => if dictionary_of(document) is Some {
                Ok(disk_record(document, disk_id))
            } else {
                Err((ErrorKind::Parse, "Invalid disk info format"@))
            },
            Err(text) => Err((ErrorKind::Parse, "Failed to parse disk info: "@ + text)),
        }
    }
}

/// Describes the disk `disk_id` from the outcome of
/// `diskutil info -plist <disk_id>`.
pub fn get_disk_info(disk_id: &str, succeeded: bool, output: &[u8]) -> (r: Result<
    BlockDevice,
    PlatformError,
>)
    ensures
        match r {
            Ok(device) => info_outcome(disk_id@, succeeded, output@) == Ok::<
                DeviceView,
                (ErrorKind, Seq<char>),
            >(device@) && device.wf(),
            Err(e) => info_outcome(disk_id@, succeeded, output@) == Err::<
                DeviceView,
                (ErrorKind, Seq<char>),
            >((e.kind(), e.detail())),
        },
{
    if !succeeded {
        return Err(
            PlatformError::Command(String::from_str("Failed to get info for ").concat(disk_id)),
        );
    }
    match read_plist(output) {
        Ok(document) => {
            if value_as_dictionary(&document).is_some() {
                Ok(disk_from_fields(disk_id, read_fields(&document)))
            } else {
                Err(PlatformError::Parse(String::from_str("Invalid disk info format")))
            }
        },
        Err(text) => Err(
            PlatformError::Parse(
                String::from_str("Failed to parse disk info: ").concat(text.as_str()),
            ),
        ),
    }
}

/// The device to offer for a described disk: the disk itself when it was
/// described, is removable and has a known capacity; none otherwise.
pub fn listed_device(info: Result<BlockDevice, PlatformError>) -> (d: Option<BlockDevice>)
    ensures
        match d {
            Some(device) => info == Ok::<BlockDevice, PlatformError>(device) && device.removable
                && device.size > 0,
            None => !(info matches Ok(device) && device.removable && device.size > 0),
        },
{
    match info {
        Ok(device) => {
            if device.removable && device.size > 0 {
                Some(device)
            } else {
                None
            }
        },
        Err(_) => None,
    }
}

/// The disk identifier of a device path: what follows `/dev/`.
pub fn disk_id_of(device_path: &str) -> (r: Result<String, PlatformError>)
    ensures
        match r {
            Ok(id) => without_prefix(device_path@, "/dev/"@) == Some(id@),
            Err(e) => without_prefix(device_path@, "/dev/"@) is None && e.says(
                ErrorKind::Parse,
                invalid_path_text(),
            ),
        },
{
    let chars = chars_of(device_path);
    let prefix = chars_of("/dev/");
    if starts_with(chars.as_slice(), prefix.as_slice()) {
        let id = string_of(chars.as_slice(), prefix.len(), chars.len());
        Ok(id)
    } else {
        Err(PlatformError::Parse(String::from_str("Invalid device path")))
    }
}

/// The result of `diskutil unmountDisk`, given whether it ended well and
/// what it wrote to its error stream.
pub fn unmount_result(succeeded: bool, stderr: &str) -> (r: Result<(), PlatformError>)
    ensures
        match r {
            Ok(()) => succeeded,
            Err(e) => !succeeded && e.says(
                ErrorKind::Command,
                "Failed to unmount disk: "@ + stderr@,
            ),
        },
{
    if succeeded {
        Ok(())
    } else {
        Err(PlatformError::Command(String::from_str("Failed to unmount disk: ").concat(stderr)))
    }
}

/// The raw device node for a device path: a path of a buffered node
/// (`/dev/disk…`) with every `/dev/disk` turned into `/dev/rdisk`, a path
/// of a raw node (`/dev/rdisk…`) as it is, and none for any other path.
pub open spec fn raw_node_of(path: Seq<char>) -> Option<Seq<char>> {
    if has_prefix(path, "/dev/disk"@) {
        Some(replaced(path, "/dev/disk"@, "/dev/rdisk"@))
    } else if has_prefix(path, "/dev/rdisk"@) {
        Some(path)
    } else {
        None
    }
}

/// The path to open for raw access to the device at `device_path`.
pub fn raw_device_path(device_path: &str) -> (r: Result<String, PlatformError>)
    ensures
        match r {
            Ok(p) => raw_node_of(device_path@) == Some(p@),
            Err(e) => raw_node_of(device_path@) is None && e.says(
                ErrorKind::Permission,
                invalid_path_text(),
            ),
        },
{
    let chars = chars_of(device_path);
    let buffered = chars_of("/dev/disk");
    let raw = chars_of("/dev/rdisk");
    if starts_with(chars.as_slice(), buffered.as_slice()) {
        let out = replace_all(chars.as_slice(), buffered.as_slice(), raw.as_slice());
        let p = string_of(out.as_slice(), 0, out.len());
        Ok(p)
    } else if starts_with(chars.as_slice(), raw.as_slice()) {
        Ok(device_path.to_owned())
    } else {
        Err(PlatformError::Permission(String::from_str("Invalid device path")))
    }
}

} // verus!
