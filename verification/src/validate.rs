//! Image validation: signature probes and size checks.
//!
//! A disk image is recognised by magic bytes at fixed offsets. The caller
//! reads three small windows of the file and hands over what it got; a
//! window that could not be read counts as holding no signature.

use vstd::prelude::*;
use vstd::slice::{slice_subrange, slice_to_vec};
use crate::text::texts;
use crate::size::{push_size, size_text};

verus! {

/// Offset of the window probed for ISO 9660: the primary volume
/// descriptor at sector 16.
pub const ISO_OFFSET: usize = 32768;

/// Length of the ISO 9660 window: the descriptor type and the standard
/// identifier.
pub const ISO_WINDOW: usize = 6;

/// Offset of the boot signature of a master boot record.
pub const MBR_OFFSET: usize = 510;

/// Length of the boot signature.
pub const MBR_WINDOW: usize = 2;

/// Offset of the GPT header signature, at the second 512-byte sector.
pub const GPT_OFFSET: usize = 512;

/// Length of the GPT header signature.
pub const GPT_WINDOW: usize = 8;

/// Smallest size of a bootable image: one boot sector.
pub const MIN_IMAGE_SIZE: u64 = 512;

/// The disk-image formats told apart.
#[derive(Debug, Clone, Copy, PartialEq, Eq, Structural)]
pub enum ImageFormat {
    Unknown,
    Iso9660,
    Mbr,
    Gpt,
}

impl ImageFormat {
    /// The name reported for the format.
    pub open spec fn label(self) -> Seq<char> {
        match self {
            ImageFormat::Unknown => "Unknown"@,
            ImageFormat::Iso9660 => "ISO 9660"@,
            ImageFormat::Mbr => "Disk Image (MBR)"@,
            ImageFormat::Gpt => "Disk Image (GPT)"@,
        }
    }

    /// The name reported for the format.
    pub fn name(self) -> (s: String)
        ensures
            s@ == self.label(),
    {
        match self {
            ImageFormat::Unknown => String::from_str("Unknown"),
            ImageFormat::Iso9660 => String::from_str("ISO 9660"),
            ImageFormat::Mbr => String::from_str("Disk Image (MBR)"),
            ImageFormat::Gpt => String::from_str("Disk Image (GPT)"),
        }
    }
}

/// The bytes `CD001`.
pub open spec fn iso_magic() -> Seq<u8> {
    seq![0x43u8, 0x44u8, 0x30u8, 0x30u8, 0x31u8]
}

/// The bytes `55 AA`.
pub open spec fn mbr_magic() -> Seq<u8> {
    seq![0x55u8, 0xAAu8]
}

/// The bytes `EFI PART`.
pub open spec fn gpt_magic() -> Seq<u8> {
    seq![0x45u8, 0x46u8, 0x49u8, 0x20u8, 0x50u8, 0x41u8, 0x52u8, 0x54u8]
}

/// An ISO 9660 window holds the signature when its bytes 1 to 5 spell
/// `CD001`; the descriptor type in byte 0 is not looked at.
pub open spec fn holds_iso(window: Option<Seq<u8>>) -> bool {
    window matches Some(w) && w.len() == ISO_WINDOW && w.subrange(1, 6) == iso_magic()
}

/// A boot-signature window holds the signature when it is `55 AA`.
pub open spec fn holds_mbr(window: Option<Seq<u8>>) -> bool {
    window matches Some(w) && w == mbr_magic()
}

/// A GPT window holds the signature when it spells `EFI PART`.
pub open spec fn holds_gpt(window: Option<Seq<u8>>) -> bool {
    window matches Some(w) && w == gpt_magic()
}

/// The format the three windows stand for. ISO 9660 wins over everything;
/// otherwise a GPT header wins over the protective boot record in front of
/// it.
pub open spec fn detect(iso: Option<Seq<u8>>, mbr: Option<Seq<u8>>, gpt: Option<Seq<u8>>)
    -> ImageFormat {
    if holds_iso(iso) {
        ImageFormat::Iso9660
    } else if holds_gpt(gpt) {
        ImageFormat::Gpt
    } else if holds_mbr(mbr) {
        ImageFormat::Mbr
    } else {
        ImageFormat::Unknown
    }
}

/// The window of `len` bytes at `offset` of a file with the given content:
/// absent when the file ends before the window does.
pub open spec fn window_at(content: Seq<u8>, offset: int, len: int) -> Option<Seq<u8>> {
    if offset + len <= content.len() {
        Some(content.subrange(offset, offset + len))
    } else {
        None
    }
}

/// The format of a file with the given content.
pub open spec fn format_of(content: Seq<u8>) -> ImageFormat {
    detect(
        window_at(content, ISO_OFFSET as int, ISO_WINDOW as int),
        window_at(content, MBR_OFFSET as int, MBR_WINDOW as int),
        window_at(content, GPT_OFFSET as int, GPT_WINDOW as int),
    )
}

/// What was read from the three probed windows of a file. A window is
/// absent when seeking to it or reading it in full failed.
#[derive(Debug, Clone, PartialEq, Eq)]
pub struct HeaderProbes {
    /// The [`ISO_WINDOW`] bytes at [`ISO_OFFSET`].
    pub iso: Option<Vec<u8>>,
    /// The [`MBR_WINDOW`] bytes at [`MBR_OFFSET`].
    pub mbr: Option<Vec<u8>>,
    /// The [`GPT_WINDOW`] bytes at [`GPT_OFFSET`].
    pub gpt: Option<Vec<u8>>,
}

/// The bytes of a window, if it is there.
pub open spec fn bytes_of(window: Option<Vec<u8>>) -> Option<Seq<u8>> {
    match window {
        Some(w) => Some(w@),
        None => None,
    }
}

/// Text of the finding for an image larger than the device it is meant
/// for.
pub open spec fn too_large_text(image: u64, capacity: u64) -> Seq<char> {
    "Image size ("@ + size_text(image as nat) + ") exceeds device capacity ("@ + size_text(
        capacity as nat,
    ) + ")"@
}

/// The finding for an image of `image` bytes and a device of
/// `capacity` bytes.
pub fn too_large_message(image: u64, capacity: u64) -> (m: String)
    ensures
        m@ == too_large_text(image, capacity),
{
    let mut m = String::from_str("Image size (");
    push_size(&mut m, image);
    m.append(") exceeds device capacity (");
    push_size(&mut m, capacity);
    m.append(")");
    m
}

/// Text of the warning for an image of no known format.
pub open spec fn unknown_format_text() -> Seq<char> {
    "Could not detect image format. File may not be a valid disk image."@
}

/// Text of the error for an image smaller than a boot sector.
pub open spec fn too_small_text() -> Seq<char> {
    "File is too small to be a valid disk image."@
}

/// The fatal findings for a file of `file_size` bytes meant for a device of
/// the given capacity, in the order they are reported: the image exceeds
/// the capacity, the image is smaller than a boot sector.
pub open spec fn fatal_findings(file_size: u64, device_size: Option<u64>) -> Seq<Seq<char>> {
    let oversized = if device_size matches Some(capacity) && file_size > capacity {
        seq![too_large_text(file_size, device_size->0)]
    } else {
        Seq::<Seq<char>>::empty()
    };
    let undersized = if file_size < MIN_IMAGE_SIZE {
        seq![too_small_text()]
    } else {
        Seq::<Seq<char>>::empty()
    };
    oversized + undersized
}

/// The warnings for an image of the given format.
pub open spec fn warnings_for(format: ImageFormat) -> Seq<Seq<char>> {
    if format == ImageFormat::Unknown {
        seq![unknown_format_text()]
    } else {
        Seq::<Seq<char>>::empty()
    }
}

/// The verdict on an image.
#[derive(Debug, Clone, PartialEq, Eq)]
pub struct ImageValidation {
    /// True when there is no fatal finding.
    pub is_valid: bool,
    /// Name of the detected format.
    pub format: String,
    /// Fatal findings.
    pub errors: Vec<String>,
    /// Findings that do not make the image invalid.
    pub warnings: Vec<String>,
}

impl ImageValidation {
    /// The image is valid exactly when no fatal finding was recorded.
    pub open spec fn wf(&self) -> bool {
        self.is_valid == (self.errors@.len() == 0)
    }

    /// The verdict is the one for a file of `file_size` bytes of the given
    /// format, meant for a device of the given capacity.
    pub open spec fn is_verdict(
        &self,
        file_size: u64,
        device_size: Option<u64>,
        format: ImageFormat,
    ) -> bool {
        &&& self.format@ == format.label()
        &&& texts(self.errors@) == fatal_findings(file_size, device_size)
        &&& texts(self.warnings@) == warnings_for(format)
        &&& self.is_valid == (fatal_findings(file_size, device_size).len() == 0)
        &&& self.wf()
    }
}

/// An image smaller than a boot sector is invalid whatever its windows
/// hold, an image larger than the device it is meant for is invalid and its
/// first finding says so, and warnings never make an image invalid: with
/// neither fault there is no fatal finding.
pub proof fn lemma_fatal_findings(file_size: u64, device_size: Option<u64>)
    ensures
        file_size < MIN_IMAGE_SIZE ==> fatal_findings(file_size, device_size).len() > 0
            && fatal_findings(file_size, device_size).last() == too_small_text(),
        device_size matches Some(capacity) && file_size > capacity ==> fatal_findings(
            file_size,
            device_size,
        ).len() > 0 && fatal_findings(file_size, device_size)[0] == too_large_text(
            file_size,
            device_size->0,
        ),
        file_size >= MIN_IMAGE_SIZE && !(device_size matches Some(capacity) && file_size
            > capacity) ==> fatal_findings(file_size, device_size).len() == 0,
{
}

/// A GPT header is recognised even behind a boot signature, and an ISO
/// 9660 descriptor hides both.
pub proof fn lemma_format_precedence(
    iso: Option<Seq<u8>>,
    mbr: Option<Seq<u8>>,
    gpt: Option<Seq<u8>>,
)
    ensures
        holds_iso(iso) ==> detect(iso, mbr, gpt) == ImageFormat::Iso9660,
        !holds_iso(iso) && holds_gpt(gpt) ==> detect(iso, mbr, gpt) == ImageFormat::Gpt,
        !holds_iso(iso) && !holds_gpt(gpt) && holds_mbr(mbr) ==> detect(iso, mbr, gpt)
            == ImageFormat::Mbr,
        !holds_iso(iso) && !holds_gpt(gpt) && !holds_mbr(mbr) ==> detect(iso, mbr, gpt)
            == ImageFormat::Unknown,
{
}

/// What the content of a file decides. `CD001` at offset 32769 makes an
/// ISO 9660 image whatever else the file holds. In a file without it,
/// `EFI PART` at offset 512 makes a GPT image even behind a boot
/// signature, and `55 AA` at offset 510 alone makes an MBR image.
pub proof fn lemma_format_by_content(content: Seq<u8>)
    ensures
        content.len() >= 32774 && content.subrange(32769, 32774) == iso_magic() ==> format_of(
            content,
        ) == ImageFormat::Iso9660,
        !(content.len() >= 32774 && content.subrange(32769, 32774) == iso_magic())
            && content.len() >= 520 && content.subrange(512, 520) == gpt_magic() ==> format_of(
            content,
        ) == ImageFormat::Gpt,
        !(content.len() >= 32774 && content.subrange(32769, 32774) == iso_magic()) && !(
        content.len() >= 520 && content.subrange(512, 520) == gpt_magic()) && content.len() >= 512
            && content.subrange(510, 512) == mbr_magic() ==> format_of(content)
            == ImageFormat::Mbr,
{
    if content.len() >= 32774 {
        assert(content.subrange(32768, 32774).subrange(1, 6) =~= content.subrange(32769, 32774));
    }
}

fn window_holds_iso(window: &Option<Vec<u8>>) -> (b: bool)
    ensures
        b == holds_iso(bytes_of(*window)),
{
    match window {
        Some(w) => {
            let found = w.len() == 6 && w[1] == 0x43 && w[2] == 0x44 && w[3] == 0x30 && w[4] == 0x30
                && w[5] == 0x31;
            proof {
                if found {
                    assert(w@.subrange(1, 6) =~= iso_magic());
                }
            }
            found
        },
        None => false,
    }
}

fn window_holds_mbr(window: &Option<Vec<u8>>) -> (b: bool)
    ensures
        b == holds_mbr(bytes_of(*window)),
{
    match window {
        Some(w) => {
            let found = w.len() == 2 && w[0] == 0x55 && w[1] == 0xAA;
            proof {
                if found {
                    assert(w@ =~= mbr_magic());
                }
            }
            found
        },
        None => false,
    }
}

fn window_holds_gpt(window: &Option<Vec<u8>>) -> (b: bool)
    ensures
        b == holds_gpt(bytes_of(*window)),
{
    match window {
        Some(w) => {
            let found = w.len() == 8 && w[0] == 0x45 && w[1] == 0x46 && w[2] == 0x49 && w[3] == 0x20
                && w[4] == 0x50 && w[5] == 0x41 && w[6] == 0x52 && w[7] == 0x54;
            proof {
                if found {
                    assert(w@ =~= gpt_magic());
                }
            }
            found
        },
        None => false,
    }
}

fn copy_window(data: &[u8], offset: usize, len: usize) -> (w: Option<Vec<u8>>)
    requires
        offset + len <= usize::MAX,
    ensures
        bytes_of(w) == window_at(data@, offset as int, len as int),
{
    if data.len() >= offset + len {
        Some(slice_to_vec(slice_subrange(data, offset, offset + len)))
    } else {
        None
    }
}

impl HeaderProbes {
    /// The format the windows stand for.
    pub open spec fn format(&self) -> ImageFormat {
        detect(bytes_of(self.iso), bytes_of(self.mbr), bytes_of(self.gpt))
    }

    /// The windows of an image held in memory.
    pub fn from_bytes(data: &[u8]) -> (probes: HeaderProbes)
        ensures
            bytes_of(probes.iso) == window_at(data@, ISO_OFFSET as int, ISO_WINDOW as int),
            bytes_of(probes.mbr) == window_at(data@, MBR_OFFSET as int, MBR_WINDOW as int),
            bytes_of(probes.gpt) == window_at(data@, GPT_OFFSET as int, GPT_WINDOW as int),
            probes.format() == format_of(data@),
    {
        HeaderProbes {
            iso: copy_window(data, ISO_OFFSET, ISO_WINDOW),
            mbr: copy_window(data, MBR_OFFSET, MBR_WINDOW),
            gpt: copy_window(data, GPT_OFFSET, GPT_WINDOW),
        }
    }

    /// Tells the format the windows stand for.
    pub fn detect_format(&self) -> (format: ImageFormat)
        ensures
            format == self.format(),
    {
        if window_holds_iso(&self.iso) {
            ImageFormat::Iso9660
        } else if window_holds_gpt(&self.gpt) {
            ImageFormat::Gpt
        } else if window_holds_mbr(&self.mbr) {
            ImageFormat::Mbr
        } else {
            ImageFormat::Unknown
        }
    }
}

/// Judges an image of `file_size` bytes whose probed windows are `probes`,
/// meant for a device of `device_size` bytes if one is given.
pub fn validate_image(file_size: u64, device_size: Option<u64>, probes: &HeaderProbes) -> (v:
    ImageValidation)
    ensures
        v.is_verdict(file_size, device_size, probes.format()),
{
    let mut errors: Vec<String> = Vec::new();
    let mut warnings: Vec<String> = Vec::new();
    if let Some(capacity) = device_size {
        if file_size > capacity {
            errors.push(too_large_message(file_size, capacity));
        }
    }
    let format = probes.detect_format();
    if format == ImageFormat::Unknown {
        warnings.push(
            String::from_str("Could not detect image format. File may not be a valid disk image."),
        );
    }
    if file_size < MIN_IMAGE_SIZE {
        errors.push(String::from_str("File is too small to be a valid disk image."));
    }
    assert(texts(errors@) =~= fatal_findings(file_size, device_size));
    assert(texts(warnings@) =~= warnings_for(format));
    let is_valid = errors.len() == 0;
    ImageValidation { is_valid, format: format.name(), errors, warnings }
}

/// Judges an image held in memory.
pub fn validate_bytes(data: &[u8], device_size: Option<u64>) -> (v: ImageValidation)
    ensures
        v.is_verdict(data@.len() as u64, device_size, format_of(data@)),
{
    let probes = HeaderProbes::from_bytes(data);
    validate_image(data.len() as u64, device_size, &probes)
}

} // verus!
