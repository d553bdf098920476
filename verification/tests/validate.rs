use flasher::validate::{
    validate_bytes, validate_image, HeaderProbes, ImageFormat, ImageValidation,
};

fn image(len: usize) -> Vec<u8> {
    vec![0u8; len]
}

fn with_iso(mut data: Vec<u8>) -> Vec<u8> {
    data[32768] = 0x01;
    data[32769..32774].copy_from_slice(b"CD001");
    data
}

fn with_mbr(mut data: Vec<u8>) -> Vec<u8> {
    data[510] = 0x55;
    data[511] = 0xAA;
    data
}

fn with_gpt(mut data: Vec<u8>) -> Vec<u8> {
    data[512..520].copy_from_slice(b"EFI PART");
    data
}

const UNKNOWN_WARNING: &str = "Could not detect image format. File may not be a valid disk image.";
const TOO_SMALL: &str = "File is too small to be a valid disk image.";

#[test]
fn iso_descriptor_is_recognised() {
    let v = validate_bytes(&with_iso(image(40_000)), None);
    assert_eq!(
        v,
        ImageValidation {
            is_valid: true,
            format: "ISO 9660".to_string(),
            errors: vec![],
            warnings: vec![],
        }
    );
}

#[test]
fn iso_descriptor_type_byte_is_not_checked() {
    let mut data = with_iso(image(40_000));
    data[32768] = 0xFF;
    assert_eq!(validate_bytes(&data, None).format, "ISO 9660");
}

#[test]
fn iso_descriptor_at_the_very_end_of_the_file() {
    assert_eq!(validate_bytes(&with_iso(image(32774)), None).format, "ISO 9660");
    let mut short = image(32773);
    short[32768] = 0x01;
    short[32769..32773].copy_from_slice(b"CD00");
    assert_eq!(validate_bytes(&short, None).format, "Unknown");
}

#[test]
fn boot_signature_alone_is_mbr() {
    let v = validate_bytes(&with_mbr(image(600)), None);
    assert_eq!(
        v,
        ImageValidation {
            is_valid: true,
            format: "Disk Image (MBR)".to_string(),
            errors: vec![],
            warnings: vec![],
        }
    );
}

#[test]
fn gpt_header_wins_over_boot_signature() {
    let v = validate_bytes(&with_gpt(with_mbr(image(600))), None);
    assert_eq!(v.format, "Disk Image (GPT)");
    assert!(v.is_valid);
    assert!(v.warnings.is_empty());
    let alone = validate_bytes(&with_gpt(image(520)), None);
    assert_eq!(alone.format, "Disk Image (GPT)");
}

#[test]
fn iso_wins_over_gpt_and_mbr() {
    let v = validate_bytes(&with_iso(with_gpt(with_mbr(image(40_000)))), None);
    assert_eq!(v.format, "ISO 9660");
}

#[test]
fn no_signature_is_a_warning_only() {
    let v = validate_bytes(&image(4096), None);
    assert_eq!(
        v,
        ImageValidation {
            is_valid: true,
            format: "Unknown".to_string(),
            errors: vec![],
            warnings: vec![UNKNOWN_WARNING.to_string()],
        }
    );
}

#[test]
fn small_file_is_invalid() {
    let v = validate_bytes(&image(100), None);
    assert_eq!(
        v,
        ImageValidation {
            is_valid: false,
            format: "Unknown".to_string(),
            errors: vec![TOO_SMALL.to_string()],
            warnings: vec![UNKNOWN_WARNING.to_string()],
        }
    );
    assert!(!validate_bytes(&image(511), None).is_valid);
    assert!(validate_bytes(&image(512), None).is_valid);
}

#[test]
fn small_file_is_invalid_whatever_the_windows_hold() {
    let probes = HeaderProbes {
        iso: Some(b"\x01CD001".to_vec()),
        mbr: Some(vec![0x55, 0xAA]),
        gpt: Some(b"EFI PART".to_vec()),
    };
    let v = validate_image(100, None, &probes);
    assert!(!v.is_valid);
    assert_eq!(v.format, "ISO 9660");
    assert_eq!(v.errors, vec![TOO_SMALL.to_string()]);
    assert!(v.warnings.is_empty());
}

#[test]
fn image_larger_than_the_device_is_invalid() {
    let v = validate_bytes(&with_mbr(image(2048)), Some(1024));
    assert!(!v.is_valid);
    assert_eq!(v.format, "Disk Image (MBR)");
    assert_eq!(v.errors, vec!["Image size (2.0 KB) exceeds device capacity (1.0 KB)".to_string()]);
    let fits = validate_bytes(&with_mbr(image(2048)), Some(2048));
    assert!(fits.is_valid);
    assert!(fits.errors.is_empty());
}

#[test]
fn capacity_error_comes_before_size_error() {
    let v = validate_bytes(&image(100), Some(50));
    assert!(!v.is_valid);
    assert_eq!(
        v.errors,
        vec![
            "Image size (100 B) exceeds device capacity (50 B)".to_string(),
            TOO_SMALL.to_string(),
        ]
    );
}

#[test]
fn capacity_of_zero_is_a_capacity() {
    let v = validate_image(4096, Some(0), &HeaderProbes { iso: None, mbr: None, gpt: None });
    assert_eq!(v.errors, vec!["Image size (4.0 KB) exceeds device capacity (0 B)".to_string()]);
}

#[test]
fn unreadable_windows_hold_no_signature() {
    let probes = HeaderProbes { iso: None, mbr: None, gpt: None };
    assert_eq!(probes.detect_format(), ImageFormat::Unknown);
    let v = validate_image(1 << 30, None, &probes);
    assert!(v.is_valid);
    assert_eq!(v.format, "Unknown");
    assert_eq!(v.warnings, vec![UNKNOWN_WARNING.to_string()]);
}

#[test]
fn windows_of_the_wrong_length_hold_no_signature() {
    let probes = HeaderProbes {
        iso: Some(b"\x01CD001\x00".to_vec()),
        mbr: Some(vec![0x55, 0xAA, 0x00]),
        gpt: Some(b"EFI PAR".to_vec()),
    };
    assert_eq!(probes.detect_format(), ImageFormat::Unknown);
}

#[test]
fn windows_are_cut_from_the_right_offsets() {
    let mut data: Vec<u8> = (0..40_000u32).map(|i| (i % 251) as u8).collect();
    data.truncate(33_000);
    let probes = HeaderProbes::from_bytes(&data);
    assert_eq!(probes.iso, Some(data[32768..32774].to_vec()));
    assert_eq!(probes.mbr, Some(data[510..512].to_vec()));
    assert_eq!(probes.gpt, Some(data[512..520].to_vec()));
    let short = HeaderProbes::from_bytes(&data[..515]);
    assert_eq!(short.iso, None);
    assert_eq!(short.mbr, Some(data[510..512].to_vec()));
    assert_eq!(short.gpt, None);
}

#[test]
fn format_names() {
    assert_eq!(ImageFormat::Unknown.name(), "Unknown");
    assert_eq!(ImageFormat::Iso9660.name(), "ISO 9660");
    assert_eq!(ImageFormat::Mbr.name(), "Disk Image (MBR)");
    assert_eq!(ImageFormat::Gpt.name(), "Disk Image (GPT)");
}
