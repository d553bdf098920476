use flasher::checksum::{to_hex, Algorithm, ChecksumStream, BUFFER_SIZE};

fn checksum(data: &[u8], selector: &str) -> Result<String, String> {
    let algorithm = Algorithm::parse(selector)?;
    let mut stream = ChecksumStream::new(algorithm);
    for block in data.chunks(BUFFER_SIZE) {
        stream.update(block);
    }
    Ok(stream.finish())
}

#[test]
fn sha256_of_known_messages() {
    assert_eq!(
        checksum(b"", "sha256").unwrap(),
        "e3b0c44298fc1c149afbf4c8996fb92427ae41e4649b934ca495991b7852b855"
    );
    assert_eq!(
        checksum(b"abc", "sha256").unwrap(),
        "ba7816bf8f01cfea414140de5dae2223b00361a396177a9cb410ff61f20015ad"
    );
}

#[test]
fn md5_of_known_messages() {
    assert_eq!(checksum(b"", "md5").unwrap(), "d41d8cd98f00b204e9800998ecf8427e");
    assert_eq!(checksum(b"abc", "md5").unwrap(), "900150983cd24fb0d6963f7d28e17f72");
    assert_eq!(
        checksum(b"The quick brown fox jumps over the lazy dog", "md5").unwrap(),
        "9e107d9d372bb6826bd81d3542a419d6"
    );
}

#[test]
fn selector_ignores_letter_case() {
    assert_eq!(Algorithm::parse("SHA256"), Ok(Algorithm::Sha256));
    assert_eq!(Algorithm::parse("Sha256"), Ok(Algorithm::Sha256));
    assert_eq!(Algorithm::parse("sha256"), Ok(Algorithm::Sha256));
    assert_eq!(Algorithm::parse("MD5"), Ok(Algorithm::Md5));
    assert_eq!(Algorithm::parse("md5"), Ok(Algorithm::Md5));
    assert_eq!(checksum(b"abc", "Md5").unwrap(), "900150983cd24fb0d6963f7d28e17f72");
}

#[test]
fn unsupported_selector_is_refused() {
    assert_eq!(Algorithm::parse("sha1"), Err("Unsupported algorithm: sha1".to_string()));
    assert_eq!(Algorithm::parse("SHA1"), Err("Unsupported algorithm: SHA1".to_string()));
    assert_eq!(Algorithm::parse(""), Err("Unsupported algorithm: ".to_string()));
    assert_eq!(Algorithm::parse("sha-256"), Err("Unsupported algorithm: sha-256".to_string()));
    assert_eq!(Algorithm::parse(" md5"), Err("Unsupported algorithm:  md5".to_string()));
}

#[test]
fn selector_from_lowercase_uses_the_lowercase_form_only() {
    assert_eq!(Algorithm::from_lowercase("sha256", "ShA256"), Ok(Algorithm::Sha256));
    assert_eq!(Algorithm::from_lowercase("md5", "anything"), Ok(Algorithm::Md5));
    assert_eq!(
        Algorithm::from_lowercase("SHA256", "SHA256"),
        Err("Unsupported algorithm: SHA256".to_string())
    );
}

#[test]
fn same_bytes_give_the_same_checksum() {
    let data: Vec<u8> = (0..10_000u32).map(|i| (i * 31 % 251) as u8).collect();
    assert_eq!(checksum(&data, "sha256"), checksum(&data, "sha256"));
    assert_eq!(checksum(&data, "md5"), checksum(&data, "md5"));
}

#[test]
fn different_bytes_give_different_checksums() {
    let data: Vec<u8> = (0..10_000u32).map(|i| (i * 31 % 251) as u8).collect();
    let mut other = data.clone();
    other[5_000] ^= 1;
    assert_ne!(checksum(&data, "sha256"), checksum(&other, "sha256"));
    assert_ne!(checksum(&data, "md5"), checksum(&other, "md5"));
    assert_ne!(checksum(&data, "md5"), checksum(&data, "sha256"));
}

#[test]
fn splitting_into_blocks_changes_nothing() {
    let data: Vec<u8> = (0..5_000u32).map(|i| (i * 7 % 256) as u8).collect();
    for algorithm in [Algorithm::Sha256, Algorithm::Md5] {
        let mut whole = ChecksumStream::new(algorithm);
        whole.update(&data);
        let expected = whole.finish();
        for size in [1usize, 3, 64, 1000, 4999] {
            let mut stream = ChecksumStream::new(algorithm);
            for block in data.chunks(size) {
                stream.update(block);
            }
            assert_eq!(stream.finish(), expected);
        }
        let mut with_empty = ChecksumStream::new(algorithm);
        with_empty.update(&[]);
        with_empty.update(&data);
        with_empty.update(&[]);
        assert_eq!(with_empty.finish(), expected);
    }
}

#[test]
fn digest_lengths() {
    assert_eq!(checksum(b"x", "sha256").unwrap().len(), 64);
    assert_eq!(checksum(b"x", "md5").unwrap().len(), 32);
}

#[test]
fn hex_is_lowercase_two_digits_per_byte() {
    assert_eq!(to_hex(&[]), "");
    assert_eq!(to_hex(&[0x00]), "00");
    assert_eq!(to_hex(&[0x0f, 0xf0, 0xab, 0x09, 0xff]), "0ff0ab09ff");
    assert_eq!(to_hex(&[0x1a, 0x2b, 0x3c, 0x4d, 0x5e, 0x6f]), "1a2b3c4d5e6f");
}

#[test]
fn buffer_is_eight_mebibytes() {
    assert_eq!(BUFFER_SIZE, 8 * 1024 * 1024);
}
