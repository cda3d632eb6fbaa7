//! Classification: supported kinds, rejection reasons, plain-text handling.

use std::io::Write;
use archive_hasher::archive::ArchiveType;
use archive_hasher::file::{archive_type, classify, path_invalid_reason, path_is_valid};

fn gzip_bytes(payload: &[u8]) -> Vec<u8> {
    let mut enc = flate2::write::GzEncoder::new(Vec::new(), flate2::Compression::default());
    enc.write_all(payload).unwrap();
    enc.finish().unwrap()
}

fn tar_bytes() -> Vec<u8> {
    let mut builder = tar::Builder::new(Vec::new());
    let mut header = tar::Header::new_gnu();
    header.set_size(5);
    header.set_cksum();
    builder.append_data(&mut header, "a.txt", &b"alpha"[..]).unwrap();
    builder.into_inner().unwrap()
}

fn zip_bytes() -> Vec<u8> {
    let mut writer = zip::ZipWriter::new(std::io::Cursor::new(Vec::new()));
    let options = zip::write::SimpleFileOptions::default();
    writer.start_file("a.txt", options).unwrap();
    writer.write_all(b"alpha").unwrap();
    writer.finish().unwrap().into_inner()
}

#[test]
fn missing_path_is_rejected() {
    let content: Option<Vec<u8>> = None;
    assert!(!path_is_valid(&content));
    assert_eq!(path_invalid_reason(&content), "path does not exist");
}

#[test]
fn plain_text_is_rejected_specifically() {
    let content = Some(b"hello world\nthis is ordinary text\n".to_vec());
    assert!(!path_is_valid(&content));
    assert_eq!(path_invalid_reason(&content), "file is plain text");
}

#[test]
fn undeterminable_content_is_rejected() {
    // Invalid UTF-8 with no recognizable signature.
    let content = Some(vec![0x00u8, 0xff, 0xfe, 0x01, 0x02, 0x03]);
    assert!(!path_is_valid(&content));
    assert_eq!(path_invalid_reason(&content), "cannot get file type");
}

#[test]
fn non_archive_type_is_rejected_with_mime() {
    let mut png = vec![0x89u8, 0x50, 0x4e, 0x47, 0x0d, 0x0a, 0x1a, 0x0a];
    png.extend_from_slice(&[0u8; 16]);
    let content = Some(png);
    assert!(!path_is_valid(&content));
    assert_eq!(path_invalid_reason(&content), "invalid file type \"image/png\"");
}

#[test]
fn unsupported_archive_kind_lists_supported_kinds() {
    // A bzip2 stream: an archive signature, but not a supported kind.
    let content = Some(vec![0x42u8, 0x5a, 0x68, 0x39, 0x31, 0x41, 0x59, 0x26, 0x53, 0x59]);
    assert!(!path_is_valid(&content));
    assert_eq!(
        path_invalid_reason(&content),
        "unsupported archive type \"application/x-bzip2\"; supported types: zip, 7zip, gzip, tar"
    );
}

#[test]
fn rejection_reasons_are_never_empty() {
    let candidates: Vec<Option<Vec<u8>>> = vec![
        None,
        Some(vec![0x42u8, 0x5a, 0x68, 0x39]),
        Some(vec![0x89u8, 0x50, 0x4e, 0x47, 0x0d, 0x0a, 0x1a, 0x0a, 0, 0]),
        Some(b"just text\n".to_vec()),
        Some(vec![0x00u8, 0xff]),
    ];
    for content in candidates {
        assert!(!path_is_valid(&content));
        assert!(!path_invalid_reason(&content).is_empty());
    }
}

#[test]
fn valid_archives_classify_with_their_kind() {
    let zip = zip_bytes();
    let tarb = tar_bytes();
    let gz = gzip_bytes(b"payload");
    let sz = vec![0x37u8, 0x7a, 0xbc, 0xaf, 0x27, 0x1c, 0, 4];

    for (bytes, kind) in [
        (zip, ArchiveType::Zip),
        (tarb, ArchiveType::Tar),
        (gz, ArchiveType::Gzip),
        (sz, ArchiveType::SevenZip),
    ] {
        let content = Some(bytes.clone());
        assert!(path_is_valid(&content));
        assert_eq!(path_invalid_reason(&content), "");
        assert_eq!(archive_type(&bytes), Some(kind));
    }
}

#[test]
fn classify_outcome_carries_reason_only_when_invalid() {
    let valid = classify(&Some(zip_bytes()));
    assert!(valid.is_valid);
    assert!(valid.reason.is_none());

    let invalid = classify(&None);
    assert!(!invalid.is_valid);
    assert_eq!(invalid.reason.unwrap(), "path does not exist");
}
