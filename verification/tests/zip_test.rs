//! The indexed decoder: round trips, the encryption probe, and the
//! password protocol.

use std::io::Write;
use archive_hasher::archive::DecodeError;
use archive_hasher::decompress::zip::{
    get_bytes_from_zip_file, get_files_from_zip_archive, zip_archive_is_encrypted, ZipSlot,
};

fn build_zip(entries: &[(&str, &[u8])], password: Option<&str>) -> Vec<u8> {
    let mut writer = zip::ZipWriter::new(std::io::Cursor::new(Vec::new()));
    for (name, content) in entries {
        let options = zip::write::SimpleFileOptions::default();
        let options = match password {
            Some(pw) => options.with_aes_encryption(zip::AesMode::Aes256, pw),
            None => options,
        };
        writer.start_file(*name, options).unwrap();
        writer.write_all(content).unwrap();
    }
    writer.finish().unwrap().into_inner()
}

#[test]
fn indexed_round_trip_keeps_every_entry() {
    let data = build_zip(&[("a.txt", b"alpha"), ("dir/b.txt", b"beta bytes")], None);
    let files = get_files_from_zip_archive(&data, None).unwrap();
    assert_eq!(files.len(), 2);
    assert_eq!(files[0].path.as_deref(), Some("a.txt"));
    assert_eq!(files[0].bytes, b"alpha".to_vec());
    assert_eq!(files[1].path.as_deref(), Some("dir/b.txt"));
    assert_eq!(files[1].bytes, b"beta bytes".to_vec());
}

#[test]
fn empty_archive_decodes_to_no_entries() {
    let data = build_zip(&[], None);
    let files = get_files_from_zip_archive(&data, None).unwrap();
    assert_eq!(files.len(), 0);
}

#[test]
fn garbage_bytes_are_a_bad_archive() {
    let data = b"certainly not an indexed archive".to_vec();
    assert_eq!(
        get_files_from_zip_archive(&data, None),
        Err(DecodeError::BadArchive)
    );
}

#[test]
fn encryption_probe_tells_the_archives_apart() {
    let plain = build_zip(&[("a.txt", b"alpha")], None);
    let locked = build_zip(&[("a.txt", b"alpha")], Some("secret"));
    assert!(!zip_archive_is_encrypted(&plain));
    assert!(zip_archive_is_encrypted(&locked));
}

#[test]
fn encrypted_archive_asks_for_a_password() {
    let locked = build_zip(&[("a.txt", b"alpha")], Some("secret"));
    assert_eq!(
        get_files_from_zip_archive(&locked, None),
        Err(DecodeError::PasswordRequired)
    );
}

#[test]
fn wrong_password_is_reported_incorrect() {
    let locked = build_zip(&[("a.txt", b"alpha")], Some("secret"));
    let wrong = "not the password".to_string();
    assert_eq!(
        get_files_from_zip_archive(&locked, Some(&wrong)),
        Err(DecodeError::PasswordIncorrect)
    );
}

#[test]
fn correct_password_recovers_the_unencrypted_entry_set() {
    let entries: &[(&str, &[u8])] = &[("a.txt", b"alpha"), ("dir/b.txt", b"beta bytes")];
    let plain = build_zip(entries, None);
    let locked = build_zip(entries, Some("secret"));

    let expected = get_files_from_zip_archive(&plain, None).unwrap();
    let password = "secret".to_string();
    let recovered = get_files_from_zip_archive(&locked, Some(&password)).unwrap();

    assert_eq!(expected.len(), recovered.len());
    for (a, b) in expected.iter().zip(recovered.iter()) {
        assert_eq!(a.path, b.path);
        assert_eq!(a.bytes, b.bytes);
    }
}

#[test]
fn slot_payload_extraction() {
    let good = ZipSlot::Good {
        path: Some("a.txt".to_string()),
        bytes: vec![1, 2, 3],
    };
    assert_eq!(get_bytes_from_zip_file(good), vec![1, 2, 3]);
    assert_eq!(get_bytes_from_zip_file(ZipSlot::Failed), Vec::<u8>::new());
    assert_eq!(get_bytes_from_zip_file(ZipSlot::NeedsPassword), Vec::<u8>::new());
}
