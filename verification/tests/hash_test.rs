//! Digests: known values, determinism, shape of the hex output.

use archive_hasher::algo::HashAlgo;
use archive_hasher::archive::EnclosedFile;
use archive_hasher::hash::{get_hash_from_data, get_hash_from_enclosed_file};

#[test]
fn sha256_known_value() {
    let data = b"abc".to_vec();
    assert_eq!(
        get_hash_from_data(&data, &HashAlgo::Sha256),
        "ba7816bf8f01cfea414140de5dae2223b00361a396177a9cb410ff61f20015ad"
    );
}

#[test]
fn sha256_of_empty_input() {
    let data = Vec::new();
    assert_eq!(
        get_hash_from_data(&data, &HashAlgo::Sha256),
        "e3b0c44298fc1c149afbf4c8996fb92427ae41e4649b934ca495991b7852b855"
    );
}

#[test]
fn sha1_known_value() {
    let data = b"abc".to_vec();
    assert_eq!(
        get_hash_from_data(&data, &HashAlgo::Sha1),
        "a9993e364706816aba3e25717850c26c9cd0d89d"
    );
}

#[test]
fn md5_known_value() {
    let data = b"abc".to_vec();
    assert_eq!(
        get_hash_from_data(&data, &HashAlgo::Md5),
        "900150983cd24fb0d6963f7d28e17f72"
    );
}

#[test]
fn sha256_is_deterministic_lowercase_hex_of_length_64() {
    let data = b"some arbitrary content \x00\x01\x02".to_vec();
    let first = get_hash_from_data(&data, &HashAlgo::Sha256);
    let second = get_hash_from_data(&data, &HashAlgo::Sha256);
    assert_eq!(first, second);
    assert_eq!(first.len(), 64);
    assert!(first.chars().all(|c| c.is_ascii_digit() || ('a'..='f').contains(&c)));
}

#[test]
fn enclosed_file_hash_uses_its_payload() {
    let file = EnclosedFile {
        path: Some("dir/a.txt".to_string()),
        bytes: b"abc".to_vec(),
    };
    assert_eq!(
        get_hash_from_enclosed_file(&file, &HashAlgo::Sha256),
        "ba7816bf8f01cfea414140de5dae2223b00361a396177a9cb410ff61f20015ad"
    );
    assert_eq!(file.name(), "a.txt");
}

#[test]
fn enclosed_file_name_cases() {
    let nameless = EnclosedFile { path: None, bytes: Vec::new() };
    assert_eq!(nameless.name(), "");

    let nested = EnclosedFile { path: Some("a/b/c.bin".to_string()), bytes: Vec::new() };
    assert_eq!(nested.name(), "c.bin");

    let dir_entry = EnclosedFile { path: Some("d/e/".to_string()), bytes: Vec::new() };
    assert_eq!(dir_entry.name(), "e");

    let bare = EnclosedFile { path: Some("plain".to_string()), bytes: Vec::new() };
    assert_eq!(bare.name(), "plain");
}

#[test]
fn enclosed_file_name_dot_segments() {
    // Dot segments follow the usual path rules: a current-directory segment
    // is passed over, and a final parent-directory segment names nothing.
    for (path, expected) in [
        ("..", ""),
        (".", ""),
        ("a/..", ""),
        ("a/.", "a"),
        ("./a", "a"),
        ("a/../b", "b"),
        ("...", "..."),
        (".hidden", ".hidden"),
    ] {
        let file = EnclosedFile { path: Some(path.to_string()), bytes: Vec::new() };
        assert_eq!(file.name(), expected, "path {path:?}");
    }
}
