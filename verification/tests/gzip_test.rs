//! The gzip decoder and its tape-archive ambiguity resolution.

use std::io::Write;
use archive_hasher::archive::DecodeError;
use archive_hasher::decompress::gzip::get_files_from_gzip_or_tarball;
use archive_hasher::decompress::tarball::get_files_from_tarball;

fn gzip_bytes(payload: &[u8]) -> Vec<u8> {
    let mut enc = flate2::write::GzEncoder::new(Vec::new(), flate2::Compression::default());
    enc.write_all(payload).unwrap();
    enc.finish().unwrap()
}

fn two_entry_tar() -> Vec<u8> {
    let mut builder = tar::Builder::new(Vec::new());
    let mut header = tar::Header::new_gnu();
    header.set_size(5);
    header.set_cksum();
    builder.append_data(&mut header, "a.txt", &b"alpha"[..]).unwrap();
    let mut header = tar::Header::new_gnu();
    header.set_size(4);
    header.set_cksum();
    builder.append_data(&mut header, "b.txt", &b"beta"[..]).unwrap();
    builder.into_inner().unwrap()
}

#[test]
fn single_file_gzip_yields_one_stem_named_entry() {
    let payload = b"not a tape archive, just some file content";
    let data = gzip_bytes(payload);
    let path = "some/dir/notes.txt.gz".to_string();

    let files = get_files_from_gzip_or_tarball(&path, &data).unwrap();
    assert_eq!(files.len(), 1);
    assert_eq!(files[0].path.as_deref(), Some("notes.txt"));
    assert_eq!(files[0].bytes, payload.to_vec());
    assert_eq!(files[0].name(), "notes.txt");
}

#[test]
fn compressed_tape_archive_yields_the_tape_entries() {
    let data = gzip_bytes(&two_entry_tar());
    let path = "fixtures/bundle.tar.gz".to_string();

    let files = get_files_from_gzip_or_tarball(&path, &data).unwrap();
    assert_eq!(files.len(), 2);
    assert_eq!(files[0].path.as_deref(), Some("a.txt"));
    assert_eq!(files[0].bytes, b"alpha".to_vec());
    assert_eq!(files[1].path.as_deref(), Some("b.txt"));
    assert_eq!(files[1].bytes, b"beta".to_vec());
}

#[test]
fn malformed_stream_is_a_bad_archive() {
    let data = vec![0x1fu8, 0x8b, 0xff, 0x00, 0x01];
    let path = "broken.gz".to_string();
    assert_eq!(
        get_files_from_gzip_or_tarball(&path, &data),
        Err(DecodeError::BadArchive)
    );
}

#[test]
fn empty_payload_keeps_the_stem_name() {
    let data = gzip_bytes(b"");
    let path = "only.gz".to_string();
    let files = get_files_from_gzip_or_tarball(&path, &data).unwrap();
    assert_eq!(files.len(), 1);
    assert_eq!(files[0].path.as_deref(), Some("only"));
    assert_eq!(files[0].bytes, Vec::<u8>::new());
}

#[test]
fn tarball_entry_point_matches_the_gzip_one() {
    let data = gzip_bytes(&two_entry_tar());
    let path = "bundle.tar.gz".to_string();
    let through_gzip = get_files_from_gzip_or_tarball(&path, &data).unwrap();
    let through_tarball = get_files_from_tarball(&path, &data).unwrap();
    assert_eq!(through_gzip.len(), through_tarball.len());
    for (a, b) in through_gzip.iter().zip(through_tarball.iter()) {
        assert_eq!(a.path, b.path);
        assert_eq!(a.bytes, b.bytes);
    }
}

#[test]
fn dot_segment_path_yields_a_nameless_entry() {
    // A path whose last segment names the parent directory has no stem.
    let data = gzip_bytes(b"content");
    let path = "..".to_string();
    let files = get_files_from_gzip_or_tarball(&path, &data).unwrap();
    assert_eq!(files.len(), 1);
    assert_eq!(files[0].path, None);
    assert_eq!(files[0].bytes, b"content".to_vec());
}

#[test]
fn pathless_input_yields_a_nameless_entry() {
    let data = gzip_bytes(b"content");
    let path = "".to_string();
    let files = get_files_from_gzip_or_tarball(&path, &data).unwrap();
    assert_eq!(files.len(), 1);
    assert_eq!(files[0].path, None);
    assert_eq!(files[0].name(), "");
    assert_eq!(files[0].bytes, b"content".to_vec());
}
