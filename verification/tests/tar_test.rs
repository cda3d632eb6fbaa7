//! The tape decoder: round trips and its tolerance of corrupted slots.

use archive_hasher::decompress::tar::get_files_from_tar;

fn build_tar(entries: &[(&str, &[u8])]) -> Vec<u8> {
    let mut builder = tar::Builder::new(Vec::new());
    for (name, content) in entries {
        let mut header = tar::Header::new_gnu();
        header.set_size(content.len() as u64);
        header.set_cksum();
        builder.append_data(&mut header, *name, *content).unwrap();
    }
    builder.into_inner().unwrap()
}

#[test]
fn tape_round_trip_keeps_every_entry() {
    let data = build_tar(&[("a.txt", b"alpha"), ("dir/b.txt", b"beta bytes")]);
    let files = get_files_from_tar(&data);
    assert_eq!(files.len(), 2);
    assert_eq!(files[0].path.as_deref(), Some("a.txt"));
    assert_eq!(files[0].bytes, b"alpha".to_vec());
    assert_eq!(files[1].path.as_deref(), Some("dir/b.txt"));
    assert_eq!(files[1].bytes, b"beta bytes".to_vec());
    assert_eq!(files[1].name(), "b.txt");
}

#[test]
fn corrupted_slot_is_skipped_not_fatal() {
    // Two entries; then the second entry's header checksum field is
    // overwritten, so its slot no longer parses while the first stays valid.
    let mut data = build_tar(&[("a.txt", b"alpha"), ("b.txt", b"beta")]);
    // Layout: header a (0..512), data a (512..1024), header b (1024..1536).
    for byte in data[1024 + 148..1024 + 156].iter_mut() {
        *byte = b'z';
    }

    let files = get_files_from_tar(&data);
    assert_eq!(files.len(), 1);
    assert_eq!(files[0].path.as_deref(), Some("a.txt"));
    assert_eq!(files[0].bytes, b"alpha".to_vec());
}

#[test]
fn empty_tape_yields_no_entries() {
    let data = vec![0u8; 1024];
    let files = get_files_from_tar(&data);
    assert_eq!(files.len(), 0);
}

#[test]
fn garbage_bytes_yield_no_entries() {
    let data = b"this is not a tape archive at all".to_vec();
    let files = get_files_from_tar(&data);
    assert_eq!(files.len(), 0);
}
