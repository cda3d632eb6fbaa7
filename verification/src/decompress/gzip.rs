//! The single-stream compressor format, and the ambiguity it brings: the
//! same outer signature covers both a compressed tape archive and a
//! compressed single file.
//!
//! The stream is decompressed once; if the result is a readable tape
//! archive, the tape decoder's entries are returned, otherwise the whole
//! decompressed output is one entry named after the input path with the
//! compressor suffix stripped. The format carries no name metadata and no
//! encryption concept.

use vstd::prelude::*;

use crate::archive::{entries_model, DecodeError, EnclosedFile, EntryModel};
use crate::decompress::tar::{
    collect_tar_entries, slot_models, tar_entries, tar_scan, tar_scan_of, TarSlot, TarSlotModel,
};
use crate::text::{file_stem_of, file_stem_string};

verus! {

/// What decompressing a byte sequence as a gzip stream yields: the full
/// decompressed bytes, or nothing when the stream is malformed. A function
/// of the bytes alone.
pub uninterp spec fn gunzip_of(b: Seq<u8>) -> Option<Seq<u8>>;

/// Relies on flate2::read::GzDecoder: reading it to the end decompresses
/// the whole stream, and fails exactly on a malformed stream.
#[verifier::external_body]
fn gz_decode(data: &Vec<u8>) -> (r: Option<Vec<u8>>)
    ensures
        match r {
            Some(v) => gunzip_of(data@) == Some(v@),
            None => gunzip_of(data@) is None,
        },
{
    let mut gzd = flate2::read::GzDecoder::new(data.as_slice());
    let mut bytes = Vec::new();
    match std::io::Read::read_to_end(&mut gzd, &mut bytes) {
        Ok(_) => Some(bytes),
        Err(_) => None,
    }
}

/// Whether a tape scan shows a genuine tape archive: at least one slot
/// whose header parsed, and at least one slot that was fully read. A stream
/// that parses a header but reads no entry is not treated as a tape.
pub open spec fn is_tarball(t: Seq<TarSlotModel>) -> bool {
    (exists|i: int| 0 <= i < t.len() && !((#[trigger] t[i]) is BadHeader)) && (exists|i: int|
        0 <= i < t.len() && (#[trigger] t[i]) is Good)
}

fn slots_form_tarball(slots: &Vec<TarSlot>) -> (r: bool)
    ensures
        r == is_tarball(slot_models(slots@)),
{
    let ghost scan = slot_models(slots@);
    let mut has_parsed = false;
    let mut has_good = false;
    let mut i: usize = 0;
    let n = slots.len();
    while i < n
        invariant
            i <= n == slots@.len(),
            scan == slot_models(slots@),
            scan.len() == n,
            has_parsed == (exists|j: int| 0 <= j < i && !((#[trigger] scan[j]) is BadHeader)),
            has_good == (exists|j: int| 0 <= j < i && (#[trigger] scan[j]) is Good),
        decreases n - i,
    {
        match &slots[i] {
            TarSlot::BadHeader => {
                proof {
                    assert(scan[i as int] is BadHeader);
                }
            },
            TarSlot::BadRead { .. } => {
                proof {
                    assert(!(scan[i as int] is BadHeader));
                }
                has_parsed = true;
            },
            TarSlot::Good { .. } => {
                proof {
                    assert(scan[i as int] is Good);
                }
                has_parsed = true;
                has_good = true;
            },
        }
        i = i + 1;
    }
    has_parsed && has_good
}

/// What decoding `b` as a gzip container yields, for an input that came
/// from a path whose characters are `path`: the decode fails only on a
/// malformed stream; a decompressed tape archive contributes its own
/// entries, and any other decompressed output is a single entry named by
/// the path's stem.
pub open spec fn gzip_decode_spec(b: Seq<u8>, path: Seq<char>) -> Result<
    Seq<EntryModel>,
    DecodeError,
> {
    match gunzip_of(b) {
        None => Err(DecodeError::BadArchive),
        Some(inner) => if is_tarball(tar_scan_of(inner)) {
            Ok(tar_entries(tar_scan_of(inner)))
        } else {
            Ok(seq![EntryModel { path: file_stem_of(path), bytes: inner }])
        },
    }
}

/// Decode a gzip container found at `path`, given its bytes.
pub fn get_files_from_gzip_or_tarball(path: &String, data: &Vec<u8>) -> (r: Result<
    Vec<EnclosedFile>,
    DecodeError,
>)
    ensures
        r is Ok <==> gzip_decode_spec(data@, path@) is Ok,
        r matches Ok(v) ==> gzip_decode_spec(data@, path@) == Ok::<_, DecodeError>(
            entries_model(v@),
        ),
        r matches Err(e) ==> gzip_decode_spec(data@, path@) == Err::<Seq<EntryModel>, _>(e),
{
    match gz_decode(data) {
        None => Err(DecodeError::BadArchive),
        Some(inner) => {
            let slots = tar_scan(&inner);
            if slots_form_tarball(&slots) {
                Ok(collect_tar_entries(slots))
            } else {
                let stem = file_stem_string(path);
                let file = EnclosedFile { path: stem, bytes: inner };
                proof {
                    assert(file.model() == EntryModel {
                        path: file_stem_of(path@),
                        bytes: file.bytes@,
                    });
                }
                let mut out: Vec<EnclosedFile> = Vec::new();
                out.push(file);
                proof {
                    assert(entries_model(out@) =~= seq![out@[0].model()]);
                }
                Ok(out)
            }
        },
    }
}

/// A compressed single file (the decompressed stream is not a readable tape
/// archive) decodes to exactly one entry: the full decompressed bytes,
/// named by the path's final segment with the compressor suffix stripped.
pub proof fn lemma_gzip_single_file(b: Seq<u8>, path: Seq<char>)
    requires
        gunzip_of(b) is Some,
        !is_tarball(tar_scan_of(gunzip_of(b).unwrap())),
    ensures
        gzip_decode_spec(b, path) == Ok::<_, DecodeError>(
            seq![EntryModel { path: file_stem_of(path), bytes: gunzip_of(b).unwrap() }],
        ),
{
}

/// A compressed tape archive decodes to the tape's own entries, never to
/// one entry holding the raw decompressed tape bytes.
pub proof fn lemma_gzip_tarball(b: Seq<u8>, path: Seq<char>)
    requires
        gunzip_of(b) is Some,
        is_tarball(tar_scan_of(gunzip_of(b).unwrap())),
    ensures
        gzip_decode_spec(b, path) == Ok::<_, DecodeError>(
            tar_entries(tar_scan_of(gunzip_of(b).unwrap())),
        ),
{
}

} // verus!
