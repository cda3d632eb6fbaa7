//! Compressed tape archives under their older entry point.
//!
//! The gzip decoder already resolves whether a compressed stream wraps a
//! tape archive or a single file; this module keeps the tarball-named entry
//! point with the same behaviour.

use vstd::prelude::*;

use crate::archive::{entries_model, DecodeError, EnclosedFile, EntryModel};
use crate::decompress::gzip::{get_files_from_gzip_or_tarball, gzip_decode_spec};

verus! {

/// Decode a compressed tape archive (or compressed single file) found at
/// `path`, given its bytes; the same decode as the gzip entry point.
pub fn get_files_from_tarball(path: &String, data: &Vec<u8>) -> (r: Result<
    Vec<EnclosedFile>,
    DecodeError,
>)
    ensures
        r is Ok <==> gzip_decode_spec(data@, path@) is Ok,
        r matches Ok(v) ==> gzip_decode_spec(data@, path@) == Ok::<_, DecodeError>(
            entries_model(v@),
        ),
        r matches Err(e) ==> gzip_decode_spec(data@, path@) == Err::<Seq<EntryModel>, _>(e),
{
    get_files_from_gzip_or_tarball(path, data)
}

} // verus!
