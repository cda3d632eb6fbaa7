//! Selection of the hashing algorithm used for content digests.

use vstd::prelude::*;

verus! {

/// Hashing algorithm applied to each extracted file's bytes.
#[derive(Clone, Copy, PartialEq, Eq, Structural, Debug)]
pub enum HashAlgo {
    Md5,
    Sha1,
    Sha256,
}

} // verus!
