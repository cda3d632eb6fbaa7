//! Content digests: cryptographic hash of a byte payload, hex-encoded.
//!
//! The hash primitives come from the platform; the hex rendering of their
//! output is specified and proved here. The result is always lowercase hex,
//! two digits per output byte.

use vstd::prelude::*;

use crate::algo::HashAlgo;
use crate::archive::EnclosedFile;
use crate::text::chars_to_string;

verus! {

/// The MD5 digest of a byte sequence.
pub uninterp spec fn md5_of(b: Seq<u8>) -> Seq<u8>;

/// The SHA-1 digest of a byte sequence.
pub uninterp spec fn sha1_of(b: Seq<u8>) -> Seq<u8>;

/// The SHA-256 digest of a byte sequence.
pub uninterp spec fn sha256_of(b: Seq<u8>) -> Seq<u8>;

/// Relies on md5::Md5 (with digest::Digest): the 16-byte MD5 digest, a
/// function of the input bytes alone.
#[verifier::external_body]
fn md5_bytes(data: &Vec<u8>) -> (r: Vec<u8>)
    ensures
        r@ == md5_of(data@),
        r@.len() == 16,
{
    <md5::Md5 as md5::Digest>::digest(data).to_vec()
}

/// Relies on sha1::Sha1 (with digest::Digest): the 20-byte SHA-1 digest, a
/// function of the input bytes alone.
#[verifier::external_body]
fn sha1_bytes(data: &Vec<u8>) -> (r: Vec<u8>)
    ensures
        r@ == sha1_of(data@),
        r@.len() == 20,
{
    <sha1::Sha1 as sha1::Digest>::digest(data).to_vec()
}

/// Relies on sha2::Sha256 (with digest::Digest): the 32-byte SHA-256 digest,
/// a function of the input bytes alone.
#[verifier::external_body]
fn sha256_bytes(data: &Vec<u8>) -> (r: Vec<u8>)
    ensures
        r@ == sha256_of(data@),
        r@.len() == 32,
{
    <sha2::Sha256 as sha2::Digest>::digest(data).to_vec()
}

/// The lowercase hex digit for a value below sixteen.
pub open spec fn hex_char(v: u8) -> char {
    if v < 10 {
        (48 + v) as char
    } else {
        (87 + v) as char
    }
}

/// Lowercase hex rendering of a byte sequence: two digits per byte, high
/// nibble first.
pub open spec fn hex_of(b: Seq<u8>) -> Seq<char>
    decreases b.len(),
{
    if b.len() == 0 {
        Seq::empty()
    } else {
        hex_of(b.drop_last()) + seq![hex_char(b.last() / 16), hex_char(b.last() % 16)]
    }
}

/// The hex rendering has two digits per byte and uses only the lowercase
/// digit alphabet.
pub proof fn lemma_hex_of_props(b: Seq<u8>)
    ensures
        hex_of(b).len() == 2 * b.len(),
        forall|i: int|
            0 <= i < hex_of(b).len() ==> (48 <= (#[trigger] hex_of(b)[i]) as u32 <= 57 || 97 <= hex_of(
                b,
            )[i] as u32 <= 102),
    decreases b.len(),
{
    if b.len() > 0 {
        lemma_hex_of_props(b.drop_last());
        assert(b.last() / 16 < 16);
        assert(b.last() % 16 < 16);
    }
}

fn hex_nibble(v: u8) -> (r: char)
    requires
        v < 16,
    ensures
        r == hex_char(v),
{
    if v < 10 {
        (48 + v) as char
    } else {
        (87 + v) as char
    }
}

/// Hex-encode a byte vector, lowercase, two digits per byte.
pub fn hex_encode(data: &Vec<u8>) -> (r: String)
    ensures
        r@ == hex_of(data@),
{
    let mut out: Vec<char> = Vec::new();
    let mut i: usize = 0;
    assert(data@.take(0) =~= Seq::empty());
    while i < data.len()
        invariant
            i <= data@.len(),
            out@ == hex_of(data@.take(i as int)),
        decreases data@.len() - i,
    {
        let byte = data[i];
        let hi = byte / 16;
        let lo = byte % 16;
        out.push(hex_nibble(hi));
        out.push(hex_nibble(lo));
        proof {
            let t = data@.take(i + 1);
            assert(t.drop_last() =~= data@.take(i as int));
            assert(t.last() == byte);
            assert(out@ =~= hex_of(data@.take(i + 1)));
        }
        i = i + 1;
    }
    assert(data@.take(data@.len() as int) =~= data@);
    chars_to_string(&out)
}

/// The digest bytes that `algo` yields on `b`.
pub open spec fn digest_of(b: Seq<u8>, algo: HashAlgo) -> Seq<u8> {
    match algo {
        HashAlgo::Md5 => md5_of(b),
        HashAlgo::Sha1 => sha1_of(b),
        HashAlgo::Sha256 => sha256_of(b),
    }
}

/// The byte width of the digest that `algo` produces.
pub open spec fn digest_width(algo: HashAlgo) -> nat {
    match algo {
        HashAlgo::Md5 => 16,
        HashAlgo::Sha1 => 20,
        HashAlgo::Sha256 => 32,
    }
}

/// Hex digest of a byte payload: a deterministic function of the bytes and
/// the algorithm, rendered as lowercase hex of the digest's native width.
pub fn get_hash_from_data(data: &Vec<u8>, algo: &HashAlgo) -> (r: String)
    ensures
        r@ == hex_of(digest_of(data@, *algo)),
        r@.len() == 2 * digest_width(*algo),
        forall|i: int|
            0 <= i < r@.len() ==> (48 <= (#[trigger] r@[i]) as u32 <= 57 || 97 <= r@[i] as u32
                <= 102),
{
    let digest = match algo {
        HashAlgo::Md5 => md5_bytes(data),
        HashAlgo::Sha1 => sha1_bytes(data),
        HashAlgo::Sha256 => sha256_bytes(data),
    };
    proof {
        lemma_hex_of_props(digest@);
    }
    hex_encode(&digest)
}

/// Hex digest of one extracted file's payload.
pub fn get_hash_from_enclosed_file(file: &EnclosedFile, algo: &HashAlgo) -> (r: String)
    ensures
        r@ == hex_of(digest_of(file.bytes@, *algo)),
        r@.len() == 2 * digest_width(*algo),
{
    get_hash_from_data(&file.bytes, algo)
}

} // verus!

