//! In-memory archive extraction with per-file content digests.
//!
//! Given the bytes of a container file, the crate classifies the container
//! format, decodes it into a list of logical files (an optional relative name
//! plus a byte payload), handles password-protected containers by reporting a
//! typed error that callers answer with a password, and computes a hex-encoded
//! cryptographic digest over each file's bytes.

pub mod algo;
pub mod archive;
pub mod decompress;
pub mod file;
pub mod hash;
pub mod text;
