//! One decoder per container format.
//!
//! Each decoder turns the bytes of a container into the entries it holds;
//! the gzip decoder also resolves the ambiguity between a compressed tape
//! archive and a compressed single file.

pub mod gzip;
pub mod sevenzip;
pub mod tarball;
pub mod tar;
pub mod zip;
