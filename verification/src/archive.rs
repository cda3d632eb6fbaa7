//! The shared shape of extraction: container kinds, extracted entries, and
//! the errors a decoder can report.

use vstd::prelude::*;

use crate::text::{chars_of, chars_to_string, file_name_chars};

verus! {

/// The supported container formats.
#[derive(Clone, Copy, PartialEq, Eq, Structural, Debug)]
pub enum ArchiveType {
    Zip,
    SevenZip,
    Gzip,
    Tar,
}

impl ArchiveType {
    /// The container kind whose canonical MIME signature is `mime`, if any.
    pub open spec fn kind_of_mime(mime: Seq<char>) -> Option<ArchiveType> {
        if mime == "application/zip"@ {
            Some(ArchiveType::Zip)
        } else if mime == "application/x-7z-compressed"@ {
            Some(ArchiveType::SevenZip)
        } else if mime == "application/gzip"@ {
            Some(ArchiveType::Gzip)
        } else if mime == "application/x-tar"@ {
            Some(ArchiveType::Tar)
        } else {
            None
        }
    }

    /// The container kind behind a MIME signature.
    pub fn from_mime(mime: &String) -> (r: Option<ArchiveType>)
        ensures
            r == Self::kind_of_mime(mime@),
    {
        let zip_mime: String = "application/zip".to_owned();
        let sz_mime: String = "application/x-7z-compressed".to_owned();
        let gz_mime: String = "application/gzip".to_owned();
        let tar_mime: String = "application/x-tar".to_owned();
        if *mime == zip_mime {
            Some(ArchiveType::Zip)
        } else if *mime == sz_mime {
            Some(ArchiveType::SevenZip)
        } else if *mime == gz_mime {
            Some(ArchiveType::Gzip)
        } else if *mime == tar_mime {
            Some(ArchiveType::Tar)
        } else {
            None
        }
    }

    /// The human-readable label of this kind.
    pub open spec fn label_spec(self) -> Seq<char> {
        match self {
            ArchiveType::Zip => "zip"@,
            ArchiveType::SevenZip => "7zip"@,
            ArchiveType::Gzip => "gzip"@,
            ArchiveType::Tar => "tar"@,
        }
    }

    /// The human-readable label of this kind.
    pub fn label(&self) -> (r: String)
        ensures
            r@ == self.label_spec(),
    {
        match self {
            ArchiveType::Zip => "zip".to_owned(),
            ArchiveType::SevenZip => "7zip".to_owned(),
            ArchiveType::Gzip => "gzip".to_owned(),
            ArchiveType::Tar => "tar".to_owned(),
        }
    }
}

/// Why a decode call failed.
///
/// `PasswordRequired` asks the caller to supply a password and call again;
/// `PasswordIncorrect` reports that the supplied one was refused. The caller,
/// not the decoder, decides to stop the process.
#[derive(Clone, Copy, PartialEq, Eq, Structural, Debug)]
pub enum DecodeError {
    /// The container is encrypted and no password was supplied.
    PasswordRequired,
    /// The supplied password was refused (or the container is corrupt in a
    /// way the format cannot tell apart from a bad password).
    PasswordIncorrect,
    /// The container's structure could not be read at all.
    BadArchive,
    /// An entry could not be read; fatal for the indexed and solid formats.
    EntryReadFailure,
}

/// One logical file recovered from a container: an optional relative path
/// and the fully decompressed payload.
#[derive(Debug, PartialEq, Eq)]
pub struct EnclosedFile {
    pub path: Option<String>,
    pub bytes: Vec<u8>,
}

/// The mathematical value of one extracted entry.
pub struct EntryModel {
    pub path: Option<Seq<char>>,
    pub bytes: Seq<u8>,
}

/// The character sequence of an optional password argument.
pub open spec fn pw_model(p: Option<&String>) -> Option<Seq<char>> {
    match p {
        Some(s) => Some(s@),
        None => None,
    }
}

/// The character sequence of an optional string.
pub open spec fn opt_str_model(o: Option<String>) -> Option<Seq<char>> {
    match o {
        Some(s) => Some(s@),
        None => None,
    }
}

impl EnclosedFile {
    /// The mathematical value of this entry.
    pub open spec fn model(self) -> EntryModel {
        EntryModel { path: opt_str_model(self.path), bytes: self.bytes@ }
    }

    /// The entry's file name as the view of `name()`: the file name its
    /// path points at (final segment, passing over trailing separators and
    /// current-directory segments, with none for a final parent-directory
    /// segment), or empty when the entry carries no path.
    pub open spec fn name_spec(self) -> Seq<char> {
        match self.path {
            Some(p) => crate::text::file_name_of(p@),
            None => Seq::empty(),
        }
    }

    /// The file name under which to report this entry: the file name its
    /// recorded path points at, or the empty string when no path was
    /// recorded or the path holds no file name.
    pub fn name(&self) -> (r: String)
        ensures
            r@ == self.name_spec(),
    {
        match &self.path {
            Some(p) => {
                let cs = chars_of(p.as_str());
                let seg = file_name_chars(&cs);
                chars_to_string(&seg)
            },
            None => String::new(),
        }
    }
}

/// The mathematical value of a run of extracted entries.
pub open spec fn entries_model(v: Seq<EnclosedFile>) -> Seq<EntryModel> {
    v.map_values(|f: EnclosedFile| f.model())
}

/// What decoding bytes `b` as a container of kind `k` yields, for input
/// found at `path` and an optional password. The tape format never fails:
/// it keeps whatever entries are recoverable.
pub open spec fn decode_spec(
    k: ArchiveType,
    b: Seq<u8>,
    path: Seq<char>,
    pw: Option<Seq<char>>,
) -> Result<Seq<EntryModel>, DecodeError> {
    match k {
        ArchiveType::Zip => crate::decompress::zip::zip_decode_spec(b, pw),
        ArchiveType::SevenZip => crate::decompress::sevenzip::sz_decode_spec(b, pw),
        ArchiveType::Gzip => crate::decompress::gzip::gzip_decode_spec(b, path),
        ArchiveType::Tar => Ok(
            crate::decompress::tar::tar_entries(crate::decompress::tar::tar_scan_of(b)),
        ),
    }
}

/// Decode one container: the bytes of the file found at `path`, already
/// classified as kind `archive_type`, under an optional password.
///
/// The entries come back in the decoder's own traversal order. An encrypted
/// container without a password yields `DecodeError::PasswordRequired`; the
/// caller prompts and calls again with the password.
pub fn get_file_data_from_archive(
    path: &String,
    data: &Vec<u8>,
    archive_type: ArchiveType,
    password: Option<&String>,
) -> (r: Result<Vec<EnclosedFile>, DecodeError>)
    ensures
        r is Ok <==> decode_spec(archive_type, data@, path@, pw_model(password)) is Ok,
        r matches Ok(v) ==> decode_spec(archive_type, data@, path@, pw_model(password)) == Ok::<
            _,
            DecodeError,
        >(entries_model(v@)),
        r matches Err(e) ==> decode_spec(archive_type, data@, path@, pw_model(password)) == Err::<
            Seq<EntryModel>,
            _,
        >(e),
{
    match archive_type {
        ArchiveType::Zip => crate::decompress::zip::get_files_from_zip_archive(data, password),
        ArchiveType::SevenZip => crate::decompress::sevenzip::get_files_from_7z_archive(
            data,
            password,
        ),
        ArchiveType::Gzip => crate::decompress::gzip::get_files_from_gzip_or_tarball(path, data),
        ArchiveType::Tar => Ok(crate::decompress::tar::get_files_from_tar(data)),
    }
}

} // verus!
